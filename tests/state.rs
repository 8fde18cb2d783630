use nft_interface::error::{NFTInterfaceError, ProcessError};
use nft_interface::instruction::{
    CreateNFTInterfaceAccountArgs, GetFeeNftInterfaceAccountArgs, ModifyNFTInterfaceAccountArgs,
    MintNFTInterfaceAccountArgs, ModifyWhitelistAccountArgs, NFTInterfaceInstruction, CreateWhitelistAccountArgs,
};
use nft_interface::ledger::AccountState;
use nft_interface::state::{Key, NFTInterface, Whitelist};
use nft_interface::utils::{
    assert_mint_authority_matches_mint, assert_owned_by, assert_token_program_matches_package,
    get_mint_authority, OptionalKey,
};

fn account(k: Key, owner: Key, is_signer: bool) -> AccountState {
    AccountState { key: k, lamports: 0, data: vec![], owner, is_signer }
}

#[test]
fn record_layout_is_fixed() {
    let rec = NFTInterface {
        token_price_per_nft: 0x0102030405060708,
        max_supply: 0x0a0b,
        total_supply: 0x0c0d,
        update_authority_key: Key::new([1; 32]),
        fee_receiver_key: Key::new([2; 32]),
        is_sealed: 1,
    };
    let bytes = rec.to_bytes();
    assert_eq!(bytes.len(), 77);
    assert_eq!(&bytes[0..8], &[8, 7, 6, 5, 4, 3, 2, 1]);
    assert_eq!(&bytes[8..12], &[0x0b, 0x0a, 0x0d, 0x0c]);
    assert_eq!(&bytes[12..44], &[1u8; 32]);
    assert_eq!(&bytes[44..76], &[2u8; 32]);
    assert_eq!(bytes[76], 1);
    assert_eq!(NFTInterface::from_account_data(&bytes).unwrap(), rec);
    let mut longer = bytes.clone();
    longer.extend_from_slice(&[5, 5]);
    assert_eq!(NFTInterface::from_account_data(&longer).unwrap(), rec);
}

#[test]
fn zeroed_storage_decodes() {
    let rec = NFTInterface::from_account_data(&[0u8; 77]).unwrap();
    assert_eq!(rec.token_price_per_nft, 0);
    assert_eq!(rec.update_authority_key, Key::new([0; 32]));
    assert_eq!(NFTInterface::from_account_data(&[0u8; 76]).unwrap_err(), ProcessError::InvalidAccountData);
    assert_eq!(Whitelist::from_account_data(&[0u8]).unwrap(), Whitelist { is_sealed: 0 });
    assert_eq!(Whitelist::from_account_data(&[]).unwrap_err(), ProcessError::InvalidAccountData);
}

#[test]
fn write_into_keeps_trailing_bytes() {
    let rec = NFTInterface::from_account_data(&[0u8; 77]).unwrap();
    let mut data = vec![9u8; 80];
    data[0] = 3;
    let out = rec.write_into(&data);
    assert_eq!(out.len(), 80);
    assert_eq!(&out[0..77], &[0u8; 77][..]);
    assert_eq!(&out[77..], &[9, 9, 9]);
    assert_eq!(Whitelist { is_sealed: 4 }.write_into(&[1, 2]), vec![4, 2]);
}

#[test]
fn error_codes_follow_declaration_order() {
    assert_eq!(NFTInterfaceError::InvalidNFTAccountKey.code(), 0);
    assert_eq!(NFTInterfaceError::NotEnoughSOL.code(), 7);
    assert_eq!(NFTInterfaceError::ExceedMaxSupply.code(), 9);
    assert_eq!(NFTInterfaceError::InvalidWhitelistAccountKey.code(), 10);
}

#[test]
fn instruction_decoding() {
    let mut create = vec![0u8];
    create.extend_from_slice(&100u64.to_le_bytes());
    create.extend_from_slice(&3u16.to_le_bytes());
    create.push(1);
    assert_eq!(
        NFTInterfaceInstruction::unpack(&create).unwrap(),
        NFTInterfaceInstruction::CreateNFTInterfaceAccount(CreateNFTInterfaceAccountArgs {
            token_price_per_nft: 100,
            max_supply: 3,
            is_sealed: 1
        })
    );
    create.push(0);
    assert_eq!(NFTInterfaceInstruction::unpack(&create).unwrap_err(), ProcessError::InvalidInstructionData);

    let modify = vec![1u8, 0, 1, 9, 0, 0, 1, 5];
    assert_eq!(
        NFTInterfaceInstruction::unpack(&modify).unwrap(),
        NFTInterfaceInstruction::ModifyNFTInterfaceAccount(ModifyNFTInterfaceAccountArgs {
            token_price_per_nft: None,
            max_supply: Some(9),
            total_supply: None,
            is_sealed: Some(5)
        })
    );
    assert_eq!(NFTInterfaceInstruction::unpack(&[1, 2, 0, 0, 0]).unwrap_err(), ProcessError::InvalidInstructionData);
    assert_eq!(
        NFTInterfaceInstruction::unpack(&[2]).unwrap(),
        NFTInterfaceInstruction::MintNFTInterfaceAccount(MintNFTInterfaceAccountArgs {})
    );
    let mut fee = vec![3u8, 1];
    fee.extend_from_slice(&7u64.to_le_bytes());
    assert_eq!(
        NFTInterfaceInstruction::unpack(&fee).unwrap(),
        NFTInterfaceInstruction::GetFeeNftInterfaceAccount(GetFeeNftInterfaceAccountArgs { wanted_supply: Some(7) })
    );
    assert_eq!(
        NFTInterfaceInstruction::unpack(&[3, 0]).unwrap(),
        NFTInterfaceInstruction::GetFeeNftInterfaceAccount(GetFeeNftInterfaceAccountArgs { wanted_supply: None })
    );
    assert_eq!(
        NFTInterfaceInstruction::unpack(&[4, 1]).unwrap(),
        NFTInterfaceInstruction::CreateWhitelistAccount(CreateWhitelistAccountArgs { is_sealed: 1 })
    );
    assert_eq!(
        NFTInterfaceInstruction::unpack(&[5, 0]).unwrap(),
        NFTInterfaceInstruction::ModifyWhitelistAccount(ModifyWhitelistAccountArgs { is_sealed: 0 })
    );
    assert_eq!(NFTInterfaceInstruction::unpack(&[]).unwrap_err(), ProcessError::InvalidInstructionData);
    assert_eq!(NFTInterfaceInstruction::unpack(&[6]).unwrap_err(), ProcessError::InvalidInstructionData);
}

#[test]
fn mint_authority_field() {
    let mut data = vec![1u8, 0, 0, 0];
    data.extend_from_slice(&[6u8; 32]);
    data.extend_from_slice(&[0u8; 46]);
    assert_eq!(get_mint_authority(&data).unwrap(), OptionalKey::Present(Key::new([6; 32])));
    let mut none = vec![0u8; 36];
    assert_eq!(get_mint_authority(&none).unwrap(), OptionalKey::Absent);
    none[0] = 2;
    assert_eq!(get_mint_authority(&none).unwrap_err(), ProcessError::InvalidAccountData);
    assert_eq!(get_mint_authority(&[1, 0, 0]).unwrap_err(), ProcessError::InvalidAccountData);
}

#[test]
fn mint_authority_checks() {
    let authority = OptionalKey::Present(Key::new([6; 32]));
    let signer = account(Key::new([6; 32]), Key::new([0; 32]), true);
    assert!(assert_mint_authority_matches_mint(&authority, &signer).is_ok());
    let unsigned = account(Key::new([6; 32]), Key::new([0; 32]), false);
    assert_eq!(
        assert_mint_authority_matches_mint(&authority, &unsigned).unwrap_err(),
        ProcessError::Custom(NFTInterfaceError::NotMintAuthority)
    );
    let other = account(Key::new([7; 32]), Key::new([0; 32]), true);
    assert_eq!(
        assert_mint_authority_matches_mint(&authority, &other).unwrap_err(),
        ProcessError::Custom(NFTInterfaceError::InvalidMintAuthority)
    );
    assert_eq!(
        assert_mint_authority_matches_mint(&OptionalKey::Absent, &signer).unwrap_err(),
        ProcessError::Custom(NFTInterfaceError::InvalidMintAuthority)
    );
}

#[test]
fn owner_check() {
    let a = account(Key::new([1; 32]), Key::new([9; 32]), false);
    assert!(assert_owned_by(&a, &Key::new([9; 32])).is_ok());
    assert_eq!(
        assert_owned_by(&a, &Key::new([8; 32])).unwrap_err(),
        ProcessError::Custom(NFTInterfaceError::IncorrectOwner)
    );
}

#[test]
fn token_program_check() {
    let token = account(Key::new(spl_token::id().to_bytes()), Key::new([0; 32]), false);
    assert!(assert_token_program_matches_package(&token).is_ok());
    let other = account(Key::new([3; 32]), Key::new([0; 32]), false);
    assert_eq!(
        assert_token_program_matches_package(&other).unwrap_err(),
        ProcessError::Custom(NFTInterfaceError::InvalidTokenProgram)
    );
}
