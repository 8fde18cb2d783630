use nft_interface::error::{NFTInterfaceError, ProcessError};
use nft_interface::ledger::{AccountState, LedgerAction, MinimumBalances, Outcome};
use nft_interface::pda::{derive_interface_address, derive_whitelist_address};
use nft_interface::processor::{
    process_create_nftinterface_account, process_create_whitelist_accounts,
    process_get_fee_nftinterface_accounts, process_instruction, process_mint_nftinterface_accounts,
    process_modify_nftinterface_accounts, process_modify_whitelist_accounts,
};
use nft_interface::state::{Key, NFTInterface, NFTACCOUNT_LENGTH};

fn key(b: u8) -> Key {
    Key::new([b; 32])
}

fn program() -> Key {
    key(200)
}

fn account(k: Key, lamports: u64, data: Vec<u8>) -> AccountState {
    AccountState { key: k, lamports, data, owner: key(0), is_signer: false }
}

fn balances() -> MinimumBalances {
    MinimumBalances { interface_record: 1_500_000, whitelist_record: 900_000, empty_account: 890_880 }
}

fn interface_key(authority: Key) -> Key {
    derive_interface_address(&program(), &authority).0
}

/// Accounts of a CreateInterface: record, fee receiver, payer, authority, system, rent.
fn create_accounts(record: Key, fee_receiver_lamports: u64, record_data: Vec<u8>) -> Vec<AccountState> {
    vec![
        account(record, 0, record_data),
        account(key(2), fee_receiver_lamports, vec![]),
        account(key(3), 10_000_000, vec![]),
        account(key(1), 0, vec![]),
        account(key(0), 1, vec![]),
        account(key(4), 1, vec![]),
    ]
}

fn created_record(price: u64, max_supply: u16, sealed: u8) -> Vec<u8> {
    let accounts = create_accounts(interface_key(key(1)), 0, vec![]);
    let out = process_create_nftinterface_account(&program(), &accounts, &balances(), price, max_supply, sealed)
        .unwrap();
    out.record_data.unwrap()
}

/// Accounts of a MintInterface: record, authority, fee receiver, payer, system.
fn mint_accounts(record_data: Vec<u8>, payer: Key, payer_lamports: u64) -> Vec<AccountState> {
    vec![
        account(interface_key(key(1)), 1_500_000, record_data),
        account(key(1), 0, vec![]),
        account(key(2), 0, vec![]),
        account(payer, payer_lamports, vec![]),
        account(key(0), 1, vec![]),
    ]
}

fn single_transfer(out: &Outcome) -> (Key, Key, u64) {
    assert_eq!(out.actions.len(), 1);
    match &out.actions[0] {
        LedgerAction::Transfer { from, to, lamports } => (*from, *to, *lamports),
        other => panic!("unexpected action {:?}", other),
    }
}

#[test]
fn derivation_is_deterministic() {
    let a = derive_interface_address(&program(), &key(1));
    let b = derive_interface_address(&program(), &key(1));
    assert_eq!(a, b);
    let c = derive_interface_address(&program(), &key(5));
    assert_ne!(a.0, c.0);
    let w1 = derive_whitelist_address(&program(), &key(1), &key(7));
    let w2 = derive_whitelist_address(&program(), &key(1), &key(7));
    assert_eq!(w1, w2);
    assert_ne!(w1.0, a.0);
}

#[test]
fn create_interface_writes_record_and_provisions() {
    let record = interface_key(key(1));
    let bump = derive_interface_address(&program(), &key(1)).1;
    let accounts = create_accounts(record, 0, vec![]);
    let out = process_create_nftinterface_account(&program(), &accounts, &balances(), 100, 3, 0).unwrap();
    let data = out.record_data.clone().unwrap();
    assert_eq!(data.len(), NFTACCOUNT_LENGTH);
    let rec = NFTInterface::from_account_data(&data).unwrap();
    assert_eq!(rec.token_price_per_nft, 100);
    assert_eq!(rec.max_supply, 3);
    assert_eq!(rec.total_supply, 0);
    assert_eq!(rec.update_authority_key, key(1));
    assert_eq!(rec.fee_receiver_key, key(2));
    assert_eq!(rec.is_sealed, 0);
    assert_eq!(out.actions.len(), 4);
    match &out.actions[0] {
        LedgerAction::Transfer { from, to, lamports } => {
            assert_eq!((*from, *to, *lamports), (key(3), record, 1_500_000));
        }
        other => panic!("unexpected action {:?}", other),
    }
    match &out.actions[1] {
        LedgerAction::Allocate { account, space, signer_seeds } => {
            assert_eq!(*account, record);
            assert_eq!(*space, 77);
            assert_eq!(signer_seeds.len(), 4);
            assert_eq!(signer_seeds[0], b"nftinterface".to_vec());
            assert_eq!(signer_seeds[1], vec![200u8; 32]);
            assert_eq!(signer_seeds[2], vec![1u8; 32]);
            assert_eq!(signer_seeds[3], vec![bump]);
        }
        other => panic!("unexpected action {:?}", other),
    }
    match &out.actions[2] {
        LedgerAction::Assign { account, owner, .. } => {
            assert_eq!((*account, *owner), (record, program()));
        }
        other => panic!("unexpected action {:?}", other),
    }
    match &out.actions[3] {
        LedgerAction::CreateAccount { from, to, lamports, space, owner } => {
            assert_eq!((*from, *to, *lamports, *space, *owner), (key(3), key(2), 890_880, 0, key(0)));
        }
        other => panic!("unexpected action {:?}", other),
    }
}

#[test]
fn create_interface_skips_existing_fee_receiver_and_partial_top_up() {
    let record = interface_key(key(1));
    let mut accounts = create_accounts(record, 5, vec![]);
    accounts[0].lamports = 1_000_000;
    let out = process_create_nftinterface_account(&program(), &accounts, &balances(), 1, 1, 1).unwrap();
    assert_eq!(out.actions.len(), 3);
    match &out.actions[0] {
        LedgerAction::Transfer { lamports, .. } => assert_eq!(*lamports, 500_000),
        other => panic!("unexpected action {:?}", other),
    }
    accounts[0].lamports = 2_000_000;
    let out = process_create_nftinterface_account(&program(), &accounts, &balances(), 1, 1, 1).unwrap();
    assert_eq!(out.actions.len(), 2);
    assert!(matches!(out.actions[0], LedgerAction::Allocate { .. }));
}

#[test]
fn create_interface_twice_fails() {
    let record = interface_key(key(1));
    let first = created_record(100, 3, 0);
    let accounts = create_accounts(record, 890_880, first);
    let again = process_create_nftinterface_account(&program(), &accounts, &balances(), 100, 3, 0);
    assert_eq!(again.unwrap_err(), ProcessError::AccountAlreadyInUse);
}

#[test]
fn scenario_three_mints_then_cap() {
    let mut data = created_record(100, 3, 0);
    let payer = key(3);
    let mut payer_balance: u64 = 1_000;
    let mut fee_receiver_balance: u64 = 0;
    for _ in 0..3 {
        let accounts = mint_accounts(data.clone(), payer, payer_balance);
        let out = process_mint_nftinterface_accounts(&program(), &accounts).unwrap();
        let (from, to, amount) = single_transfer(&out);
        assert_eq!((from, to), (payer, key(2)));
        payer_balance -= amount;
        fee_receiver_balance += amount;
        data = out.record_data.unwrap();
    }
    assert_eq!(NFTInterface::from_account_data(&data).unwrap().total_supply, 3);
    assert_eq!(fee_receiver_balance, 300);
    assert_eq!(payer_balance, 700);
    let accounts = mint_accounts(data.clone(), payer, payer_balance);
    let fourth = process_mint_nftinterface_accounts(&program(), &accounts);
    assert_eq!(fourth.unwrap_err(), ProcessError::Custom(NFTInterfaceError::ExceedMaxSupply));
    assert_eq!(fee_receiver_balance, 300);
}

#[test]
fn mint_by_authority_is_free() {
    let data = created_record(100, 3, 0);
    let accounts = mint_accounts(data, key(1), 0);
    let out = process_mint_nftinterface_accounts(&program(), &accounts).unwrap();
    assert_eq!(single_transfer(&out), (key(1), key(2), 0));
}

#[test]
fn mint_with_short_balance_fails() {
    let data = created_record(100, 3, 0);
    let accounts = mint_accounts(data.clone(), key(3), 99);
    let r = process_mint_nftinterface_accounts(&program(), &accounts);
    assert_eq!(r.unwrap_err(), ProcessError::Custom(NFTInterfaceError::NotEnoughSOL));
    let accounts = mint_accounts(data, key(3), 100);
    let out = process_mint_nftinterface_accounts(&program(), &accounts).unwrap();
    assert_eq!(single_transfer(&out), (key(3), key(2), 100));
}

#[test]
fn mint_balance_checked_before_cap() {
    let data = created_record(100, 0, 0);
    let accounts = mint_accounts(data.clone(), key(3), 10);
    let r = process_mint_nftinterface_accounts(&program(), &accounts);
    assert_eq!(r.unwrap_err(), ProcessError::Custom(NFTInterfaceError::NotEnoughSOL));
    let accounts = mint_accounts(data, key(3), 1_000);
    let r = process_mint_nftinterface_accounts(&program(), &accounts);
    assert_eq!(r.unwrap_err(), ProcessError::Custom(NFTInterfaceError::ExceedMaxSupply));
}

#[test]
fn wrong_record_address_is_rejected_everywhere() {
    let bad = key(99);
    let invalid = ProcessError::Custom(NFTInterfaceError::InvalidNFTAccountKey);
    let accounts = create_accounts(bad, 0, vec![]);
    let r = process_create_nftinterface_account(&program(), &accounts, &balances(), 1, 1, 1);
    assert_eq!(r.unwrap_err(), invalid);
    let data = created_record(100, 3, 0);
    let mut accounts = mint_accounts(data, key(3), 1_000);
    accounts[0].key = bad;
    assert_eq!(process_mint_nftinterface_accounts(&program(), &accounts).unwrap_err(), invalid);
    assert_eq!(
        process_modify_nftinterface_accounts(&program(), &accounts, Some(1), None, None, None).unwrap_err(),
        invalid
    );
    assert_eq!(process_get_fee_nftinterface_accounts(&program(), &accounts, None).unwrap_err(), invalid);
    let wl_invalid = ProcessError::Custom(NFTInterfaceError::InvalidWhitelistAccountKey);
    let wl_accounts = vec![
        account(bad, 0, vec![]),
        account(key(1), 0, vec![]),
        account(key(3), 10_000_000, vec![]),
        account(key(7), 0, vec![]),
        account(key(0), 1, vec![]),
        account(key(4), 1, vec![]),
    ];
    assert_eq!(process_create_whitelist_accounts(&program(), &wl_accounts, &balances(), 1).unwrap_err(), wl_invalid);
    let wl_accounts = vec![account(bad, 0, vec![0]), account(key(1), 0, vec![]), account(key(7), 0, vec![])];
    assert_eq!(process_modify_whitelist_accounts(&program(), &wl_accounts, 1).unwrap_err(), wl_invalid);
}

#[test]
fn too_few_accounts() {
    let accounts = vec![account(interface_key(key(1)), 0, vec![])];
    assert_eq!(
        process_mint_nftinterface_accounts(&program(), &accounts).unwrap_err(),
        ProcessError::NotEnoughAccountKeys
    );
}

#[test]
fn modify_without_fields_keeps_bytes() {
    let mut data = created_record(100, 3, 0);
    data.push(42);
    let accounts = mint_accounts(data.clone(), key(3), 0);
    let out = process_modify_nftinterface_accounts(&program(), &accounts, None, None, None, None).unwrap();
    assert_eq!(out.record_data.unwrap(), data);
    assert!(out.actions.is_empty());
}

#[test]
fn modify_only_max_supply() {
    let data = created_record(100, 3, 0);
    let before = NFTInterface::from_account_data(&data).unwrap();
    let accounts = mint_accounts(data, key(3), 0);
    let out = process_modify_nftinterface_accounts(&program(), &accounts, None, Some(9), None, None).unwrap();
    let after = NFTInterface::from_account_data(&out.record_data.unwrap()).unwrap();
    assert_eq!(after, NFTInterface { max_supply: 9, ..before });
}

#[test]
fn modify_all_fields() {
    let data = created_record(100, 3, 0);
    let accounts = mint_accounts(data, key(3), 0);
    let out = process_modify_nftinterface_accounts(&program(), &accounts, Some(7), Some(8), Some(2), Some(1))
        .unwrap();
    let after = NFTInterface::from_account_data(&out.record_data.unwrap()).unwrap();
    assert_eq!(
        (after.token_price_per_nft, after.max_supply, after.total_supply, after.is_sealed),
        (7, 8, 2, 1)
    );
    assert_eq!(after.update_authority_key, key(1));
}

#[test]
fn modify_short_record_fails() {
    let accounts = mint_accounts(vec![0u8; 10], key(3), 0);
    let r = process_modify_nftinterface_accounts(&program(), &accounts, None, None, None, None);
    assert_eq!(r.unwrap_err(), ProcessError::InvalidAccountData);
}

fn get_fee_accounts(fee_receiver_lamports: u64) -> Vec<AccountState> {
    vec![
        account(interface_key(key(1)), 1, vec![]),
        account(key(1), 0, vec![]),
        account(key(2), fee_receiver_lamports, vec![]),
        account(key(8), 0, vec![]),
        account(key(0), 1, vec![]),
    ]
}

#[test]
fn get_fee_withdraws_at_most_balance() {
    let accounts = get_fee_accounts(100);
    let out = process_get_fee_nftinterface_accounts(&program(), &accounts, Some(30)).unwrap();
    assert_eq!(single_transfer(&out), (key(2), key(8), 30));
    assert!(out.record_data.is_none());
    let out = process_get_fee_nftinterface_accounts(&program(), &accounts, Some(500)).unwrap();
    assert_eq!(single_transfer(&out), (key(2), key(8), 100));
    let out = process_get_fee_nftinterface_accounts(&program(), &accounts, None).unwrap();
    assert_eq!(single_transfer(&out), (key(2), key(8), 100));
}

#[test]
fn whitelist_create_and_modify() {
    let (wl, _) = derive_whitelist_address(&program(), &key(1), &key(7));
    let accounts = vec![
        account(wl, 0, vec![]),
        account(key(1), 0, vec![]),
        account(key(3), 10_000_000, vec![]),
        account(key(7), 0, vec![]),
        account(key(0), 1, vec![]),
        account(key(4), 1, vec![]),
    ];
    let out = process_create_whitelist_accounts(&program(), &accounts, &balances(), 1).unwrap();
    assert_eq!(out.record_data.clone().unwrap(), vec![1u8]);
    assert_eq!(out.actions.len(), 3);
    match &out.actions[1] {
        LedgerAction::Allocate { space, signer_seeds, .. } => {
            assert_eq!(*space, 1);
            assert_eq!(signer_seeds[0], b"whitelist".to_vec());
            assert_eq!(signer_seeds[3], vec![7u8; 32]);
        }
        other => panic!("unexpected action {:?}", other),
    }
    let modify = vec![account(wl, 1, vec![1]), account(key(1), 0, vec![]), account(key(7), 0, vec![])];
    let out = process_modify_whitelist_accounts(&program(), &modify, 0).unwrap();
    assert_eq!(out.record_data.unwrap(), vec![0u8]);
    let empty = vec![account(wl, 1, vec![]), account(key(1), 0, vec![]), account(key(7), 0, vec![])];
    assert_eq!(process_modify_whitelist_accounts(&program(), &empty, 0).unwrap_err(), ProcessError::InvalidAccountData);
}

#[test]
fn process_instruction_dispatches() {
    let mut input = vec![0u8];
    input.extend_from_slice(&100u64.to_le_bytes());
    input.extend_from_slice(&3u16.to_le_bytes());
    input.push(0);
    let accounts = create_accounts(interface_key(key(1)), 0, vec![]);
    let out = process_instruction(&program(), &accounts, &balances(), &input).unwrap();
    let data = out.record_data.unwrap();
    assert_eq!(data, created_record(100, 3, 0));
    let accounts = mint_accounts(data, key(3), 1_000);
    let out = process_instruction(&program(), &accounts, &balances(), &[2]).unwrap();
    assert_eq!(single_transfer(&out), (key(3), key(2), 100));
    assert_eq!(
        process_instruction(&program(), &accounts, &balances(), &[9]).unwrap_err(),
        ProcessError::InvalidInstructionData
    );
}
