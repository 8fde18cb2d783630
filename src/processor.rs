use vstd::prelude::*;
use crate::error::{NFTInterfaceError, ProcessError};
use crate::instruction::{ModifyNFTInterfaceAccountArgs, NFTInterfaceInstruction, parse_instruction};
use crate::ledger::{
    AccountState, AccountView, ActionView, LedgerAction, MinimumBalances, Outcome, OutcomeView,
    accounts_view, actions_view, result_view,
};
use crate::pda::{
    derive_interface_address, derive_whitelist_address, interface_address, interface_seed_bytes,
    interface_seeds, signer_seeds_of, whitelist_address, whitelist_seed_bytes, whitelist_seeds,
    with_bump,
};
use crate::state::{
    Key, NFTACCOUNT_LENGTH, NFTInterface, WHITELISTACCOUNT_LENGTH, Whitelist, encode_interface_fields,
    overwrite_interface, overwrite_whitelist, stored_interface,
};
use crate::utils::{create_or_allocate_account_raw, provisioning_result, shortfall};

verus! {

/// The fee a mint costs: nothing when the payer is the update authority,
/// else the record's price.
pub open spec fn mint_fee(rec: NFTInterface, payer: Seq<u8>, authority: Seq<u8>) -> u64 {
    if payer == authority {
        0
    } else {
        rec.token_price_per_nft
    }
}

/// The amount a fee withdrawal moves: what was asked for, at most the fee
/// receiver's balance; everything when nothing was asked for.
pub open spec fn withdrawal_amount(wanted: Option<u64>, balance: u64) -> u64 {
    match wanted {
        Some(v) => if v < balance {
            v
        } else {
            balance
        },
        None => balance,
    }
}

/// The record with each present field of the patch put in place.
pub open spec fn apply_patch(rec: NFTInterface, args: ModifyNFTInterfaceAccountArgs) -> NFTInterface {
    NFTInterface {
        token_price_per_nft: match args.token_price_per_nft {
            Some(v) => v,
            None => rec.token_price_per_nft,
        },
        max_supply: match args.max_supply {
            Some(v) => v,
            None => rec.max_supply,
        },
        total_supply: match args.total_supply {
            Some(v) => v,
            None => rec.total_supply,
        },
        update_authority_key: rec.update_authority_key,
        fee_receiver_key: rec.fee_receiver_key,
        is_sealed: match args.is_sealed {
            Some(v) => v,
            None => rec.is_sealed,
        },
    }
}

/// The record after one more unit is minted.
pub open spec fn minted(rec: NFTInterface) -> NFTInterface {
    NFTInterface {
        token_price_per_nft: rec.token_price_per_nft,
        max_supply: rec.max_supply,
        total_supply: (rec.total_supply + 1) as u16,
        update_authority_key: rec.update_authority_key,
        fee_receiver_key: rec.fee_receiver_key,
        is_sealed: rec.is_sealed,
    }
}

/// Opening of the fee receiver's zero-size account, funded by the payer,
/// where that account does not exist yet (holds no balance).
pub open spec fn fee_receiver_opening(
    payer: AccountView,
    fee_receiver: AccountView,
    system_program: AccountView,
    empty_minimum: u64,
) -> Seq<ActionView> {
    if fee_receiver.lamports == 0 {
        seq![
            ActionView::CreateAccount {
                from: payer.key,
                to: fee_receiver.key,
                lamports: shortfall(empty_minimum, fee_receiver.lamports),
                space: 0,
                owner: system_program.key,
            },
        ]
    } else {
        seq![]
    }
}

/// CreateInterface over accounts [new record, fee receiver, payer, update
/// authority, system program, rent].
pub open spec fn create_interface_result(
    program_id: Seq<u8>,
    accts: Seq<AccountView>,
    minimum_balances: MinimumBalances,
    token_price_per_nft: u64,
    max_supply: u16,
    is_sealed: u8,
) -> Result<OutcomeView, ProcessError> {
    if accts.len() < 6 {
        Err(ProcessError::NotEnoughAccountKeys)
    } else {
        let (address, bump) = interface_address(program_id, accts[3].key);
        if accts[0].key != address {
            Err(ProcessError::Custom(NFTInterfaceError::InvalidNFTAccountKey))
        } else {
            match provisioning_result(
                program_id,
                accts[0],
                accts[2],
                NFTACCOUNT_LENGTH as u64,
                minimum_balances.interface_record,
                signer_seeds_of(interface_seeds(program_id, accts[3].key), bump),
            ) {
                Err(e) => Err(e),
                Ok(provision) => Ok(
                    OutcomeView {
                        actions: provision + fee_receiver_opening(
                            accts[2],
                            accts[1],
                            accts[4],
                            minimum_balances.empty_account,
                        ),
                        record_data: Some(
                            encode_interface_fields(
                                token_price_per_nft,
                                max_supply,
                                0,
                                accts[3].key,
                                accts[1].key,
                                is_sealed,
                            ),
                        ),
                    },
                ),
            }
        }
    }
}

/// ModifyInterface over accounts [record, update authority].
pub open spec fn modify_interface_result(
    program_id: Seq<u8>,
    accts: Seq<AccountView>,
    args: ModifyNFTInterfaceAccountArgs,
) -> Result<OutcomeView, ProcessError> {
    if accts.len() < 2 {
        Err(ProcessError::NotEnoughAccountKeys)
    } else if accts[0].key != interface_address(program_id, accts[1].key).0 {
        Err(ProcessError::Custom(NFTInterfaceError::InvalidNFTAccountKey))
    } else if accts[0].data.len() < NFTACCOUNT_LENGTH {
        Err(ProcessError::InvalidAccountData)
    } else {
        Ok(
            OutcomeView {
                actions: seq![],
                record_data: Some(
                    overwrite_interface(accts[0].data, apply_patch(stored_interface(accts[0].data), args)),
                ),
            },
        )
    }
}

/// MintInterface over accounts [record, update authority, fee receiver,
/// payer, system program].
pub open spec fn mint_interface_result(program_id: Seq<u8>, accts: Seq<AccountView>) -> Result<
    OutcomeView,
    ProcessError,
> {
    if accts.len() < 5 {
        Err(ProcessError::NotEnoughAccountKeys)
    } else if accts[0].key != interface_address(program_id, accts[1].key).0 {
        Err(ProcessError::Custom(NFTInterfaceError::InvalidNFTAccountKey))
    } else if accts[0].data.len() < NFTACCOUNT_LENGTH {
        Err(ProcessError::InvalidAccountData)
    } else {
        let rec = stored_interface(accts[0].data);
        let fee = mint_fee(rec, accts[3].key, accts[1].key);
        if accts[3].lamports < fee {
            Err(ProcessError::Custom(NFTInterfaceError::NotEnoughSOL))
        } else if rec.total_supply + 1 > rec.max_supply {
            Err(ProcessError::Custom(NFTInterfaceError::ExceedMaxSupply))
        } else {
            Ok(
                OutcomeView {
                    actions: seq![ActionView::Transfer { from: accts[3].key, to: accts[2].key, lamports: fee }],
                    record_data: Some(overwrite_interface(accts[0].data, minted(rec))),
                },
            )
        }
    }
}

/// GetFeeInterface over accounts [record, update authority, fee receiver,
/// receiver, system program].
pub open spec fn get_fee_result(program_id: Seq<u8>, accts: Seq<AccountView>, wanted_supply: Option<u64>) -> Result<
    OutcomeView,
    ProcessError,
> {
    if accts.len() < 5 {
        Err(ProcessError::NotEnoughAccountKeys)
    } else if accts[0].key != interface_address(program_id, accts[1].key).0 {
        Err(ProcessError::Custom(NFTInterfaceError::InvalidNFTAccountKey))
    } else {
        Ok(
            OutcomeView {
                actions: seq![
                    ActionView::Transfer {
                        from: accts[2].key,
                        to: accts[3].key,
                        lamports: withdrawal_amount(wanted_supply, accts[2].lamports),
                    },
                ],
                record_data: None,
            },
        )
    }
}

/// CreateWhitelist over accounts [new record, update authority, payer,
/// target, system program, rent].
pub open spec fn create_whitelist_result(
    program_id: Seq<u8>,
    accts: Seq<AccountView>,
    minimum_balances: MinimumBalances,
    is_sealed: u8,
) -> Result<OutcomeView, ProcessError> {
    if accts.len() < 6 {
        Err(ProcessError::NotEnoughAccountKeys)
    } else {
        let (address, bump) = whitelist_address(program_id, accts[1].key, accts[3].key);
        if accts[0].key != address {
            Err(ProcessError::Custom(NFTInterfaceError::InvalidWhitelistAccountKey))
        } else {
            match provisioning_result(
                program_id,
                accts[0],
                accts[2],
                WHITELISTACCOUNT_LENGTH as u64,
                minimum_balances.whitelist_record,
                signer_seeds_of(whitelist_seeds(program_id, accts[1].key, accts[3].key), bump),
            ) {
                Err(e) => Err(e),
                Ok(provision) => Ok(OutcomeView { actions: provision, record_data: Some(seq![is_sealed]) }),
            }
        }
    }
}

/// ModifyWhitelist over accounts [record, update authority, target].
pub open spec fn modify_whitelist_result(program_id: Seq<u8>, accts: Seq<AccountView>, is_sealed: u8) -> Result<
    OutcomeView,
    ProcessError,
> {
    if accts.len() < 3 {
        Err(ProcessError::NotEnoughAccountKeys)
    } else if accts[0].key != whitelist_address(program_id, accts[1].key, accts[2].key).0 {
        Err(ProcessError::Custom(NFTInterfaceError::InvalidWhitelistAccountKey))
    } else if accts[0].data.len() < WHITELISTACCOUNT_LENGTH {
        Err(ProcessError::InvalidAccountData)
    } else {
        Ok(
            OutcomeView {
                actions: seq![],
                record_data: Some(overwrite_whitelist(accts[0].data, Whitelist { is_sealed })),
            },
        )
    }
}

/// The result of the instruction that `input` encodes.
pub open spec fn instruction_result(
    program_id: Seq<u8>,
    accts: Seq<AccountView>,
    minimum_balances: MinimumBalances,
    input: Seq<u8>,
) -> Result<OutcomeView, ProcessError> {
    match parse_instruction(input) {
        None => Err(ProcessError::InvalidInstructionData),
        Some(ix) => match ix {
            NFTInterfaceInstruction::CreateNFTInterfaceAccount(args) => create_interface_result(
                program_id,
                accts,
                minimum_balances,
                args.token_price_per_nft,
                args.max_supply,
                args.is_sealed,
            ),
            NFTInterfaceInstruction::ModifyNFTInterfaceAccount(args) => modify_interface_result(
                program_id,
                accts,
                args,
            ),
            NFTInterfaceInstruction::MintNFTInterfaceAccount(_) => mint_interface_result(program_id, accts),
            NFTInterfaceInstruction::GetFeeNftInterfaceAccount(args) => get_fee_result(
                program_id,
                accts,
                args.wanted_supply,
            ),
            NFTInterfaceInstruction::CreateWhitelistAccount(args) => create_whitelist_result(
                program_id,
                accts,
                minimum_balances,
                args.is_sealed,
            ),
            NFTInterfaceInstruction::ModifyWhitelistAccount(args) => modify_whitelist_result(
                program_id,
                accts,
                args.is_sealed,
            ),
        },
    }
}

/// Sets the supplied fields of the authority's interface record.
pub fn process_modify_nftinterface_accounts(
    program_id: &Key,
    accounts: &[AccountState],
    token_price_per_nft: Option<u64>,
    max_supply: Option<u16>,
    total_supply: Option<u16>,
    is_sealed: Option<u8>,
) -> (r: Result<Outcome, ProcessError>)
    ensures
        result_view(r) == modify_interface_result(
            program_id@,
            accounts_view(accounts@),
            ModifyNFTInterfaceAccountArgs { token_price_per_nft, max_supply, total_supply, is_sealed },
        ),
{
    if accounts.len() < 2 {
        return Err(ProcessError::NotEnoughAccountKeys);
    }
    let nft_interface_account_info = &accounts[0];
    let update_authority_info = &accounts[1];
    let (nft_interface_key, _) = derive_interface_address(program_id, &update_authority_info.key);
    if !nft_interface_account_info.key.key_eq(&nft_interface_key) {
        return Err(ProcessError::Custom(NFTInterfaceError::InvalidNFTAccountKey));
    }
    let mut data = match NFTInterface::from_account_data(nft_interface_account_info.data.as_slice()) {
        Ok(d) => d,
        Err(e) => return Err(e),
    };
    if let Some(val) = token_price_per_nft {
        data.token_price_per_nft = val;
    }
    if let Some(val) = max_supply {
        data.max_supply = val;
    }
    if let Some(val) = total_supply {
        data.total_supply = val;
    }
    if let Some(val) = is_sealed {
        data.is_sealed = val;
    }
    let record_data = data.write_into(nft_interface_account_info.data.as_slice());
    let actions: Vec<LedgerAction> = Vec::new();
    let r = Outcome { actions, record_data: Some(record_data) };
    assert(r@.actions =~= seq![]);
    Ok(r)
}

/// Charges the mint fee and counts one more unit against the supply cap.
pub fn process_mint_nftinterface_accounts(program_id: &Key, accounts: &[AccountState]) -> (r: Result<
    Outcome,
    ProcessError,
>)
    ensures
        result_view(r) == mint_interface_result(program_id@, accounts_view(accounts@)),
{
    if accounts.len() < 5 {
        return Err(ProcessError::NotEnoughAccountKeys);
    }
    let nft_interface_account_info = &accounts[0];
    let update_authority_info = &accounts[1];
    let fee_receiver_account_info = &accounts[2];
    let payer_info = &accounts[3];
    let (nft_interface_key, _) = derive_interface_address(program_id, &update_authority_info.key);
    if !nft_interface_account_info.key.key_eq(&nft_interface_key) {
        return Err(ProcessError::Custom(NFTInterfaceError::InvalidNFTAccountKey));
    }
    let mut data = match NFTInterface::from_account_data(nft_interface_account_info.data.as_slice()) {
        Ok(d) => d,
        Err(e) => return Err(e),
    };
    let mut fee_amount: u64 = data.token_price_per_nft;
    if payer_info.key.key_eq(&update_authority_info.key) {
        fee_amount = 0;
    }
    if payer_info.lamports < fee_amount {
        return Err(ProcessError::Custom(NFTInterfaceError::NotEnoughSOL));
    }
    if data.total_supply as u32 + 1 > data.max_supply as u32 {
        return Err(ProcessError::Custom(NFTInterfaceError::ExceedMaxSupply));
    }
    let mut actions: Vec<LedgerAction> = Vec::new();
    actions.push(
        LedgerAction::Transfer { from: payer_info.key, to: fee_receiver_account_info.key, lamports: fee_amount },
    );
    data.total_supply = data.total_supply + 1;
    let record_data = data.write_into(nft_interface_account_info.data.as_slice());
    let r = Outcome { actions, record_data: Some(record_data) };
    assert(r@.actions =~= seq![
        ActionView::Transfer { from: payer_info.key@, to: fee_receiver_account_info.key@, lamports: fee_amount },
    ]);
    Ok(r)
}

/// Opens the authority's interface record at its derived address, writes
/// the given price, cap and flag with a supply of zero, and opens the fee
/// receiver's account where it does not exist yet.
pub fn process_create_nftinterface_account(
    program_id: &Key,
    accounts: &[AccountState],
    minimum_balances: &MinimumBalances,
    token_price_per_nft: u64,
    max_supply: u16,
    is_sealed: u8,
) -> (r: Result<Outcome, ProcessError>)
    ensures
        result_view(r) == create_interface_result(
            program_id@,
            accounts_view(accounts@),
            *minimum_balances,
            token_price_per_nft,
            max_supply,
            is_sealed,
        ),
{
    if accounts.len() < 6 {
        return Err(ProcessError::NotEnoughAccountKeys);
    }
    let new_account_info = &accounts[0];
    let fee_receiver_account_info = &accounts[1];
    let payer_info = &accounts[2];
    let update_authority_info = &accounts[3];
    let system_program_info = &accounts[4];
    let (nft_interface_key, nft_interface_bump_seed) = derive_interface_address(
        program_id,
        &update_authority_info.key,
    );
    if !new_account_info.key.key_eq(&nft_interface_key) {
        return Err(ProcessError::Custom(NFTInterfaceError::InvalidNFTAccountKey));
    }
    let signer_seeds = with_bump(
        interface_seed_bytes(program_id, &update_authority_info.key),
        nft_interface_bump_seed,
    );
    let mut actions = match create_or_allocate_account_raw(
        program_id,
        new_account_info,
        payer_info,
        NFTACCOUNT_LENGTH,
        minimum_balances.interface_record,
        signer_seeds,
    ) {
        Ok(a) => a,
        Err(e) => return Err(e),
    };
    let ghost provision = actions@;
    if fee_receiver_account_info.lamports == 0 {
        let need: u64 = if minimum_balances.empty_account > 1 {
            minimum_balances.empty_account
        } else {
            1
        };
        actions.push(
            LedgerAction::CreateAccount {
                from: payer_info.key,
                to: fee_receiver_account_info.key,
                lamports: need,
                space: 0,
                owner: system_program_info.key,
            },
        );
    }
    let record = NFTInterface {
        token_price_per_nft,
        max_supply,
        total_supply: 0,
        update_authority_key: update_authority_info.key,
        fee_receiver_key: fee_receiver_account_info.key,
        is_sealed,
    };
    let r = Outcome { actions, record_data: Some(record.to_bytes()) };
    assert(r@.actions =~= actions_view(provision) + fee_receiver_opening(
        payer_info@,
        fee_receiver_account_info@,
        system_program_info@,
        minimum_balances.empty_account,
    ));
    Ok(r)
}

/// Withdraws from the fee receiver to the receiver: the amount asked for, at
/// most the fee receiver's balance, or all of it when none is given.
pub fn process_get_fee_nftinterface_accounts(
    program_id: &Key,
    accounts: &[AccountState],
    wanted_supply: Option<u64>,
) -> (r: Result<Outcome, ProcessError>)
    ensures
        result_view(r) == get_fee_result(program_id@, accounts_view(accounts@), wanted_supply),
{
    if accounts.len() < 5 {
        return Err(ProcessError::NotEnoughAccountKeys);
    }
    let nft_interface_account_info = &accounts[0];
    let update_authority_info = &accounts[1];
    let fee_receiver_account_info = &accounts[2];
    let receiver_account_info = &accounts[3];
    let (nft_interface_key, _) = derive_interface_address(program_id, &update_authority_info.key);
    if !nft_interface_account_info.key.key_eq(&nft_interface_key) {
        return Err(ProcessError::Custom(NFTInterfaceError::InvalidNFTAccountKey));
    }
    let fee_amount: u64 = match wanted_supply {
        Some(val) => if fee_receiver_account_info.lamports < val {
            fee_receiver_account_info.lamports
        } else {
            val
        },
        None => fee_receiver_account_info.lamports,
    };
    let mut actions: Vec<LedgerAction> = Vec::new();
    actions.push(
        LedgerAction::Transfer {
            from: fee_receiver_account_info.key,
            to: receiver_account_info.key,
            lamports: fee_amount,
        },
    );
    let r = Outcome { actions, record_data: None };
    assert(r@.actions =~= seq![
        ActionView::Transfer {
            from: fee_receiver_account_info.key@,
            to: receiver_account_info.key@,
            lamports: fee_amount,
        },
    ]);
    Ok(r)
}

/// Opens the whitelist record of the authority for the target account at its
/// derived address and writes its flag.
pub fn process_create_whitelist_accounts(
    program_id: &Key,
    accounts: &[AccountState],
    minimum_balances: &MinimumBalances,
    is_sealed: u8,
) -> (r: Result<Outcome, ProcessError>)
    ensures
        result_view(r) == create_whitelist_result(
            program_id@,
            accounts_view(accounts@),
            *minimum_balances,
            is_sealed,
        ),
{
    if accounts.len() < 6 {
        return Err(ProcessError::NotEnoughAccountKeys);
    }
    let new_account_info = &accounts[0];
    let update_authority_info = &accounts[1];
    let payer_info = &accounts[2];
    let whitelist_account_info = &accounts[3];
    let (whitelist_key, whitelist_bump_seed) = derive_whitelist_address(
        program_id,
        &update_authority_info.key,
        &whitelist_account_info.key,
    );
    if !new_account_info.key.key_eq(&whitelist_key) {
        return Err(ProcessError::Custom(NFTInterfaceError::InvalidWhitelistAccountKey));
    }
    let signer_seeds = with_bump(
        whitelist_seed_bytes(program_id, &update_authority_info.key, &whitelist_account_info.key),
        whitelist_bump_seed,
    );
    let actions = match create_or_allocate_account_raw(
        program_id,
        new_account_info,
        payer_info,
        WHITELISTACCOUNT_LENGTH,
        minimum_balances.whitelist_record,
        signer_seeds,
    ) {
        Ok(a) => a,
        Err(e) => return Err(e),
    };
    let record = Whitelist { is_sealed };
    Ok(Outcome { actions, record_data: Some(record.to_bytes()) })
}

/// Overwrites the flag of the whitelist record of the authority for the
/// target account.
pub fn process_modify_whitelist_accounts(program_id: &Key, accounts: &[AccountState], is_sealed: u8) -> (r:
    Result<Outcome, ProcessError>)
    ensures
        result_view(r) == modify_whitelist_result(program_id@, accounts_view(accounts@), is_sealed),
{
    if accounts.len() < 3 {
        return Err(ProcessError::NotEnoughAccountKeys);
    }
    let whitelist_data_account_info = &accounts[0];
    let update_authority_info = &accounts[1];
    let whitelist_account_info = &accounts[2];
    let (whitelist_key, _) = derive_whitelist_address(
        program_id,
        &update_authority_info.key,
        &whitelist_account_info.key,
    );
    if !whitelist_data_account_info.key.key_eq(&whitelist_key) {
        return Err(ProcessError::Custom(NFTInterfaceError::InvalidWhitelistAccountKey));
    }
    let whitelist_data = match Whitelist::from_account_data(whitelist_data_account_info.data.as_slice()) {
        Ok(w) => w,
        Err(e) => return Err(e),
    };
    let updated = Whitelist { is_sealed, ..whitelist_data };
    let record_data = updated.write_into(whitelist_data_account_info.data.as_slice());
    let actions: Vec<LedgerAction> = Vec::new();
    let r = Outcome { actions, record_data: Some(record_data) };
    assert(r@.actions =~= seq![]);
    Ok(r)
}

/// Decodes an instruction and runs its handler over the supplied accounts.
pub fn process_instruction(
    program_id: &Key,
    accounts: &[AccountState],
    minimum_balances: &MinimumBalances,
    input: &[u8],
) -> (r: Result<Outcome, ProcessError>)
    ensures
        result_view(r) == instruction_result(program_id@, accounts_view(accounts@), *minimum_balances, input@),
{
    let instruction = match NFTInterfaceInstruction::unpack(input) {
        Ok(ix) => ix,
        Err(e) => return Err(e),
    };
    match instruction {
        NFTInterfaceInstruction::CreateNFTInterfaceAccount(args) => process_create_nftinterface_account(
            program_id,
            accounts,
            minimum_balances,
            args.token_price_per_nft,
            args.max_supply,
            args.is_sealed,
        ),
        NFTInterfaceInstruction::ModifyNFTInterfaceAccount(args) => process_modify_nftinterface_accounts(
            program_id,
            accounts,
            args.token_price_per_nft,
            args.max_supply,
            args.total_supply,
            args.is_sealed,
        ),
        NFTInterfaceInstruction::MintNFTInterfaceAccount(_) => process_mint_nftinterface_accounts(
            program_id,
            accounts,
        ),
        NFTInterfaceInstruction::GetFeeNftInterfaceAccount(args) => process_get_fee_nftinterface_accounts(
            program_id,
            accounts,
            args.wanted_supply,
        ),
        NFTInterfaceInstruction::CreateWhitelistAccount(args) => process_create_whitelist_accounts(
            program_id,
            accounts,
            minimum_balances,
            args.is_sealed,
        ),
        NFTInterfaceInstruction::ModifyWhitelistAccount(args) => process_modify_whitelist_accounts(
            program_id,
            accounts,
            args.is_sealed,
        ),
    }
}

} // verus!
