use vstd::prelude::*;
use crate::error::{NFTInterfaceError, ProcessError};
use crate::instruction::ModifyNFTInterfaceAccountArgs;
use crate::ledger::{AccountView, ActionView, MinimumBalances, OutcomeView};
use crate::pda::{interface_address, whitelist_address};
use crate::processor::{
    create_interface_result, create_whitelist_result, get_fee_result, mint_fee, mint_interface_result,
    modify_interface_result, modify_whitelist_result,
};
use crate::state::{
    NFTACCOUNT_LENGTH, NFTInterface, lemma_encode_interface_len, lemma_overwrite_interface,
    lemma_stored_interface, overwrite_interface, stored_interface,
};

verus! {

/// A successful mint raises the supply by exactly one and leaves it within
/// the cap, whatever the record held before; so after every successful mint
/// of any sequence `total_supply <= max_supply`.
pub proof fn lemma_mint_keeps_supply_within_cap(program_id: Seq<u8>, accts: Seq<AccountView>)
    requires
        mint_interface_result(program_id, accts) is Ok,
    ensures
        mint_interface_result(program_id, accts) matches Ok(out) && out.record_data matches Some(
            d,
        ) && stored_interface(d).total_supply <= stored_interface(d).max_supply
            && stored_interface(d).total_supply == stored_interface(accts[0].data).total_supply + 1
            && stored_interface(d).max_supply == stored_interface(accts[0].data).max_supply,
{
    let rec = stored_interface(accts[0].data);
    let next = NFTInterface {
        token_price_per_nft: rec.token_price_per_nft,
        max_supply: rec.max_supply,
        total_supply: (rec.total_supply + 1) as u16,
        update_authority_key: rec.update_authority_key,
        fee_receiver_key: rec.fee_receiver_key,
        is_sealed: rec.is_sealed,
    };
    lemma_overwrite_interface(accts[0].data, next);
}

/// A mint on a record whose supply has reached its cap fails with the
/// cap-exceeded error, and so changes nothing, whenever the payer could
/// cover the fee.
pub proof fn lemma_mint_at_cap_fails(program_id: Seq<u8>, accts: Seq<AccountView>)
    requires
        accts.len() >= 5,
        accts[0].key == interface_address(program_id, accts[1].key).0,
        accts[0].data.len() >= NFTACCOUNT_LENGTH,
        stored_interface(accts[0].data).total_supply == stored_interface(accts[0].data).max_supply,
        accts[3].lamports >= mint_fee(stored_interface(accts[0].data), accts[3].key, accts[1].key),
    ensures
        mint_interface_result(program_id, accts) == Err::<OutcomeView, _>(
            ProcessError::Custom(NFTInterfaceError::ExceedMaxSupply),
        ),
{
}

/// The fee of a successful mint: it moves nothing when the payer is the
/// update authority, and exactly the price from payer to fee receiver
/// otherwise. A payer other than the authority holding less than the price
/// is refused for want of balance.
pub proof fn lemma_mint_fee(program_id: Seq<u8>, accts: Seq<AccountView>)
    ensures
        mint_interface_result(program_id, accts) is Ok && accts[3].key == accts[1].key
            ==> mint_interface_result(program_id, accts)->Ok_0.actions == seq![
            ActionView::Transfer { from: accts[3].key, to: accts[2].key, lamports: 0 },
        ],
        mint_interface_result(program_id, accts) is Ok && accts[3].key != accts[1].key
            ==> mint_interface_result(program_id, accts)->Ok_0.actions == seq![
            ActionView::Transfer {
                from: accts[3].key,
                to: accts[2].key,
                lamports: stored_interface(accts[0].data).token_price_per_nft,
            },
        ],
        accts.len() >= 5 && accts[0].key == interface_address(program_id, accts[1].key).0
            && accts[0].data.len() >= NFTACCOUNT_LENGTH && accts[3].key != accts[1].key
            && accts[3].lamports < stored_interface(accts[0].data).token_price_per_nft
            ==> mint_interface_result(program_id, accts) == Err::<OutcomeView, _>(
            ProcessError::Custom(NFTInterfaceError::NotEnoughSOL),
        ),
{
}

/// Every handler refuses a record account whose key is not the address
/// derived from the other supplied accounts, with the invalid-key error of
/// its record kind, and so changes nothing.
pub proof fn lemma_wrong_address_rejected(
    program_id: Seq<u8>,
    accts: Seq<AccountView>,
    minimum_balances: MinimumBalances,
    token_price_per_nft: u64,
    max_supply: u16,
    is_sealed: u8,
    args: ModifyNFTInterfaceAccountArgs,
    wanted_supply: Option<u64>,
)
    ensures
        accts.len() >= 6 && accts[0].key != interface_address(program_id, accts[3].key).0
            ==> create_interface_result(
            program_id,
            accts,
            minimum_balances,
            token_price_per_nft,
            max_supply,
            is_sealed,
        ) == Err::<OutcomeView, _>(ProcessError::Custom(NFTInterfaceError::InvalidNFTAccountKey)),
        accts.len() >= 2 && accts[0].key != interface_address(program_id, accts[1].key).0
            ==> modify_interface_result(program_id, accts, args) == Err::<OutcomeView, _>(
            ProcessError::Custom(NFTInterfaceError::InvalidNFTAccountKey),
        ),
        accts.len() >= 5 && accts[0].key != interface_address(program_id, accts[1].key).0
            ==> mint_interface_result(program_id, accts) == Err::<OutcomeView, _>(
            ProcessError::Custom(NFTInterfaceError::InvalidNFTAccountKey),
        ),
        accts.len() >= 5 && accts[0].key != interface_address(program_id, accts[1].key).0
            ==> get_fee_result(program_id, accts, wanted_supply) == Err::<OutcomeView, _>(
            ProcessError::Custom(NFTInterfaceError::InvalidNFTAccountKey),
        ),
        accts.len() >= 6 && accts[0].key != whitelist_address(program_id, accts[1].key, accts[3].key).0
            ==> create_whitelist_result(program_id, accts, minimum_balances, is_sealed) == Err::<
            OutcomeView,
            _,
        >(ProcessError::Custom(NFTInterfaceError::InvalidWhitelistAccountKey)),
        accts.len() >= 3 && accts[0].key != whitelist_address(program_id, accts[1].key, accts[2].key).0
            ==> modify_whitelist_result(program_id, accts, is_sealed) == Err::<OutcomeView, _>(
            ProcessError::Custom(NFTInterfaceError::InvalidWhitelistAccountKey),
        ),
{
}

/// A reconfiguration with no field present writes back the record's bytes
/// unchanged.
pub proof fn lemma_empty_patch_is_noop(program_id: Seq<u8>, accts: Seq<AccountView>)
    requires
        modify_interface_result(
            program_id,
            accts,
            ModifyNFTInterfaceAccountArgs {
                token_price_per_nft: None,
                max_supply: None,
                total_supply: None,
                is_sealed: None,
            },
        ) is Ok,
    ensures
        modify_interface_result(
            program_id,
            accts,
            ModifyNFTInterfaceAccountArgs {
                token_price_per_nft: None,
                max_supply: None,
                total_supply: None,
                is_sealed: None,
            },
        ) == Ok::<_, ProcessError>(OutcomeView { actions: seq![], record_data: Some(accts[0].data) }),
{
    let data = accts[0].data;
    let rec = stored_interface(data);
    lemma_stored_interface(data);
    lemma_encode_interface_len(rec);
    assert(overwrite_interface(data, rec) =~= data);
}

/// A reconfiguration with only the cap present changes the cap alone: every
/// other field of the record, and the bytes after it, stay as they were.
pub proof fn lemma_cap_patch_changes_cap_only(program_id: Seq<u8>, accts: Seq<AccountView>, max_supply: u16)
    requires
        modify_interface_result(
            program_id,
            accts,
            ModifyNFTInterfaceAccountArgs {
                token_price_per_nft: None,
                max_supply: Some(max_supply),
                total_supply: None,
                is_sealed: None,
            },
        ) is Ok,
    ensures
        ({
            let before = stored_interface(accts[0].data);
            let out = modify_interface_result(
                program_id,
                accts,
                ModifyNFTInterfaceAccountArgs {
                    token_price_per_nft: None,
                    max_supply: Some(max_supply),
                    total_supply: None,
                    is_sealed: None,
                },
            )->Ok_0;
            &&& out.record_data matches Some(d)
            &&& d.len() == accts[0].data.len()
            &&& d.subrange(NFTACCOUNT_LENGTH as int, d.len() as int) == accts[0].data.subrange(
                NFTACCOUNT_LENGTH as int,
                d.len() as int,
            )
            &&& stored_interface(d) == NFTInterface { max_supply, ..before }
        }),
{
    let data = accts[0].data;
    let before = stored_interface(data);
    let after = NFTInterface { max_supply, ..before };
    lemma_overwrite_interface(data, after);
    lemma_encode_interface_len(after);
    let d = overwrite_interface(data, after);
    assert(d.subrange(NFTACCOUNT_LENGTH as int, d.len() as int) =~= data.subrange(
        NFTACCOUNT_LENGTH as int,
        d.len() as int,
    ));
}

/// Creation is not idempotent: once an interface record has been created,
/// creating it again over the same accounts, its storage now present, fails
/// because the storage is already in use.
pub proof fn lemma_create_twice_fails(
    program_id: Seq<u8>,
    accts: Seq<AccountView>,
    minimum_balances: MinimumBalances,
    token_price_per_nft: u64,
    max_supply: u16,
    is_sealed: u8,
    again: Seq<AccountView>,
    again_price: u64,
    again_max_supply: u16,
    again_sealed: u8,
)
    requires
        create_interface_result(
            program_id,
            accts,
            minimum_balances,
            token_price_per_nft,
            max_supply,
            is_sealed,
        ) matches Ok(out) && out.record_data matches Some(d) && again.len() == accts.len()
            && again[0].key == accts[0].key && again[0].data == d
            && again[3].key == accts[3].key,
    ensures
        create_interface_result(
            program_id,
            again,
            minimum_balances,
            again_price,
            again_max_supply,
            again_sealed,
        ) == Err::<OutcomeView, _>(ProcessError::AccountAlreadyInUse),
{
    let d = create_interface_result(
        program_id,
        accts,
        minimum_balances,
        token_price_per_nft,
        max_supply,
        is_sealed,
    )->Ok_0.record_data->Some_0;
    crate::state::lemma_new_record_len(token_price_per_nft, max_supply, accts[3].key, accts[1].key, is_sealed);
    assert(d.len() > 0);
}

} // verus!
