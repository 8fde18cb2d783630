use vstd::prelude::*;
use crate::error::{NFTInterfaceError, ProcessError};
use crate::ledger::{AccountState, AccountView, ActionView, LedgerAction, actions_view};
use crate::state::Key;

verus! {

/// The balance still missing for an account holding `lamports` to reach the
/// rent-exempt `minimum_balance`, counting a minimum of zero as one.
pub open spec fn shortfall(minimum_balance: u64, lamports: u64) -> u64 {
    let need: u64 = if minimum_balance > 1 { minimum_balance } else { 1 };
    if need > lamports {
        (need - lamports) as u64
    } else {
        0
    }
}

/// The operations that bring `new_account` into existence with `size` bytes
/// owned by `program_id`: top it up from `payer` where it is short, then
/// allocate and assign it, signed by `signer_seeds`.
pub open spec fn provisioning_actions(
    program_id: Seq<u8>,
    new_account: AccountView,
    payer: AccountView,
    size: u64,
    minimum_balance: u64,
    signer_seeds: Seq<Seq<u8>>,
) -> Seq<ActionView> {
    let required = shortfall(minimum_balance, new_account.lamports);
    let setup = seq![
        ActionView::Allocate { account: new_account.key, space: size, signer_seeds },
        ActionView::Assign { account: new_account.key, owner: program_id, signer_seeds },
    ];
    if required > 0 {
        seq![ActionView::Transfer { from: payer.key, to: new_account.key, lamports: required }] + setup
    } else {
        setup
    }
}

/// Provisioning fails where the account already holds data: allocation
/// requires an account without storage.
pub open spec fn provisioning_result(
    program_id: Seq<u8>,
    new_account: AccountView,
    payer: AccountView,
    size: u64,
    minimum_balance: u64,
    signer_seeds: Seq<Seq<u8>>,
) -> Result<Seq<ActionView>, ProcessError> {
    if new_account.data.len() != 0 {
        Err(ProcessError::AccountAlreadyInUse)
    } else {
        Ok(provisioning_actions(program_id, new_account, payer, size, minimum_balance, signer_seeds))
    }
}

/// An independent copy of a list of seeds.
pub fn clone_seeds(seeds: &Vec<Vec<u8>>) -> (r: Vec<Vec<u8>>)
    ensures
        r.deep_view() == seeds.deep_view(),
{
    let mut r: Vec<Vec<u8>> = Vec::new();
    let mut i: usize = 0;
    while i < seeds.len()
        invariant
            i <= seeds@.len(),
            r@.len() == i,
            forall|j: int| 0 <= j < i ==> #[trigger] r@[j]@ == seeds@[j]@,
        decreases seeds@.len() - i,
    {
        let s: Vec<u8> = vstd::slice::slice_to_vec(seeds[i].as_slice());
        r.push(s);
        i = i + 1;
    }
    proof {
        assert forall|j: int| 0 <= j < r@.len() implies #[trigger] r.deep_view()[j] == seeds.deep_view()[j] by {
            assert(r@[j].deep_view() =~= r@[j]@);
            assert(seeds@[j].deep_view() =~= seeds@[j]@);
        }
    }
    assert(r.deep_view() =~= seeds.deep_view());
    r
}

/// The ledger operations that bring a derived account into existence: the
/// rent top-up from `payer` where needed, allocation of `size` zeroed bytes,
/// and assignment to `program_id`, the last two signed by `signer_seeds`.
/// The host performs them in one transaction, which aborts as a whole if any
/// fails.
pub fn create_or_allocate_account_raw(
    program_id: &Key,
    new_account_info: &AccountState,
    payer_info: &AccountState,
    size: usize,
    minimum_balance: u64,
    signer_seeds: Vec<Vec<u8>>,
) -> (r: Result<Vec<LedgerAction>, ProcessError>)
    ensures
        match r {
            Ok(actions) => provisioning_result(
                program_id@,
                new_account_info@,
                payer_info@,
                size as u64,
                minimum_balance,
                signer_seeds.deep_view(),
            ) == Ok::<_, ProcessError>(actions_view(actions@)),
            Err(e) => provisioning_result(
                program_id@,
                new_account_info@,
                payer_info@,
                size as u64,
                minimum_balance,
                signer_seeds.deep_view(),
            ) == Err::<Seq<ActionView>, _>(e),
        },
{
    if new_account_info.data.len() != 0 {
        return Err(ProcessError::AccountAlreadyInUse);
    }
    let need: u64 = if minimum_balance > 1 { minimum_balance } else { 1 };
    let required: u64 = if need > new_account_info.lamports {
        need - new_account_info.lamports
    } else {
        0
    };
    let mut actions: Vec<LedgerAction> = Vec::new();
    if required > 0 {
        actions.push(
            LedgerAction::Transfer { from: payer_info.key, to: new_account_info.key, lamports: required },
        );
    }
    let allocate_seeds = clone_seeds(&signer_seeds);
    actions.push(
        LedgerAction::Allocate { account: new_account_info.key, space: size as u64, signer_seeds: allocate_seeds },
    );
    let assign_seeds = clone_seeds(&signer_seeds);
    actions.push(LedgerAction::Assign { account: new_account_info.key, owner: *program_id, signer_seeds: assign_seeds });
    assert(actions_view(actions@) =~= provisioning_actions(
        program_id@,
        new_account_info@,
        payer_info@,
        size as u64,
        minimum_balance,
        signer_seeds.deep_view(),
    ));
    Ok(actions)
}

/// An identity that may be absent, as stored in a token mint's authority
/// field: a four-byte tag, then the key.
#[derive(Clone, Copy, Debug, PartialEq, Eq)]
pub enum OptionalKey {
    Absent,
    Present(Key),
}

/// The optional key stored in the 36 bytes at the start of `s`: tag 0 for
/// absent, tag 1 for present, both little-endian; any other tag is malformed.
pub open spec fn optional_key_at(s: Seq<u8>) -> Option<Option<Seq<u8>>> {
    if s.len() < 36 {
        None
    } else if s[0] == 0 && s[1] == 0 && s[2] == 0 && s[3] == 0 {
        Some(None)
    } else if s[0] == 1 && s[1] == 0 && s[2] == 0 && s[3] == 0 {
        Some(Some(s.subrange(4, 36)))
    } else {
        None
    }
}

pub open spec fn optional_key_view(k: OptionalKey) -> Option<Seq<u8>> {
    match k {
        OptionalKey::Absent => None,
        OptionalKey::Present(key) => Some(key@),
    }
}

fn unpack_coption_key(src: &[u8]) -> (r: Result<OptionalKey, ProcessError>)
    requires
        src@.len() >= 36,
    ensures
        match optional_key_at(src@) {
            Some(k) => r matches Ok(v) && optional_key_view(v) == k,
            None => r == Err::<OptionalKey, _>(ProcessError::InvalidAccountData),
        },
{
    if src[1] != 0 || src[2] != 0 || src[3] != 0 {
        Err(ProcessError::InvalidAccountData)
    } else if src[0] == 0 {
        Ok(OptionalKey::Absent)
    } else if src[0] == 1 {
        Ok(OptionalKey::Present(Key::read_at(src, 4)))
    } else {
        Err(ProcessError::InvalidAccountData)
    }
}

/// The mint authority recorded at the start of a token mint's data.
pub fn get_mint_authority(mint_data: &[u8]) -> (r: Result<OptionalKey, ProcessError>)
    ensures
        match optional_key_at(mint_data@) {
            Some(k) => r matches Ok(v) && optional_key_view(v) == k,
            None => r == Err::<OptionalKey, _>(ProcessError::InvalidAccountData),
        },
{
    if mint_data.len() < 36 {
        return Err(ProcessError::InvalidAccountData);
    }
    unpack_coption_key(mint_data)
}

/// Checks that `mint_authority_info` is the recorded mint authority and has
/// signed.
pub fn assert_mint_authority_matches_mint(
    mint_authority: &OptionalKey,
    mint_authority_info: &AccountState,
) -> (r: Result<(), ProcessError>)
    ensures
        optional_key_view(*mint_authority) != Some(mint_authority_info.key@) ==> r == Err::<(), _>(
            ProcessError::Custom(NFTInterfaceError::InvalidMintAuthority),
        ),
        optional_key_view(*mint_authority) == Some(mint_authority_info.key@)
            && !mint_authority_info.is_signer ==> r == Err::<(), _>(
            ProcessError::Custom(NFTInterfaceError::NotMintAuthority),
        ),
        optional_key_view(*mint_authority) == Some(mint_authority_info.key@)
            && mint_authority_info.is_signer ==> r is Ok,
{
    match mint_authority {
        OptionalKey::Absent => {
            return Err(ProcessError::Custom(NFTInterfaceError::InvalidMintAuthority));
        },
        OptionalKey::Present(key) => {
            if !mint_authority_info.key.key_eq(key) {
                return Err(ProcessError::Custom(NFTInterfaceError::InvalidMintAuthority));
            }
        },
    }
    if !mint_authority_info.is_signer {
        return Err(ProcessError::Custom(NFTInterfaceError::NotMintAuthority));
    }
    Ok(())
}

/// Checks that `account` is owned by `owner`.
pub fn assert_owned_by(account: &AccountState, owner: &Key) -> (r: Result<(), ProcessError>)
    ensures
        account.owner@ == owner@ ==> r is Ok,
        account.owner@ != owner@ ==> r == Err::<(), _>(ProcessError::Custom(NFTInterfaceError::IncorrectOwner)),
{
    if !account.owner.key_eq(owner) {
        Err(ProcessError::Custom(NFTInterfaceError::IncorrectOwner))
    } else {
        Ok(())
    }
}

/// Whether `key` is the identity of the token program.
pub uninterp spec fn is_token_program_id(key: Seq<u8>) -> bool;

/// Relies on `spl_token::check_id`: true exactly when the key equals the
/// token program's fixed identity.
#[verifier::external_body]
fn is_token_program(key: &Key) -> (r: bool)
    ensures
        r == is_token_program_id(key@),
{
    spl_token::check_id(&spl_token::solana_program::pubkey::Pubkey::new_from_array(key.bytes))
}

/// Checks that the supplied account is the token program.
pub fn assert_token_program_matches_package(token_program_info: &AccountState) -> (r: Result<(), ProcessError>)
    ensures
        is_token_program_id(token_program_info.key@) ==> r is Ok,
        !is_token_program_id(token_program_info.key@) ==> r == Err::<(), _>(
            ProcessError::Custom(NFTInterfaceError::InvalidTokenProgram),
        ),
{
    if !is_token_program(&token_program_info.key) {
        return Err(ProcessError::Custom(NFTInterfaceError::InvalidTokenProgram));
    }
    Ok(())
}

} // verus!
