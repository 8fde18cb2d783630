use vstd::prelude::*;
use vstd::string::{StrSliceExecFns, StringSliceAdditionalSpecFns};
use crate::state::{Key, NFTINTERFACEPREFIX, WHITELISTPREFIX};
use solana_program::pubkey::Pubkey;

verus! {

/// The program-derived address and bump seed that the host's derivation
/// yields for the given seeds under the given program.
pub uninterp spec fn program_address_of(seeds: Seq<Seq<u8>>, program_id: Seq<u8>) -> (Seq<u8>, u8);

/// Relies on `Pubkey::find_program_address` of solana_program: it hashes the
/// seeds and program id, searching bump seeds downward from 255, so the result
/// is a function of the seeds and program id alone. It panics on more than 16
/// seeds (the bump included) or on a seed over 32 bytes.
#[verifier::external_body]
fn find_program_address(seeds: &Vec<Vec<u8>>, program_id: &Key) -> (r: (Key, u8))
    requires
        seeds@.len() <= 15,
        forall|i: int| 0 <= i < seeds@.len() ==> seeds@[i]@.len() <= 32,
    ensures
        (r.0@, r.1) == program_address_of(seeds.deep_view(), program_id@),
{
    let refs: Vec<&[u8]> = seeds.iter().map(|s| s.as_slice()).collect();
    let (address, bump) = Pubkey::find_program_address(&refs, &Pubkey::new_from_array(program_id.bytes));
    (Key::new(address.to_bytes()), bump)
}

/// The seeds of the interface record of `authority`.
pub open spec fn interface_seeds(program_id: Seq<u8>, authority: Seq<u8>) -> Seq<Seq<u8>> {
    seq![NFTINTERFACEPREFIX.spec_bytes(), program_id, authority]
}

/// The seeds of the whitelist record of `authority` for `target`.
pub open spec fn whitelist_seeds(program_id: Seq<u8>, authority: Seq<u8>, target: Seq<u8>) -> Seq<Seq<u8>> {
    seq![WHITELISTPREFIX.spec_bytes(), program_id, authority, target]
}

/// Address and bump of the interface record of `authority`.
pub open spec fn interface_address(program_id: Seq<u8>, authority: Seq<u8>) -> (Seq<u8>, u8) {
    program_address_of(interface_seeds(program_id, authority), program_id)
}

/// Address and bump of the whitelist record of `authority` for `target`.
pub open spec fn whitelist_address(program_id: Seq<u8>, authority: Seq<u8>, target: Seq<u8>) -> (Seq<u8>, u8) {
    program_address_of(whitelist_seeds(program_id, authority, target), program_id)
}

/// The seeds that sign for a derived account: its derivation seeds and the bump.
pub open spec fn signer_seeds_of(seeds: Seq<Seq<u8>>, bump: u8) -> Seq<Seq<u8>> {
    seeds.push(seq![bump])
}

fn prefix_bytes(prefix: &str) -> (r: Vec<u8>)
    requires
        prefix == NFTINTERFACEPREFIX || prefix == WHITELISTPREFIX,
    ensures
        r@ == prefix.spec_bytes(),
        r@.len() <= 32,
{
    proof {
        reveal_strlit("nftinterface");
        reveal_strlit("whitelist");
        broadcast use vstd::string::is_ascii_spec_bytes;
        assert(vstd::string::is_ascii(prefix));
    }
    prefix.as_bytes_vec()
}

proof fn lemma_seeds_deep_view(seeds: Vec<Vec<u8>>)
    ensures
        seeds.deep_view().len() == seeds@.len(),
        forall|i: int| 0 <= i < seeds@.len() ==> #[trigger] seeds.deep_view()[i] == seeds@[i]@,
{
    assert forall|i: int| 0 <= i < seeds@.len() implies #[trigger] seeds.deep_view()[i] == seeds@[i]@ by {
        assert(seeds@[i].deep_view() =~= seeds@[i]@);
    }
}

/// The seeds of the interface record of `authority`, as bytes.
pub fn interface_seed_bytes(program_id: &Key, authority: &Key) -> (r: Vec<Vec<u8>>)
    ensures
        r.deep_view() == interface_seeds(program_id@, authority@),
        r@.len() == 3,
        forall|i: int| 0 <= i < r@.len() ==> r@[i]@.len() <= 32,
{
    let mut r: Vec<Vec<u8>> = Vec::new();
    r.push(prefix_bytes(NFTINTERFACEPREFIX));
    r.push(program_id.to_vec());
    r.push(authority.to_vec());
    proof {
        lemma_seeds_deep_view(r);
    }
    assert(r.deep_view() =~= interface_seeds(program_id@, authority@));
    r
}

/// The seeds of the whitelist record of `authority` for `target`, as bytes.
pub fn whitelist_seed_bytes(program_id: &Key, authority: &Key, target: &Key) -> (r: Vec<Vec<u8>>)
    ensures
        r.deep_view() == whitelist_seeds(program_id@, authority@, target@),
        r@.len() == 4,
        forall|i: int| 0 <= i < r@.len() ==> r@[i]@.len() <= 32,
{
    let mut r: Vec<Vec<u8>> = Vec::new();
    r.push(prefix_bytes(WHITELISTPREFIX));
    r.push(program_id.to_vec());
    r.push(authority.to_vec());
    r.push(target.to_vec());
    proof {
        lemma_seeds_deep_view(r);
    }
    assert(r.deep_view() =~= whitelist_seeds(program_id@, authority@, target@));
    r
}

/// Derives the address and bump of the interface record of `authority`.
pub fn derive_interface_address(program_id: &Key, authority: &Key) -> (r: (Key, u8))
    ensures
        (r.0@, r.1) == interface_address(program_id@, authority@),
{
    let seeds = interface_seed_bytes(program_id, authority);
    find_program_address(&seeds, program_id)
}

/// Derives the address and bump of the whitelist record of `authority` for
/// `target`.
pub fn derive_whitelist_address(program_id: &Key, authority: &Key, target: &Key) -> (r: (Key, u8))
    ensures
        (r.0@, r.1) == whitelist_address(program_id@, authority@, target@),
{
    let seeds = whitelist_seed_bytes(program_id, authority, target);
    find_program_address(&seeds, program_id)
}

/// `seeds` followed by the one-byte bump seed.
pub fn with_bump(seeds: Vec<Vec<u8>>, bump: u8) -> (r: Vec<Vec<u8>>)
    ensures
        r.deep_view() == signer_seeds_of(seeds.deep_view(), bump),
{
    let mut r = seeds;
    let mut b: Vec<u8> = Vec::new();
    b.push(bump);
    assert(b@ =~= seq![bump]);
    r.push(b);
    proof {
        lemma_seeds_deep_view(r);
        lemma_seeds_deep_view(seeds);
    }
    assert(r.deep_view() =~= signer_seeds_of(seeds.deep_view(), bump));
    r
}

/// Derivation is deterministic: the same program and authority always give
/// the same interface address and bump, and the same program, authority and
/// target always give the same whitelist address and bump.
pub proof fn lemma_derive_deterministic(
    program_a: Key,
    authority_a: Key,
    target_a: Key,
    program_b: Key,
    authority_b: Key,
    target_b: Key,
)
    requires
        program_a@ == program_b@,
        authority_a@ == authority_b@,
        target_a@ == target_b@,
    ensures
        interface_address(program_a@, authority_a@) == interface_address(program_b@, authority_b@),
        whitelist_address(program_a@, authority_a@, target_a@) == whitelist_address(
            program_b@,
            authority_b@,
            target_b@,
        ),
{
}

} // verus!
