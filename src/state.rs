use vstd::prelude::*;
use vstd::bytes::{
    spec_u16_from_le_bytes, spec_u16_to_le_bytes, spec_u64_from_le_bytes, spec_u64_to_le_bytes,
    u16_from_le_bytes, u16_to_le_bytes, u64_from_le_bytes, u64_to_le_bytes,
    lemma_auto_spec_u16_to_from_le_bytes, lemma_auto_spec_u64_to_from_le_bytes,
};
use vstd::slice::slice_subrange;

verus! {

/// Namespace under which interface record addresses are derived.
pub const NFTINTERFACEPREFIX: &'static str = "nftinterface";

/// Stored size of an interface record: price, two counters, two keys, flag.
pub const NFTACCOUNT_LENGTH: usize = 8 + 2 + 2 + 32 + 32 + 1;

/// Namespace under which whitelist record addresses are derived.
pub const WHITELISTPREFIX: &'static str = "whitelist";

/// Stored size of a whitelist record: its flag.
pub const WHITELISTACCOUNT_LENGTH: usize = 1;

/// A 32-byte account identity.
#[derive(Clone, Copy, Debug, PartialEq, Eq)]
pub struct Key {
    pub bytes: [u8; 32],
}

impl View for Key {
    type V = Seq<u8>;

    open spec fn view(&self) -> Seq<u8> {
        self.bytes@
    }
}

impl Key {
    pub fn new(bytes: [u8; 32]) -> (r: Key)
        ensures
            r.bytes == bytes,
    {
        Key { bytes }
    }

    /// Whether two keys are the same identity.
    pub fn key_eq(&self, other: &Key) -> (r: bool)
        ensures
            r == (self@ == other@),
    {
        let mut i: usize = 0;
        while i < 32
            invariant
                i <= 32,
                self@.len() == 32,
                other@.len() == 32,
                forall|j: int| 0 <= j < i ==> self@[j] == other@[j],
            decreases 32 - i,
        {
            if self.bytes[i] != other.bytes[i] {
                return false;
            }
            i = i + 1;
        }
        assert(self@ =~= other@);
        true
    }

    /// The key's bytes in a vector.
    pub fn to_vec(&self) -> (r: Vec<u8>)
        ensures
            r@ == self@,
            r@.len() == 32,
    {
        let mut r: Vec<u8> = Vec::new();
        let mut i: usize = 0;
        while i < 32
            invariant
                i <= 32,
                self@.len() == 32,
                r@ == self@.subrange(0, i as int),
            decreases 32 - i,
        {
            r.push(self.bytes[i]);
            i = i + 1;
        }
        assert(r@ =~= self@);
        r
    }

    /// The key held in `data[at..at + 32]`, for an offset within a record.
    pub fn read_at(data: &[u8], at: usize) -> (r: Key)
        requires
            at + 32 <= data@.len(),
            at <= NFTACCOUNT_LENGTH,
        ensures
            r@ == data@.subrange(at as int, at + 32),
    {
        let mut bytes: [u8; 32] = [0u8; 32];
        let mut i: usize = 0;
        while i < 32
            invariant
                i <= 32,
                at + 32 <= data@.len(),
                at <= NFTACCOUNT_LENGTH,
                bytes@.len() == 32,
                forall|j: int| 0 <= j < i ==> bytes@[j] == data@[at + j],
            decreases 32 - i,
        {
            bytes[i] = data[at + i];
            i = i + 1;
        }
        let r = Key { bytes };
        assert(r@ =~= data@.subrange(at as int, at + 32));
        r
    }
}

/// The sellable-item record kept for one update authority.
#[derive(Clone, Copy, Debug, PartialEq, Eq)]
pub struct NFTInterface {
    pub token_price_per_nft: u64,
    pub max_supply: u16,
    pub total_supply: u16,
    pub update_authority_key: Key,
    pub fee_receiver_key: Key,
    pub is_sealed: u8,
}

/// The stored bytes of an interface record: little-endian integers, then the
/// two keys, then the flag.
pub open spec fn encode_interface(r: NFTInterface) -> Seq<u8> {
    encode_interface_fields(
        r.token_price_per_nft,
        r.max_supply,
        r.total_supply,
        r.update_authority_key@,
        r.fee_receiver_key@,
        r.is_sealed,
    )
}

/// A freshly written record with keys of 32 bytes takes exactly the
/// record's size.
pub proof fn lemma_new_record_len(
    token_price_per_nft: u64,
    max_supply: u16,
    update_authority_key: Seq<u8>,
    fee_receiver_key: Seq<u8>,
    is_sealed: u8,
)
    ensures
        encode_interface_fields(
            token_price_per_nft,
            max_supply,
            0,
            update_authority_key,
            fee_receiver_key,
            is_sealed,
        ).len() == 8 + 2 + 2 + update_authority_key.len() + fee_receiver_key.len() + 1,
{
    lemma_auto_spec_u16_to_from_le_bytes();
    lemma_auto_spec_u64_to_from_le_bytes();
}

/// The stored bytes of an interface record with the given fields.
pub open spec fn encode_interface_fields(
    token_price_per_nft: u64,
    max_supply: u16,
    total_supply: u16,
    update_authority_key: Seq<u8>,
    fee_receiver_key: Seq<u8>,
    is_sealed: u8,
) -> Seq<u8> {
    spec_u64_to_le_bytes(token_price_per_nft) + spec_u16_to_le_bytes(max_supply) + spec_u16_to_le_bytes(
        total_supply,
    ) + update_authority_key + fee_receiver_key + seq![is_sealed]
}

/// `data` begins with the stored bytes of `r`.
pub open spec fn holds_interface(data: Seq<u8>, r: NFTInterface) -> bool {
    data.len() >= NFTACCOUNT_LENGTH && data.subrange(0, NFTACCOUNT_LENGTH as int)
        == encode_interface(r)
}

/// The interface record stored at the start of `data`.
pub open spec fn stored_interface(data: Seq<u8>) -> NFTInterface {
    choose|r: NFTInterface| holds_interface(data, r)
}

spec fn array_of_prefix(s: Seq<u8>, n: nat) -> [u8; 32]
    decreases n,
{
    if n == 0 {
        vstd::array::spec_array_fill_for_copy_type::<u8, 32>(0)
    } else {
        vstd::array::spec_array_update(array_of_prefix(s, (n - 1) as nat), n - 1, s[n - 1])
    }
}

proof fn lemma_array_of_prefix(s: Seq<u8>, n: nat)
    requires
        n <= 32,
        s.len() >= 32,
    ensures
        array_of_prefix(s, n)@.len() == 32,
        forall|i: int| 0 <= i < n ==> array_of_prefix(s, n)@[i] == s[i],
    decreases n,
{
    broadcast use vstd::array::group_array_axioms;

    if n > 0 {
        lemma_array_of_prefix(s, (n - 1) as nat);
    }
}

/// Any 32 bytes are the bytes of a key.
pub proof fn lemma_key_of_bytes(s: Seq<u8>) -> (k: Key)
    requires
        s.len() == 32,
    ensures
        k@ == s,
{
    lemma_array_of_prefix(s, 32);
    let k = Key { bytes: array_of_prefix(s, 32) };
    assert(k@ =~= s);
    k
}

/// Any data of at least a record's size holds a record, and holds exactly
/// the record that `stored_interface` names.
pub proof fn lemma_stored_interface(data: Seq<u8>)
    requires
        data.len() >= NFTACCOUNT_LENGTH,
    ensures
        holds_interface(data, stored_interface(data)),
        forall|r: NFTInterface| holds_interface(data, r) ==> r == stored_interface(data),
{
    lemma_auto_spec_u16_to_from_le_bytes();
    lemma_auto_spec_u64_to_from_le_bytes();
    let rec = NFTInterface {
        token_price_per_nft: spec_u64_from_le_bytes(data.subrange(0, 8)),
        max_supply: spec_u16_from_le_bytes(data.subrange(8, 10)),
        total_supply: spec_u16_from_le_bytes(data.subrange(10, 12)),
        update_authority_key: lemma_key_of_bytes(data.subrange(12, 44)),
        fee_receiver_key: lemma_key_of_bytes(data.subrange(44, 76)),
        is_sealed: data[76],
    };
    assert(spec_u64_to_le_bytes(spec_u64_from_le_bytes(data.subrange(0, 8))) == data.subrange(0, 8));
    assert(spec_u16_to_le_bytes(spec_u16_from_le_bytes(data.subrange(8, 10))) == data.subrange(8, 10));
    assert(spec_u16_to_le_bytes(spec_u16_from_le_bytes(data.subrange(10, 12))) == data.subrange(10, 12));
    assert(data.subrange(0, 77) =~= encode_interface(rec));
    assert(holds_interface(data, rec));
    assert forall|r: NFTInterface| holds_interface(data, r) implies r == stored_interface(data) by {
        lemma_encode_interface_injective(r, stored_interface(data));
    }
}

/// Writing a record over data of at least a record's size leaves data that
/// holds that record, followed by the old trailing bytes.
pub proof fn lemma_overwrite_interface(data: Seq<u8>, r: NFTInterface)
    requires
        data.len() >= NFTACCOUNT_LENGTH,
    ensures
        holds_interface(overwrite_interface(data, r), r),
        stored_interface(overwrite_interface(data, r)) == r,
        overwrite_interface(data, r).len() == data.len(),
{
    lemma_encode_interface_len(r);
    let d = overwrite_interface(data, r);
    assert(d.subrange(0, NFTACCOUNT_LENGTH as int) =~= encode_interface(r));
    lemma_stored_interface(d);
}

/// `data` with its first record-sized bytes replaced by the stored bytes of `r`.
pub open spec fn overwrite_interface(data: Seq<u8>, r: NFTInterface) -> Seq<u8> {
    encode_interface(r) + data.subrange(NFTACCOUNT_LENGTH as int, data.len() as int)
}

pub proof fn lemma_encode_interface_len(r: NFTInterface)
    ensures
        encode_interface(r).len() == NFTACCOUNT_LENGTH,
{
    lemma_auto_spec_u16_to_from_le_bytes();
    lemma_auto_spec_u64_to_from_le_bytes();
}

/// The stored bytes of an interface record determine the record: two records
/// with the same bytes are the same record.
pub proof fn lemma_encode_interface_injective(a: NFTInterface, b: NFTInterface)
    requires
        encode_interface(a) == encode_interface(b),
    ensures
        a == b,
{
    lemma_auto_spec_u16_to_from_le_bytes();
    lemma_auto_spec_u64_to_from_le_bytes();
    let ea = encode_interface(a);
    let eb = encode_interface(b);
    assert(ea.subrange(0, 8) =~= spec_u64_to_le_bytes(a.token_price_per_nft));
    assert(eb.subrange(0, 8) =~= spec_u64_to_le_bytes(b.token_price_per_nft));
    assert(ea.subrange(8, 10) =~= spec_u16_to_le_bytes(a.max_supply));
    assert(eb.subrange(8, 10) =~= spec_u16_to_le_bytes(b.max_supply));
    assert(ea.subrange(10, 12) =~= spec_u16_to_le_bytes(a.total_supply));
    assert(eb.subrange(10, 12) =~= spec_u16_to_le_bytes(b.total_supply));
    assert(ea.subrange(12, 44) =~= a.update_authority_key@);
    assert(eb.subrange(12, 44) =~= b.update_authority_key@);
    assert(ea.subrange(44, 76) =~= a.fee_receiver_key@);
    assert(eb.subrange(44, 76) =~= b.fee_receiver_key@);
    assert(ea[76] == a.is_sealed);
    lemma_key_view_injective(a.update_authority_key, b.update_authority_key);
    lemma_key_view_injective(a.fee_receiver_key, b.fee_receiver_key);
}

/// Two keys with the same bytes are the same key.
pub proof fn lemma_key_view_injective(a: Key, b: Key)
    requires
        a@ == b@,
    ensures
        a == b,
{
    broadcast use vstd::array::group_array_axioms;

    assert forall|i: int| 0 <= i < 32 implies a.bytes[i] == b.bytes[i] by {
        vstd::array::lemma_array_index(a.bytes, i);
        vstd::array::lemma_array_index(b.bytes, i);
    }
    assert(a.bytes =~= b.bytes);
}

impl NFTInterface {
    /// The record's stored bytes.
    pub fn to_bytes(&self) -> (r: Vec<u8>)
        ensures
            r@ == encode_interface(*self),
    {
        let mut r = u64_to_le_bytes(self.token_price_per_nft);
        let mut a = u16_to_le_bytes(self.max_supply);
        r.append(&mut a);
        let mut b = u16_to_le_bytes(self.total_supply);
        r.append(&mut b);
        let mut c = self.update_authority_key.to_vec();
        r.append(&mut c);
        let mut d = self.fee_receiver_key.to_vec();
        r.append(&mut d);
        r.push(self.is_sealed);
        r
    }

    /// Reads the record stored at the start of an account's data. Trailing
    /// bytes are ignored, and all-zero data reads as the all-zero record.
    pub fn from_account_data(data: &[u8]) -> (r: Result<NFTInterface, crate::error::ProcessError>)
        ensures
            data@.len() < NFTACCOUNT_LENGTH <==> r is Err,
            r is Err ==> r == Err::<NFTInterface, _>(crate::error::ProcessError::InvalidAccountData),
            r matches Ok(rec) ==> holds_interface(data@, rec) && rec == stored_interface(data@),
    {
        if data.len() < NFTACCOUNT_LENGTH {
            return Err(crate::error::ProcessError::InvalidAccountData);
        }
        proof {
            lemma_auto_spec_u16_to_from_le_bytes();
            lemma_auto_spec_u64_to_from_le_bytes();
        }
        let price = u64_from_le_bytes(slice_subrange(data, 0, 8));
        let max_supply = u16_from_le_bytes(slice_subrange(data, 8, 10));
        let total_supply = u16_from_le_bytes(slice_subrange(data, 10, 12));
        let update_authority_key = Key::read_at(data, 12);
        let fee_receiver_key = Key::read_at(data, 44);
        let is_sealed = data[76];
        let rec = NFTInterface {
            token_price_per_nft: price,
            max_supply,
            total_supply,
            update_authority_key,
            fee_receiver_key,
            is_sealed,
        };
        proof {
            let d = data@;
            assert(spec_u64_to_le_bytes(spec_u64_from_le_bytes(d.subrange(0, 8))) == d.subrange(0, 8));
            assert(spec_u16_to_le_bytes(spec_u16_from_le_bytes(d.subrange(8, 10))) == d.subrange(8, 10));
            assert(spec_u16_to_le_bytes(spec_u16_from_le_bytes(d.subrange(10, 12))) == d.subrange(10, 12));
            assert(d.subrange(0, 77) =~= encode_interface(rec));
            assert(holds_interface(d, rec));
            let other = stored_interface(d);
            lemma_encode_interface_injective(other, rec);
        }
        Ok(rec)
    }

    /// `data` with the record written over its first record-sized bytes.
    pub fn write_into(&self, data: &[u8]) -> (r: Vec<u8>)
        requires
            data@.len() >= NFTACCOUNT_LENGTH,
        ensures
            r@ == overwrite_interface(data@, *self),
            r@.len() == data@.len(),
            holds_interface(r@, *self),
    {
        let mut r = self.to_bytes();
        let mut i: usize = NFTACCOUNT_LENGTH;
        proof {
            lemma_encode_interface_len(*self);
        }
        while i < data.len()
            invariant
                NFTACCOUNT_LENGTH <= i <= data@.len(),
                r@ == encode_interface(*self) + data@.subrange(NFTACCOUNT_LENGTH as int, i as int),
            decreases data@.len() - i,
        {
            r.push(data[i]);
            proof {
                assert(data@.subrange(NFTACCOUNT_LENGTH as int, i + 1) =~= data@.subrange(
                    NFTACCOUNT_LENGTH as int,
                    i as int,
                ).push(data@[i as int]));
            }
            i = i + 1;
            assert(r@ =~= encode_interface(*self) + data@.subrange(NFTACCOUNT_LENGTH as int, i as int));
        }
        assert(r@.subrange(0, NFTACCOUNT_LENGTH as int) =~= encode_interface(*self));
        r
    }
}

/// The record gating who may interact with an authority's interface.
#[derive(Clone, Copy, Debug, PartialEq, Eq, Structural)]
pub struct Whitelist {
    pub is_sealed: u8,
}

/// `data` with its first byte set to the whitelist flag.
pub open spec fn overwrite_whitelist(data: Seq<u8>, w: Whitelist) -> Seq<u8> {
    data.update(0, w.is_sealed)
}

impl Whitelist {
    /// The record's stored bytes.
    pub fn to_bytes(&self) -> (r: Vec<u8>)
        ensures
            r@ == seq![self.is_sealed],
    {
        let mut r: Vec<u8> = Vec::new();
        r.push(self.is_sealed);
        assert(r@ =~= seq![self.is_sealed]);
        r
    }

    /// Reads the record stored at the start of an account's data.
    pub fn from_account_data(data: &[u8]) -> (r: Result<Whitelist, crate::error::ProcessError>)
        ensures
            data@.len() < WHITELISTACCOUNT_LENGTH ==> r == Err::<Whitelist, _>(
                crate::error::ProcessError::InvalidAccountData,
            ),
            data@.len() >= WHITELISTACCOUNT_LENGTH ==> r == Ok::<_, crate::error::ProcessError>(
                Whitelist { is_sealed: data@[0] },
            ),
    {
        if data.len() < WHITELISTACCOUNT_LENGTH {
            return Err(crate::error::ProcessError::InvalidAccountData);
        }
        Ok(Whitelist { is_sealed: data[0] })
    }

    /// `data` with the record written over its first byte.
    pub fn write_into(&self, data: &[u8]) -> (r: Vec<u8>)
        requires
            data@.len() >= WHITELISTACCOUNT_LENGTH,
        ensures
            r@ == overwrite_whitelist(data@, *self),
    {
        let mut r: Vec<u8> = vstd::slice::slice_to_vec(data);
        r.set(0, self.is_sealed);
        r
    }
}

} // verus!
