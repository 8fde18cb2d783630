use vstd::prelude::*;
use vstd::bytes::{spec_u16_from_le_bytes, spec_u64_from_le_bytes, u16_from_le_bytes, u64_from_le_bytes};
use vstd::slice::slice_subrange;
use crate::error::ProcessError;

verus! {

#[derive(Clone, Copy, Debug, PartialEq, Eq)]
pub struct CreateNFTInterfaceAccountArgs {
    pub token_price_per_nft: u64,
    pub max_supply: u16,
    pub is_sealed: u8,
}

/// A partial update: each present field replaces the record's field.
#[derive(Clone, Copy, Debug, PartialEq, Eq)]
pub struct ModifyNFTInterfaceAccountArgs {
    pub token_price_per_nft: Option<u64>,
    pub max_supply: Option<u16>,
    pub total_supply: Option<u16>,
    pub is_sealed: Option<u8>,
}

#[derive(Clone, Copy, Debug, PartialEq, Eq)]
pub struct MintNFTInterfaceAccountArgs {}

#[derive(Clone, Copy, Debug, PartialEq, Eq)]
pub struct GetFeeNftInterfaceAccountArgs {
    pub wanted_supply: Option<u64>,
}

#[derive(Clone, Copy, Debug, PartialEq, Eq)]
pub struct CreateWhitelistAccountArgs {
    pub is_sealed: u8,
}

#[derive(Clone, Copy, Debug, PartialEq, Eq)]
pub struct ModifyWhitelistAccountArgs {
    pub is_sealed: u8,
}

/// The six instructions, tagged by their position in this declaration.
#[derive(Clone, Copy, Debug, PartialEq, Eq)]
pub enum NFTInterfaceInstruction {
    CreateNFTInterfaceAccount(CreateNFTInterfaceAccountArgs),
    ModifyNFTInterfaceAccount(ModifyNFTInterfaceAccountArgs),
    MintNFTInterfaceAccount(MintNFTInterfaceAccountArgs),
    GetFeeNftInterfaceAccount(GetFeeNftInterfaceAccountArgs),
    CreateWhitelistAccount(CreateWhitelistAccountArgs),
    ModifyWhitelistAccount(ModifyWhitelistAccountArgs),
}

/// The little-endian `u64` at `s[i..i + 8]`.
pub open spec fn le_u64_at(s: Seq<u8>, i: int) -> u64 {
    spec_u64_from_le_bytes(s.subrange(i, i + 8))
}

/// The little-endian `u16` at `s[i..i + 2]`.
pub open spec fn le_u16_at(s: Seq<u8>, i: int) -> u16 {
    spec_u16_from_le_bytes(s.subrange(i, i + 2))
}

/// An optional `u64` at `i`: a zero tag byte for absent, a one byte then the
/// value for present. Gives the value and the position after it.
pub open spec fn opt_u64_at(s: Seq<u8>, i: int) -> Option<(Option<u64>, int)> {
    if i < 0 || i >= s.len() {
        None
    } else if s[i] == 0 {
        Some((None, i + 1))
    } else if s[i] == 1 && i + 9 <= s.len() {
        Some((Some(le_u64_at(s, i + 1)), i + 9))
    } else {
        None
    }
}

/// An optional `u16` at `i`, laid out as for `opt_u64_at`.
pub open spec fn opt_u16_at(s: Seq<u8>, i: int) -> Option<(Option<u16>, int)> {
    if i < 0 || i >= s.len() {
        None
    } else if s[i] == 0 {
        Some((None, i + 1))
    } else if s[i] == 1 && i + 3 <= s.len() {
        Some((Some(le_u16_at(s, i + 1)), i + 3))
    } else {
        None
    }
}

/// An optional byte at `i`, laid out as for `opt_u64_at`.
pub open spec fn opt_u8_at(s: Seq<u8>, i: int) -> Option<(Option<u8>, int)> {
    if i < 0 || i >= s.len() {
        None
    } else if s[i] == 0 {
        Some((None, i + 1))
    } else if s[i] == 1 && i + 2 <= s.len() {
        Some((Some(s[i + 1]), i + 2))
    } else {
        None
    }
}

/// The partial-update body starting at `i`, which must end the input.
pub open spec fn parse_modify_args(s: Seq<u8>, i: int) -> Option<ModifyNFTInterfaceAccountArgs> {
    match opt_u64_at(s, i) {
        None => None,
        Some((price, i1)) => match opt_u16_at(s, i1) {
            None => None,
            Some((max_supply, i2)) => match opt_u16_at(s, i2) {
                None => None,
                Some((total_supply, i3)) => match opt_u8_at(s, i3) {
                    None => None,
                    Some((is_sealed, i4)) => if i4 == s.len() {
                        Some(
                            ModifyNFTInterfaceAccountArgs {
                                token_price_per_nft: price,
                                max_supply,
                                total_supply,
                                is_sealed,
                            },
                        )
                    } else {
                        None
                    },
                },
            },
        },
    }
}

/// The instruction that the bytes encode: a tag byte, then the variant's
/// fields in order, with nothing left over.
pub open spec fn parse_instruction(s: Seq<u8>) -> Option<NFTInterfaceInstruction> {
    if s.len() == 0 {
        None
    } else if s[0] == 0 {
        if s.len() == 12 {
            Some(
                NFTInterfaceInstruction::CreateNFTInterfaceAccount(
                    CreateNFTInterfaceAccountArgs {
                        token_price_per_nft: le_u64_at(s, 1),
                        max_supply: le_u16_at(s, 9),
                        is_sealed: s[11],
                    },
                ),
            )
        } else {
            None
        }
    } else if s[0] == 1 {
        match parse_modify_args(s, 1) {
            Some(args) => Some(NFTInterfaceInstruction::ModifyNFTInterfaceAccount(args)),
            None => None,
        }
    } else if s[0] == 2 {
        if s.len() == 1 {
            Some(NFTInterfaceInstruction::MintNFTInterfaceAccount(MintNFTInterfaceAccountArgs {  }))
        } else {
            None
        }
    } else if s[0] == 3 {
        match opt_u64_at(s, 1) {
            Some((wanted_supply, end)) => if end == s.len() {
                Some(
                    NFTInterfaceInstruction::GetFeeNftInterfaceAccount(
                        GetFeeNftInterfaceAccountArgs { wanted_supply },
                    ),
                )
            } else {
                None
            },
            None => None,
        }
    } else if s[0] == 4 {
        if s.len() == 2 {
            Some(NFTInterfaceInstruction::CreateWhitelistAccount(CreateWhitelistAccountArgs { is_sealed: s[1] }))
        } else {
            None
        }
    } else if s[0] == 5 {
        if s.len() == 2 {
            Some(NFTInterfaceInstruction::ModifyWhitelistAccount(ModifyWhitelistAccountArgs { is_sealed: s[1] }))
        } else {
            None
        }
    } else {
        None
    }
}

fn read_u64(s: &[u8], i: usize) -> (r: u64)
    requires
        i + 8 <= s@.len(),
    ensures
        r == le_u64_at(s@, i as int),
{
    // `i + 8`, computed from the slice's length so that it cannot overflow
    let len: usize = s.len();
    let end: usize = len - (len - i - 8);
    u64_from_le_bytes(slice_subrange(s, i, end))
}

fn read_u16(s: &[u8], i: usize) -> (r: u16)
    requires
        i + 2 <= s@.len(),
    ensures
        r == le_u16_at(s@, i as int),
{
    // `i + 2`, computed from the slice's length so that it cannot overflow
    let len: usize = s.len();
    let end: usize = len - (len - i - 2);
    u16_from_le_bytes(slice_subrange(s, i, end))
}

fn read_opt_u64(s: &[u8], i: usize) -> (r: Option<(Option<u64>, usize)>)
    requires
        i <= s@.len(),
    ensures
        r is None <==> opt_u64_at(s@, i as int) is None,
        r matches Some((v, e)) ==> e <= s@.len() && opt_u64_at(s@, i as int) == Some((v, e as int)),
{
    if i >= s.len() {
        None
    } else if s[i] == 0 {
        Some((None, i + 1))
    } else if s[i] == 1 && s.len() - i >= 9 {
        Some((Some(read_u64(s, i + 1)), i + 9))
    } else {
        None
    }
}

fn read_opt_u16(s: &[u8], i: usize) -> (r: Option<(Option<u16>, usize)>)
    requires
        i <= s@.len(),
    ensures
        r is None <==> opt_u16_at(s@, i as int) is None,
        r matches Some((v, e)) ==> e <= s@.len() && opt_u16_at(s@, i as int) == Some((v, e as int)),
{
    if i >= s.len() {
        None
    } else if s[i] == 0 {
        Some((None, i + 1))
    } else if s[i] == 1 && s.len() - i >= 3 {
        Some((Some(read_u16(s, i + 1)), i + 3))
    } else {
        None
    }
}

fn read_opt_u8(s: &[u8], i: usize) -> (r: Option<(Option<u8>, usize)>)
    requires
        i <= s@.len(),
    ensures
        r is None <==> opt_u8_at(s@, i as int) is None,
        r matches Some((v, e)) ==> e <= s@.len() && opt_u8_at(s@, i as int) == Some((v, e as int)),
{
    if i >= s.len() {
        None
    } else if s[i] == 0 {
        Some((None, i + 1))
    } else if s[i] == 1 && s.len() - i >= 2 {
        Some((Some(s[i + 1]), i + 2))
    } else {
        None
    }
}

fn read_modify_args(s: &[u8], i: usize) -> (r: Option<ModifyNFTInterfaceAccountArgs>)
    requires
        i <= s@.len(),
    ensures
        r == parse_modify_args(s@, i as int),
{
    let (price, i1) = match read_opt_u64(s, i) {
        Some(p) => p,
        None => return None,
    };
    let (max_supply, i2) = match read_opt_u16(s, i1) {
        Some(p) => p,
        None => return None,
    };
    let (total_supply, i3) = match read_opt_u16(s, i2) {
        Some(p) => p,
        None => return None,
    };
    let (is_sealed, i4) = match read_opt_u8(s, i3) {
        Some(p) => p,
        None => return None,
    };
    if i4 == s.len() {
        Some(ModifyNFTInterfaceAccountArgs { token_price_per_nft: price, max_supply, total_supply, is_sealed })
    } else {
        None
    }
}

impl NFTInterfaceInstruction {
    /// Decodes an instruction; fails unless the bytes are exactly one
    /// instruction's encoding.
    pub fn unpack(input: &[u8]) -> (r: Result<NFTInterfaceInstruction, ProcessError>)
        ensures
            match parse_instruction(input@) {
                Some(ix) => r == Ok::<_, ProcessError>(ix),
                None => r == Err::<NFTInterfaceInstruction, _>(ProcessError::InvalidInstructionData),
            },
    {
        let bad = Err(ProcessError::InvalidInstructionData);
        if input.len() == 0 {
            return bad;
        }
        let tag = input[0];
        if tag == 0 {
            if input.len() == 12 {
                Ok(
                    NFTInterfaceInstruction::CreateNFTInterfaceAccount(
                        CreateNFTInterfaceAccountArgs {
                            token_price_per_nft: read_u64(input, 1),
                            max_supply: read_u16(input, 9),
                            is_sealed: input[11],
                        },
                    ),
                )
            } else {
                bad
            }
        } else if tag == 1 {
            match read_modify_args(input, 1) {
                Some(args) => Ok(NFTInterfaceInstruction::ModifyNFTInterfaceAccount(args)),
                None => bad,
            }
        } else if tag == 2 {
            if input.len() == 1 {
                Ok(NFTInterfaceInstruction::MintNFTInterfaceAccount(MintNFTInterfaceAccountArgs {  }))
            } else {
                bad
            }
        } else if tag == 3 {
            match read_opt_u64(input, 1) {
                Some((wanted_supply, end)) => if end == input.len() {
                    Ok(
                        NFTInterfaceInstruction::GetFeeNftInterfaceAccount(
                            GetFeeNftInterfaceAccountArgs { wanted_supply },
                        ),
                    )
                } else {
                    bad
                },
                None => bad,
            }
        } else if tag == 4 {
            if input.len() == 2 {
                Ok(NFTInterfaceInstruction::CreateWhitelistAccount(CreateWhitelistAccountArgs { is_sealed: input[1] }))
            } else {
                bad
            }
        } else if tag == 5 {
            if input.len() == 2 {
                Ok(NFTInterfaceInstruction::ModifyWhitelistAccount(ModifyWhitelistAccountArgs { is_sealed: input[1] }))
            } else {
                bad
            }
        } else {
            bad
        }
    }
}

} // verus!
