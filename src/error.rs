use vstd::prelude::*;

verus! {

/// Failures specific to the interface program, each surfaced to the caller
/// under its own code.
#[derive(Clone, Copy, Debug, PartialEq, Eq, Structural)]
pub enum NFTInterfaceError {
    InvalidNFTAccountKey,
    InvalidFeeReceiverAccountKey,
    InvalidMintAuthority,
    NotMintAuthority,
    IncorrectOwner,
    InvalidTokenProgram,
    Uninitialized,
    NotEnoughSOL,
    NotSealed,
    ExceedMaxSupply,
    InvalidWhitelistAccountKey,
}

/// The numeric code of each error: its position in the declaration.
pub open spec fn error_code(e: NFTInterfaceError) -> u32 {
    match e {
        NFTInterfaceError::InvalidNFTAccountKey => 0,
        NFTInterfaceError::InvalidFeeReceiverAccountKey => 1,
        NFTInterfaceError::InvalidMintAuthority => 2,
        NFTInterfaceError::NotMintAuthority => 3,
        NFTInterfaceError::IncorrectOwner => 4,
        NFTInterfaceError::InvalidTokenProgram => 5,
        NFTInterfaceError::Uninitialized => 6,
        NFTInterfaceError::NotEnoughSOL => 7,
        NFTInterfaceError::NotSealed => 8,
        NFTInterfaceError::ExceedMaxSupply => 9,
        NFTInterfaceError::InvalidWhitelistAccountKey => 10,
    }
}

impl NFTInterfaceError {
    /// The custom error code under which the host reports this error.
    pub fn code(&self) -> (r: u32)
        ensures
            r == error_code(*self),
    {
        match self {
            NFTInterfaceError::InvalidNFTAccountKey => 0,
            NFTInterfaceError::InvalidFeeReceiverAccountKey => 1,
            NFTInterfaceError::InvalidMintAuthority => 2,
            NFTInterfaceError::NotMintAuthority => 3,
            NFTInterfaceError::IncorrectOwner => 4,
            NFTInterfaceError::InvalidTokenProgram => 5,
            NFTInterfaceError::Uninitialized => 6,
            NFTInterfaceError::NotEnoughSOL => 7,
            NFTInterfaceError::NotSealed => 8,
            NFTInterfaceError::ExceedMaxSupply => 9,
            NFTInterfaceError::InvalidWhitelistAccountKey => 10,
        }
    }
}

/// Every way an instruction can fail: the program's own errors and the
/// generic failures of account handling and decoding.
#[derive(Clone, Copy, Debug, PartialEq, Eq, Structural)]
pub enum ProcessError {
    Custom(NFTInterfaceError),
    /// Fewer accounts were supplied than the instruction reads.
    NotEnoughAccountKeys,
    /// The instruction bytes do not decode.
    InvalidInstructionData,
    /// An account's data is too short for the record it should hold.
    InvalidAccountData,
    /// Storage was to be allocated at an account that already holds data.
    AccountAlreadyInUse,
}

} // verus!
