//! Why an operation was refused.
use vstd::prelude::*;

verus! {

/// The escrow's own refusals, each with a stable numeric code.
#[derive(Clone, Copy, Debug, PartialEq, Eq, Structural)]
pub enum EscrowError {
    BadDeadline,
    UnknownId,
    TooLate,
    NotExpired,
    Unauthorized,
    NoSol,
    InvalidMint,
    TokenTransferFailed,
    InvalidTokenAccount,
}

pub open spec fn error_code(e: EscrowError) -> u32 {
    match e {
        EscrowError::BadDeadline => 0,
        EscrowError::UnknownId => 1,
        EscrowError::TooLate => 2,
        EscrowError::NotExpired => 3,
        EscrowError::Unauthorized => 4,
        EscrowError::NoSol => 5,
        EscrowError::InvalidMint => 6,
        EscrowError::TokenTransferFailed => 7,
        EscrowError::InvalidTokenAccount => 8,
    }
}

impl EscrowError {
    /// The code under which callers see this error.
    pub fn code(&self) -> (r: u32)
        ensures
            r == error_code(*self),
    {
        match self {
            EscrowError::BadDeadline => 0,
            EscrowError::UnknownId => 1,
            EscrowError::TooLate => 2,
            EscrowError::NotExpired => 3,
            EscrowError::Unauthorized => 4,
            EscrowError::NoSol => 5,
            EscrowError::InvalidMint => 6,
            EscrowError::TokenTransferFailed => 7,
            EscrowError::InvalidTokenAccount => 8,
        }
    }
}

/// Every refusal of an operation: the escrow's own, or one of the generic
/// refusals of the execution environment.
#[derive(Clone, Copy, Debug, PartialEq, Eq, Structural)]
pub enum ProcessError {
    Escrow(EscrowError),
    /// An account that must sign did not.
    MissingRequiredSignature,
    /// A supplied address is not the one derived from the other inputs.
    InvalidSeeds,
    /// A state account is not owned by this program.
    InvalidAccountOwner,
    /// The request bytes name no operation or are malformed.
    InvalidInstructionData,
    /// A state account does not hold a record of the expected layout.
    InvalidAccountData,
    /// Fewer accounts were supplied than the operation reads.
    NotEnoughAccountKeys,
    /// The funds of a box would be released to the box itself.
    RecipientIsBox,
    /// The account to create holds a record or data already.
    AccountAlreadyInitialized,
    /// The deadline would not be a positive instant within the clock's range.
    ArithmeticOverflow,
}

} // verus!
