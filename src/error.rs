use vstd::prelude::*;

verus! {

/// The failure kinds a request can end with.
#[derive(Clone, Copy, Debug, PartialEq, Eq, Structural)]
pub enum ProgramError {
    /// An error code of the collaborating program that refused the step.
    Custom(u32),
    InvalidArgument,
    MissingRequiredSignature,
    InvalidInstructionData,
    InvalidAccountData,
    UninitializedAccount,
    IllegalOwner,
    IncorrectProgramId,
    NotEnoughAccountKeys,
    InvalidSeeds,
    ArithmeticOverflow,
    BorshIoError,
}

/// The system allocator's code for an address that already holds an account.
pub const ACCOUNT_ALREADY_IN_USE: u32 = 0;

/// The token ledger's code for a balance below the amount asked for.
pub const INSUFFICIENT_FUNDS: u32 = 1;

} // verus!
