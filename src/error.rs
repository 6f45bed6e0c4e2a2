use vstd::prelude::*;

verus! {

/// Every way in which an instruction can fail. Each failure is terminal for
/// the invocation and leaves every account as it was.
#[derive(Clone, Copy, Debug, PartialEq, Eq, Structural)]
pub enum TokenError {
    /// Unknown tag, empty buffer or truncated payload.
    MalformedInstruction,
    /// The account list does not have the length the instruction needs.
    NotEnoughAccountKeys,
    /// The designated authority or owner did not approve the invocation.
    MissingSignature,
    /// An account that must be written is not declared writable.
    IncorrectAccountRole,
    /// A subtraction would take a balance below zero.
    InsufficientFunds,
    /// An addition would exceed the largest representable balance.
    ArithmeticOverflow,
    /// An account's buffer is too small for its layout.
    AccountTooSmall,
    /// A field accessor was given a buffer shorter than the field's end.
    BufferTooSmall,
    /// An account that must be a given program is some other account.
    IncorrectProgramId,
}

/// Application-defined error codes, carried by the host as custom codes.
#[derive(Clone, Copy, Debug, PartialEq, Eq, Structural)]
pub enum CustomError {
    InvalidInstruction,
    InsufficientFunds,
}

impl CustomError {
    /// The numeric code under which the host reports this error.
    pub open spec fn spec_code(self) -> u32 {
        match self {
            CustomError::InvalidInstruction => 0,
            CustomError::InsufficientFunds => 1,
        }
    }

    pub fn code(&self) -> (r: u32)
        ensures
            r == self.spec_code(),
    {
        match self {
            CustomError::InvalidInstruction => 0,
            CustomError::InsufficientFunds => 1,
        }
    }
}

} // verus!
