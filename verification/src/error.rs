//! Errors reported by the rebasing extensions.

use vstd::prelude::*;

verus! {

/// Why an instruction or a conversion was refused.
#[derive(Clone, Copy, Debug, PartialEq, Eq, Structural)]
pub enum RebaseError {
    /// The rebase type byte is neither 1 nor 2.
    InvalidRebaseType,
    /// The reference account does not hold a delegated stake, or does not
    /// hold a mint, as the rebase type requires.
    InvalidReferenceAccountState,
    /// The account presented as the reference is not the one that was bound.
    RebaseAccountMismatch,
    /// A checked multiplication, division or subtraction failed.
    ArithmeticOverflow,
    /// The source account holds fewer shares than were requested.
    InsufficientShares,
    /// The extension slot is already populated.
    AlreadyInitialized,
    /// The instruction bytes do not decode to an opcode and its arguments.
    MalformedInstructionPayload,
    /// An argument has a value that is not accepted.
    InvalidArgument,
    /// The instruction was given fewer accounts than it expects.
    NotEnoughAccountKeys,
    /// An account is not owned by the token program.
    IncorrectProgramId,
    /// An account does not hold the kind of record that the instruction expects.
    InvalidAccountData,
    /// The account holds no record of the extension that the instruction uses.
    ExtensionNotFound,
}

impl RebaseError {
    /// A short description of the error.
    pub fn message(&self) -> (text: &'static str)
        ensures
            text@ == Self::spec_message(*self)@,
    {
        match self {
            RebaseError::InvalidRebaseType => "rebase type must be either 1 or 2",
            RebaseError::InvalidReferenceAccountState => "reference account is in the wrong state",
            RebaseError::RebaseAccountMismatch => "rebase account does not match the configuration",
            RebaseError::ArithmeticOverflow => "arithmetic overflow",
            RebaseError::InsufficientShares => "insufficient shares",
            RebaseError::AlreadyInitialized => "extension is already initialized",
            RebaseError::MalformedInstructionPayload => "malformed instruction payload",
            RebaseError::InvalidArgument => "invalid argument",
            RebaseError::NotEnoughAccountKeys => "not enough account keys",
            RebaseError::IncorrectProgramId => "incorrect program id",
            RebaseError::InvalidAccountData => "invalid account data",
            RebaseError::ExtensionNotFound => "extension not found",
        }
    }

    /// The description that `message` returns for each error.
    pub open spec fn spec_message(e: RebaseError) -> &'static str {
        match e {
            RebaseError::InvalidRebaseType => "rebase type must be either 1 or 2",
            RebaseError::InvalidReferenceAccountState => "reference account is in the wrong state",
            RebaseError::RebaseAccountMismatch => "rebase account does not match the configuration",
            RebaseError::ArithmeticOverflow => "arithmetic overflow",
            RebaseError::InsufficientShares => "insufficient shares",
            RebaseError::AlreadyInitialized => "extension is already initialized",
            RebaseError::MalformedInstructionPayload => "malformed instruction payload",
            RebaseError::InvalidArgument => "invalid argument",
            RebaseError::NotEnoughAccountKeys => "not enough account keys",
            RebaseError::IncorrectProgramId => "incorrect program id",
            RebaseError::InvalidAccountData => "invalid account data",
            RebaseError::ExtensionNotFound => "extension not found",
        }
    }
}

} // verus!
