//! Failures of an invocation.

use vstd::prelude::*;

verus! {

/// Host code of "invalid instruction data".
pub const INVALID_INSTRUCTION_DATA: u64 = 0x3_0000_0000;

/// Host code of "invalid account data".
pub const INVALID_ACCOUNT_DATA: u64 = 0x4_0000_0000;

/// Host code of "account data too small".
pub const ACCOUNT_DATA_TOO_SMALL: u64 = 0x5_0000_0000;

/// Host code of "incorrect program id".
pub const INCORRECT_PROGRAM_ID: u64 = 0x7_0000_0000;

/// Host code of "missing required signature".
pub const MISSING_REQUIRED_SIGNATURE: u64 = 0x8_0000_0000;

/// Host code of "not enough account keys".
pub const NOT_ENOUGH_ACCOUNT_KEYS: u64 = 0xb_0000_0000;

/// A failure reported by the token ledger, carried by the numeric code under
/// which the host knows it.
#[derive(Clone, Copy, Debug, PartialEq, Eq, Structural)]
pub struct LedgerError {
    pub code: u64,
}

/// Why an invocation was aborted. Every error is terminal: nothing is caught
/// or retried.
#[derive(Clone, Copy, Debug, PartialEq, Eq, Structural)]
pub enum DispatchError {
    /// The account list ended before every role was bound.
    NotEnoughAccountKeys,
    /// The account in the ledger-program slot is not the token ledger.
    IncorrectProgramId,
    /// The transfer authority did not sign the invocation.
    MissingRequiredSignature,
    /// Genesis was asked for a mint whose supply is no longer zero.
    AlreadyInitialized,
    /// The payload is empty, selects no known operation, or is too short for
    /// the operation it selects.
    InvalidInstructionData,
    /// The mint account has no room for the metadata behind its state.
    AccountDataTooSmall,
    /// A call into the token ledger failed; its error is passed on unchanged.
    Ledger(LedgerError),
}

impl DispatchError {
    /// The code under which the host sees this error. A repeated genesis
    /// reaches the host as invalid instruction data.
    pub open spec fn spec_code(self) -> u64 {
        match self {
            DispatchError::NotEnoughAccountKeys => NOT_ENOUGH_ACCOUNT_KEYS,
            DispatchError::IncorrectProgramId => INCORRECT_PROGRAM_ID,
            DispatchError::MissingRequiredSignature => MISSING_REQUIRED_SIGNATURE,
            DispatchError::AlreadyInitialized => INVALID_INSTRUCTION_DATA,
            DispatchError::InvalidInstructionData => INVALID_INSTRUCTION_DATA,
            DispatchError::AccountDataTooSmall => ACCOUNT_DATA_TOO_SMALL,
            DispatchError::Ledger(e) => e.code,
        }
    }

    /// The code to hand to the host for this error.
    #[verifier::when_used_as_spec(spec_code)]
    pub fn code(self) -> (c: u64)
        ensures
            c == self.spec_code(),
    {
        match self {
            DispatchError::NotEnoughAccountKeys => NOT_ENOUGH_ACCOUNT_KEYS,
            DispatchError::IncorrectProgramId => INCORRECT_PROGRAM_ID,
            DispatchError::MissingRequiredSignature => MISSING_REQUIRED_SIGNATURE,
            DispatchError::AlreadyInitialized => INVALID_INSTRUCTION_DATA,
            DispatchError::InvalidInstructionData => INVALID_INSTRUCTION_DATA,
            DispatchError::AccountDataTooSmall => ACCOUNT_DATA_TOO_SMALL,
            DispatchError::Ledger(e) => e.code,
        }
    }
}

} // verus!
