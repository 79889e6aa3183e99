//! Abort reasons of the registry.

use vstd::prelude::*;

verus! {

/// Why an operation aborted.  An abort leaves every registry as it was before
/// the call.
#[derive(Debug, Clone, Copy, PartialEq, Eq, Structural)]
pub enum ContractError {
    /// The queried identity has no URL.
    NotFound,
    /// The URL does not begin with `http://` or `https://`.
    BadUrlFormat,
    /// The caller is not on the list of privileged names.
    NotAllowed,
    /// The call would leave the registry without an active administrator.
    AdminCountTooLow,
    /// An administrator-only operation was called by somebody else.
    PermissionDenied,
    /// The identity to add is already an active administrator.
    AdminExists,
    /// The identity to disable is not an active administrator.
    AdminDoesntExist,
    /// The caller is not an account.
    CallerIsNotAccount,
    /// The caller's name could not be read.
    ReadingCallerError,
    /// A deposit is due and no funding source was supplied.
    PurseIsNone,
    /// The funding source does not hold exactly the required deposit.
    IncorrectDepositAmount,
    /// Nothing is held in escrow for the identity.
    NoDeposit,
}

impl ContractError {
    /// The number under which the abort reason is reported to the host.
    pub open spec fn spec_code(self) -> u16 {
        match self {
            ContractError::NotFound => 1,
            ContractError::BadUrlFormat => 2,
            ContractError::NotAllowed => 3,
            ContractError::AdminCountTooLow => 4,
            ContractError::PermissionDenied => 5,
            ContractError::AdminExists => 6,
            ContractError::AdminDoesntExist => 7,
            ContractError::CallerIsNotAccount => 8,
            ContractError::ReadingCallerError => 9,
            ContractError::PurseIsNone => 10,
            ContractError::IncorrectDepositAmount => 11,
            ContractError::NoDeposit => 12,
        }
    }

    /// The number under which the abort reason is reported to the host.
    #[verifier::when_used_as_spec(spec_code)]
    pub fn code(self) -> (code: u16)
        ensures
            code == self.spec_code(),
            1 <= code <= 12,
    {
        match self {
            ContractError::NotFound => 1,
            ContractError::BadUrlFormat => 2,
            ContractError::NotAllowed => 3,
            ContractError::AdminCountTooLow => 4,
            ContractError::PermissionDenied => 5,
            ContractError::AdminExists => 6,
            ContractError::AdminDoesntExist => 7,
            ContractError::CallerIsNotAccount => 8,
            ContractError::ReadingCallerError => 9,
            ContractError::PurseIsNone => 10,
            ContractError::IncorrectDepositAmount => 11,
            ContractError::NoDeposit => 12,
        }
    }
}

/// What a call that returns nothing does with a step of the registry: where
/// the step yields a new state, the call commits exactly that state and
/// returns `Ok`; where the step aborts, the call returns the step's reason and
/// leaves the state as it was.
pub open spec fn took_step<S>(
    step: Result<S, ContractError>,
    before: S,
    after: S,
    result: Result<(), ContractError>,
) -> bool {
    match step {
        Ok(next) => result is Ok && after == next,
        Err(reason) => result == Err::<(), ContractError>(reason) && after == before,
    }
}

/// What a call that returns a value does with a step of the registry: where
/// the step yields a new state and a value, the call commits exactly that
/// state and returns that value; where the step aborts, the call returns the
/// step's reason and leaves the state as it was.
pub open spec fn took_step_with<S, T>(
    step: Result<(S, T), ContractError>,
    before: S,
    after: S,
    result: Result<T, ContractError>,
) -> bool {
    match step {
        Ok((next, value)) => result == Ok::<T, ContractError>(value) && after == next,
        Err(reason) => result == Err::<T, ContractError>(reason) && after == before,
    }
}

/// A step aborts with `reason`.
pub open spec fn aborts_with<T>(step: Result<T, ContractError>, reason: ContractError) -> bool {
    step == Err::<T, ContractError>(reason)
}

} // verus!
