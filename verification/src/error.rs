//! The errors an operation can end in. Every failure names its cause, and an
//! operation that fails leaves every record as it was.

use vstd::prelude::*;

verus! {

/// First code of the errors that the program declares itself.
pub const ERROR_CODE_OFFSET: u32 = 6000;

/// The four classes of failure a caller can tell apart.
#[derive(Clone, Copy, Debug, PartialEq, Eq, Structural)]
pub enum ErrorKind {
    /// An argument or an account handed in is not acceptable.
    Validation,
    /// The caller is not the authority that the operation asks for.
    Authorization,
    /// The record is in a state that the operation cannot start from.
    State,
    /// The token program refused a transfer, a mint or a burn.
    Collaborator,
}

/// The errors that the strategy registry declares.
#[derive(Clone, Copy, Debug, PartialEq, Eq, Structural)]
pub enum DeltaNeutralError {
    /// An allocation above 100.
    InvalidAllocationPercentage,
    /// A risk score above 100.
    InvalidRiskScore,
    /// A target yield of zero.
    InvalidTargetApy,
    /// To activate a strategy that is active.
    StrategyAlreadyActive,
    /// To pause a strategy that is paused or terminated.
    StrategyNotActive,
    /// Declared with the others; no operation returns it.
    StrategyTerminated,
    /// Declared with the others; no operation returns it. A balance that is
    /// short is found by the token program, which reports it itself.
    InsufficientTreasuryBalance,
}

impl DeltaNeutralError {
    /// Position of the error among the declared ones, from zero.
    pub open spec fn ordinal(self) -> int {
        match self {
            DeltaNeutralError::InvalidAllocationPercentage => 0,
            DeltaNeutralError::InvalidRiskScore => 1,
            DeltaNeutralError::InvalidTargetApy => 2,
            DeltaNeutralError::StrategyAlreadyActive => 3,
            DeltaNeutralError::StrategyNotActive => 4,
            DeltaNeutralError::StrategyTerminated => 5,
            DeltaNeutralError::InsufficientTreasuryBalance => 6,
        }
    }

    /// The class of the error.
    pub open spec fn spec_kind(self) -> ErrorKind {
        match self {
            DeltaNeutralError::InvalidAllocationPercentage => ErrorKind::Validation,
            DeltaNeutralError::InvalidRiskScore => ErrorKind::Validation,
            DeltaNeutralError::InvalidTargetApy => ErrorKind::Validation,
            DeltaNeutralError::StrategyAlreadyActive => ErrorKind::State,
            DeltaNeutralError::StrategyNotActive => ErrorKind::State,
            DeltaNeutralError::StrategyTerminated => ErrorKind::State,
            DeltaNeutralError::InsufficientTreasuryBalance => ErrorKind::Collaborator,
        }
    }

    /// The number under which the error is reported on chain:
    /// [`ERROR_CODE_OFFSET`] plus its position.
    pub fn code(&self) -> (r: u32)
        ensures
            r == ERROR_CODE_OFFSET + self.ordinal(),
    {
        match self {
            DeltaNeutralError::InvalidAllocationPercentage => ERROR_CODE_OFFSET,
            DeltaNeutralError::InvalidRiskScore => ERROR_CODE_OFFSET + 1,
            DeltaNeutralError::InvalidTargetApy => ERROR_CODE_OFFSET + 2,
            DeltaNeutralError::StrategyAlreadyActive => ERROR_CODE_OFFSET + 3,
            DeltaNeutralError::StrategyNotActive => ERROR_CODE_OFFSET + 4,
            DeltaNeutralError::StrategyTerminated => ERROR_CODE_OFFSET + 5,
            DeltaNeutralError::InsufficientTreasuryBalance => ERROR_CODE_OFFSET + 6,
        }
    }

    /// The class of the error: a bad argument, a wrong state, or a balance
    /// that the token program found short.
    pub fn kind(&self) -> (r: ErrorKind)
        ensures
            r == self.spec_kind(),
    {
        match self {
            DeltaNeutralError::InvalidAllocationPercentage => ErrorKind::Validation,
            DeltaNeutralError::InvalidRiskScore => ErrorKind::Validation,
            DeltaNeutralError::InvalidTargetApy => ErrorKind::Validation,
            DeltaNeutralError::StrategyAlreadyActive => ErrorKind::State,
            DeltaNeutralError::StrategyNotActive => ErrorKind::State,
            DeltaNeutralError::StrategyTerminated => ErrorKind::State,
            DeltaNeutralError::InsufficientTreasuryBalance => ErrorKind::Collaborator,
        }
    }

    /// The sentence shown to a user for the error.
    pub fn message(&self) -> (r: &'static str)
        ensures
            r@ == match *self {
                DeltaNeutralError::InvalidAllocationPercentage =>
                    "Invalid allocation percentage. Must be between 0 and 100."@,
                DeltaNeutralError::InvalidRiskScore =>
                    "Invalid risk score. Must be between 0 and 100."@,
                DeltaNeutralError::InvalidTargetApy =>
                    "Invalid target APY. Must be greater than 0."@,
                DeltaNeutralError::StrategyAlreadyActive => "Strategy is already active."@,
                DeltaNeutralError::StrategyNotActive => "Strategy is not active."@,
                DeltaNeutralError::StrategyTerminated =>
                    "Strategy is terminated and cannot be modified."@,
                DeltaNeutralError::InsufficientTreasuryBalance =>
                    "Insufficient treasury balance for the operation."@,
            },
    {
        match self {
            DeltaNeutralError::InvalidAllocationPercentage => {
                "Invalid allocation percentage. Must be between 0 and 100."
            },
            DeltaNeutralError::InvalidRiskScore => "Invalid risk score. Must be between 0 and 100.",
            DeltaNeutralError::InvalidTargetApy => "Invalid target APY. Must be greater than 0.",
            DeltaNeutralError::StrategyAlreadyActive => "Strategy is already active.",
            DeltaNeutralError::StrategyNotActive => "Strategy is not active.",
            DeltaNeutralError::StrategyTerminated => {
                "Strategy is terminated and cannot be modified."
            },
            DeltaNeutralError::InsufficientTreasuryBalance => {
                "Insufficient treasury balance for the operation."
            },
        }
    }
}

/// A failure that the token program reported for a transfer, a mint or a burn,
/// under the code it gave.
#[derive(Clone, Copy, Debug, PartialEq, Eq, Structural)]
pub struct CollaboratorError {
    pub code: u32,
}

/// Code of the token program for a balance smaller than the amount asked for.
pub const TOKEN_INSUFFICIENT_FUNDS: u32 = 1;

/// Code of the token program for a balance or a supply that would overflow.
pub const TOKEN_OVERFLOW: u32 = 14;

/// Why an operation did not take place.
#[derive(Clone, Copy, Debug, PartialEq, Eq, Structural)]
pub enum LedgerError {
    /// A rule of the strategy registry was broken.
    DeltaNeutral(DeltaNeutralError),
    /// The caller is not the authority of the record, or not the owner of a
    /// token account that it offers.
    Unauthorized,
    /// An account is not the one that the configuration names.
    AddressMismatch,
    /// An account is not at the address derived from its seeds.
    SeedsMismatch,
    /// A record that the operation creates exists already.
    AlreadyInitialized,
    /// A record that the operation works on does not exist.
    NotInitialized,
    /// The token program failed; its error is handed on as it came.
    Collaborator(CollaboratorError),
}

impl LedgerError {
    /// The class of the error.
    pub open spec fn spec_kind(self) -> ErrorKind {
        match self {
            LedgerError::DeltaNeutral(e) => e.spec_kind(),
            LedgerError::Unauthorized => ErrorKind::Authorization,
            LedgerError::AddressMismatch => ErrorKind::Validation,
            LedgerError::SeedsMismatch => ErrorKind::Authorization,
            LedgerError::AlreadyInitialized => ErrorKind::State,
            LedgerError::NotInitialized => ErrorKind::State,
            LedgerError::Collaborator(_) => ErrorKind::Collaborator,
        }
    }

    /// The class of the error, by which a caller tells a bad input from a
    /// missing authority, a wrong state and a failed token operation.
    pub fn kind(&self) -> (r: ErrorKind)
        ensures
            r == self.spec_kind(),
    {
        match self {
            LedgerError::DeltaNeutral(e) => e.kind(),
            LedgerError::Unauthorized => ErrorKind::Authorization,
            LedgerError::AddressMismatch => ErrorKind::Validation,
            LedgerError::SeedsMismatch => ErrorKind::Authorization,
            LedgerError::AlreadyInitialized => ErrorKind::State,
            LedgerError::NotInitialized => ErrorKind::State,
            LedgerError::Collaborator(_) => ErrorKind::Collaborator,
        }
    }
}

} // verus!
