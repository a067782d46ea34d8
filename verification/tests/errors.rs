use usds_swap::accounts::Config;
use usds_swap::delta_neutral::{Strategy, TreasuryStats};
use usds_swap::error::{
    CollaboratorError, DeltaNeutralError, ErrorKind, LedgerError, ERROR_CODE_OFFSET,
    TOKEN_INSUFFICIENT_FUNDS, TOKEN_OVERFLOW,
};

#[test]
fn error_codes_start_at_6000() {
    assert_eq!(ERROR_CODE_OFFSET, 6000);
    assert_eq!(ERROR_CODE_OFFSET, anchor_lang::error::ERROR_CODE_OFFSET);
    assert_eq!(DeltaNeutralError::InvalidAllocationPercentage.code(), 6000);
    assert_eq!(DeltaNeutralError::InvalidRiskScore.code(), 6001);
    assert_eq!(DeltaNeutralError::InvalidTargetApy.code(), 6002);
    assert_eq!(DeltaNeutralError::StrategyAlreadyActive.code(), 6003);
    assert_eq!(DeltaNeutralError::StrategyNotActive.code(), 6004);
    assert_eq!(DeltaNeutralError::StrategyTerminated.code(), 6005);
    assert_eq!(DeltaNeutralError::InsufficientTreasuryBalance.code(), 6006);
}

#[test]
fn error_messages_are_the_declared_sentences() {
    assert_eq!(
        DeltaNeutralError::InvalidAllocationPercentage.message(),
        "Invalid allocation percentage. Must be between 0 and 100."
    );
    assert_eq!(
        DeltaNeutralError::InvalidRiskScore.message(),
        "Invalid risk score. Must be between 0 and 100."
    );
    assert_eq!(
        DeltaNeutralError::InvalidTargetApy.message(),
        "Invalid target APY. Must be greater than 0."
    );
    assert_eq!(DeltaNeutralError::StrategyAlreadyActive.message(), "Strategy is already active.");
    assert_eq!(DeltaNeutralError::StrategyNotActive.message(), "Strategy is not active.");
    assert_eq!(
        DeltaNeutralError::StrategyTerminated.message(),
        "Strategy is terminated and cannot be modified."
    );
    assert_eq!(
        DeltaNeutralError::InsufficientTreasuryBalance.message(),
        "Insufficient treasury balance for the operation."
    );
}

#[test]
fn every_error_has_its_kind() {
    assert_eq!(DeltaNeutralError::InvalidAllocationPercentage.kind(), ErrorKind::Validation);
    assert_eq!(DeltaNeutralError::InvalidRiskScore.kind(), ErrorKind::Validation);
    assert_eq!(DeltaNeutralError::InvalidTargetApy.kind(), ErrorKind::Validation);
    assert_eq!(DeltaNeutralError::StrategyAlreadyActive.kind(), ErrorKind::State);
    assert_eq!(DeltaNeutralError::StrategyNotActive.kind(), ErrorKind::State);
    assert_eq!(DeltaNeutralError::StrategyTerminated.kind(), ErrorKind::State);
    assert_eq!(DeltaNeutralError::InsufficientTreasuryBalance.kind(), ErrorKind::Collaborator);
    assert_eq!(
        LedgerError::DeltaNeutral(DeltaNeutralError::InvalidRiskScore).kind(),
        ErrorKind::Validation
    );
    assert_eq!(
        LedgerError::DeltaNeutral(DeltaNeutralError::StrategyNotActive).kind(),
        ErrorKind::State
    );
    assert_eq!(LedgerError::Unauthorized.kind(), ErrorKind::Authorization);
    assert_eq!(LedgerError::SeedsMismatch.kind(), ErrorKind::Authorization);
    assert_eq!(LedgerError::AddressMismatch.kind(), ErrorKind::Validation);
    assert_eq!(LedgerError::AlreadyInitialized.kind(), ErrorKind::State);
    assert_eq!(LedgerError::NotInitialized.kind(), ErrorKind::State);
    assert_eq!(
        LedgerError::Collaborator(CollaboratorError { code: 3 }).kind(),
        ErrorKind::Collaborator
    );
}

#[test]
fn token_program_codes() {
    assert_eq!(TOKEN_INSUFFICIENT_FUNDS, 1);
    assert_eq!(TOKEN_OVERFLOW, 14);
}

#[test]
fn record_sizes_are_the_sums_of_the_field_widths() {
    assert_eq!(Config::LEN, 98);
    assert_eq!(Strategy::LEN, 1325);
    assert_eq!(TreasuryStats::LEN, 115);
}
