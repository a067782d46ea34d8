//! Accounting core of a stablecoin swap backed by a treasury, with a registry
//! of delta-neutral yield strategies that share the treasury.
//!
//! The library keeps three kinds of record consistent: the settings of the
//! swap, the strategies, and the statistics of the treasury. It moves no
//! tokens and reads no clock: an operation takes the contents of the accounts
//! it works on and the time, and hands back the changed records with the
//! event to publish, or the reason why nothing was changed.
//!
//! - [`program`] holds the operations, one function each.
//! - [`accounts`] holds the accounts of each operation and the test that an
//!   account sits at the address derived for it; [`address`] derives the
//!   addresses.
//! - [`swap`] says how a planned swap is carried out against the token
//!   program, and what it does to the balances.
//! - [`store`] and [`ledger`] keep the records of a treasury together and the
//!   counts of its statistics true to its strategies.
//! - [`laws`] states what holds whatever is done.

pub mod accounts;
pub mod address;
pub mod delta_neutral;
pub mod error;
pub mod events;
pub mod laws;
pub mod ledger;
pub mod program;
pub mod store;
pub mod swap;

pub use accounts::{
    Account, Config, Initialize, InitializeBumps, InitializeStrategy, InitializeStrategyBumps,
    ReportYield, SwapUsdcToUsds, SwapUsdsToUsdc, TokenAccount, UpdateStrategy,
};
pub use address::{id, Address};
pub use delta_neutral::{
    RebalanceEvent, Strategy, StrategyState, StrategyType, TreasuryStats, YieldReportEvent,
};
pub use error::{CollaboratorError, DeltaNeutralError, ErrorKind, LedgerError};
pub use events::{
    StrategyEvent, StrategyInitializedEvent, StrategyStateChangedEvent, SwapDirection, SwapEvent,
    YieldGeneratedEvent,
};
pub use ledger::TreasuryLedger;
pub use program::{
    activate_strategy, initialize, initialize_strategy, pause_strategy, report_yield,
    swap_usdc_to_usds, swap_usds_to_usdc, terminate_strategy, update_allocation, update_apy,
    update_strategy, StrategyOp,
};
pub use store::RecordStore;
pub use swap::{Signer, SwapAction, SwapBalances, SwapLeg, SwapPlan, SwapStage, TokenCall};
