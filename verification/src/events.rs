//! What an operation hands back for the observers once it has taken place.
//! The caller publishes the event together with the records it commits.

use crate::address::Address;
use crate::delta_neutral::{RebalanceEvent, StrategyState, StrategyType, YieldReportEvent};
use vstd::prelude::*;

verus! {

/// Emitted when a strategy is created.
#[derive(Clone, Copy, Debug, PartialEq, Eq)]
pub struct StrategyInitializedEvent {
    pub strategy: Address,
    pub strategy_type: StrategyType,
    pub allocation_percentage: u8,
    pub target_apy: u64,
    pub risk_score: u8,
    pub initialized_by: Address,
    pub timestamp: i64,
}

/// Emitted when a strategy is activated, paused or terminated.
#[derive(Clone, Copy, Debug, PartialEq, Eq)]
pub struct StrategyStateChangedEvent {
    pub strategy: Address,
    pub old_state: StrategyState,
    pub new_state: StrategyState,
    pub timestamp: i64,
    pub performed_by: Address,
}

/// What a change of an existing strategy emits.
#[derive(Clone, Copy, Debug, PartialEq, Eq)]
pub enum StrategyEvent {
    StateChanged(StrategyStateChangedEvent),
    Rebalance(RebalanceEvent),
    YieldReport(YieldReportEvent),
}

/// Emitted when yield is reported for a treasury.
#[derive(Clone, Copy, Debug, PartialEq, Eq)]
pub struct YieldGeneratedEvent {
    pub treasury: Address,
    pub yield_amount: u64,
    pub new_portfolio_value: u64,
    pub timestamp: i64,
    pub reported_by: Address,
}

/// The direction of a swap.
#[derive(Clone, Copy, Debug, PartialEq, Eq, Structural)]
pub enum SwapDirection {
    /// Stable tokens in, synthetic tokens out.
    UsdcToUsds,
    /// Synthetic tokens in, stable tokens out.
    UsdsToUsdc,
}

/// Emitted when a swap has settled.
#[derive(Clone, Copy, Debug, PartialEq, Eq)]
pub struct SwapEvent {
    pub user: Address,
    pub amount: u64,
    pub swap_direction: SwapDirection,
}

} // verus!
