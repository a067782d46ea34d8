//! The records of the strategy registry: a strategy, and the statistics of
//! the treasury that its strategies share.

use crate::address::{lemma_address_by_bytes, Address};
use vstd::prelude::*;

verus! {

/// Largest allocation percentage and largest risk score.
pub const MAX_PERCENT: u8 = 100;

/// Number of token accounts that a strategy keeps for its own use.
pub const STRATEGY_TOKEN_ACCOUNTS: usize = 5;

/// Size in bytes of the data that a strategy keeps for its own use.
pub const STRATEGY_DATA_LEN: usize = 1024;

/// Where a strategy stands in its life.
#[derive(Clone, Copy, Debug, PartialEq, Eq, Structural)]
pub enum StrategyState {
    Active,
    Paused,
    Terminated,
}

/// What a strategy does with its share of the treasury. It is recorded and
/// changes nothing in how the registry treats the strategy.
#[derive(Clone, Copy, Debug, PartialEq, Eq, Structural)]
pub enum StrategyType {
    LiquidStaking,
    Lending,
    LiquidityProvision,
}

/// One delta-neutral strategy of a treasury.
#[derive(Clone, Copy, Debug, PartialEq, Eq)]
pub struct Strategy {
    /// Who may change the strategy.
    pub authority: Address,
    pub strategy_type: StrategyType,
    pub state: StrategyState,
    /// Share of the treasury assigned to the strategy, 0 to 100.
    pub allocation_percentage: u8,
    /// Yield aimed at, in basis points (500 is 5%).
    pub target_apy: u64,
    /// Yield last reported, in basis points.
    pub current_apy: u64,
    /// The treasury that the strategy belongs to.
    pub treasury: Address,
    pub treasury_token_account: Address,
    /// Token accounts reserved for the strategy.
    pub strategy_token_accounts: [Address; 5],
    /// Data of the strategy, which the registry does not read.
    pub strategy_data: [u8; 1024],
    pub last_rebalance_ts: i64,
    /// Risk of the strategy, 0 to 100.
    pub risk_score: u8,
    pub created_at: i64,
    /// Bump of the address that the record is kept at.
    pub bump: u8,
}

impl Strategy {
    /// Bytes that a strategy takes in storage: an eight-byte tag, then the
    /// width of each field.
    pub const LEN: usize = 8 + 32 + 1 + 1 + 1 + 8 + 8 + 32 + 32 + (32 * 5) + 1024 + 8 + 1 + 8 + 1;

    /// What holds of every strategy that the registry has created: allocation
    /// and risk are at most 100, and a yield is aimed at.
    pub open spec fn is_valid(&self) -> bool {
        &&& self.allocation_percentage <= MAX_PERCENT
        &&& self.risk_score <= MAX_PERCENT
        &&& self.target_apy > 0
    }

    /// Whether the record is one just created with the given values: paused,
    /// no yield reported, both timestamps at `now`, and the space reserved
    /// for the strategy zeroed.
    pub open spec fn is_initial(
        &self,
        authority: Address,
        strategy_type: StrategyType,
        allocation_percentage: u8,
        target_apy: u64,
        risk_score: u8,
        treasury: Address,
        treasury_token_account: Address,
        now: i64,
        bump: u8,
    ) -> bool {
        &&& self.authority == authority
        &&& self.strategy_type == strategy_type
        &&& self.state == StrategyState::Paused
        &&& self.allocation_percentage == allocation_percentage
        &&& self.target_apy == target_apy
        &&& self.current_apy == 0
        &&& self.treasury == treasury
        &&& self.treasury_token_account == treasury_token_account
        &&& forall|i: int|
            0 <= i < STRATEGY_TOKEN_ACCOUNTS ==> (#[trigger] self.strategy_token_accounts[i])@
                == Seq::new(32, |k: int| 0u8)
        &&& self.strategy_data@ == Seq::new(STRATEGY_DATA_LEN as nat, |k: int| 0u8)
        &&& self.last_rebalance_ts == now
        &&& self.risk_score == risk_score
        &&& self.created_at == now
        &&& self.bump == bump
    }
}

/// Emitted when the allocation of a strategy changes.
#[derive(Clone, Copy, Debug, PartialEq, Eq)]
pub struct RebalanceEvent {
    pub strategy: Address,
    pub old_allocation: u8,
    pub new_allocation: u8,
    pub timestamp: i64,
    pub performed_by: Address,
}

/// Emitted when a strategy reports its yield.
#[derive(Clone, Copy, Debug, PartialEq, Eq)]
pub struct YieldReportEvent {
    pub strategy: Address,
    pub previous_apy: u64,
    pub current_apy: u64,
    pub timestamp: i64,
}

/// Running totals of one treasury, over all its strategies.
#[derive(Clone, Copy, Debug, PartialEq, Eq)]
pub struct TreasuryStats {
    pub total_usdc_deposited: u64,
    pub total_usdc_withdrawn: u64,
    pub total_yield_generated: u64,
    pub current_portfolio_value: u64,
    /// Strategies ever created for the treasury.
    pub strategies_count: u8,
    /// Strategies of the treasury that are active.
    pub active_strategies_count: u8,
    pub last_updated_ts: i64,
    pub treasury: Address,
    /// Who may report yield for the treasury.
    pub treasury_authority: Address,
    /// Bump of the address that the record is kept at.
    pub bump: u8,
}

impl TreasuryStats {
    /// Bytes that the statistics take in storage: an eight-byte tag, then the
    /// width of each field.
    pub const LEN: usize = 8 + 8 + 8 + 8 + 8 + 1 + 1 + 8 + 32 + 32 + 1;

    /// No more strategies are counted as active than were ever created.
    pub open spec fn is_consistent(&self) -> bool {
        self.active_strategies_count <= self.strategies_count
    }

    /// Whether the record holds nothing but zeros: no total, no strategy
    /// counted, no time of a change, and nobody it is made out to. Such is
    /// the record of an account that was created and never written.
    pub open spec fn spec_is_blank(&self) -> bool {
        &&& self.total_usdc_deposited == 0
        &&& self.total_usdc_withdrawn == 0
        &&& self.total_yield_generated == 0
        &&& self.current_portfolio_value == 0
        &&& self.strategies_count == 0
        &&& self.active_strategies_count == 0
        &&& self.last_updated_ts == 0
        &&& self.treasury@ == Seq::new(32, |i: int| 0u8)
        &&& self.treasury_authority@ == Seq::new(32, |i: int| 0u8)
        &&& self.bump == 0
    }

    /// Whether the record holds nothing but zeros.
    #[verifier::when_used_as_spec(spec_is_blank)]
    pub fn is_blank(&self) -> (r: bool)
        ensures
            r == self.spec_is_blank(),
    {
        let nobody = Address::default();
        proof {
            lemma_address_by_bytes(self.treasury, nobody);
            lemma_address_by_bytes(self.treasury_authority, nobody);
        }
        self.total_usdc_deposited == 0 && self.total_usdc_withdrawn == 0
            && self.total_yield_generated == 0 && self.current_portfolio_value == 0
            && self.strategies_count == 0 && self.active_strategies_count == 0
            && self.last_updated_ts == 0 && self.treasury == nobody && self.treasury_authority
            == nobody && self.bump == 0
    }

    /// Whether the record has a history: it holds something that is not
    /// zero, be it a deposit, a strategy counted or the one it is made out to.
    pub open spec fn has_history(&self) -> bool {
        !self.is_blank()
    }

    /// The statistics of a treasury that nothing has happened to yet.
    pub open spec fn opened(
        treasury: Address,
        authority: Address,
        bump: u8,
        now: i64,
    ) -> TreasuryStats {
        TreasuryStats {
            total_usdc_deposited: 0,
            total_usdc_withdrawn: 0,
            total_yield_generated: 0,
            current_portfolio_value: 0,
            strategies_count: 0,
            active_strategies_count: 0,
            last_updated_ts: now,
            treasury,
            treasury_authority: authority,
            bump,
        }
    }

    /// The statistics once one more strategy was created at `now`, from the
    /// record that was there, if any. A missing record is opened for
    /// `treasury`, `authority` and `bump`, and so is one that holds nothing
    /// but zeros. Every other record stays as it is and keeps whom it is made
    /// out to. Then the strategy is counted, up to 255, and the time of the
    /// last change is `now`.
    pub open spec fn with_new_strategy(
        existing: Option<TreasuryStats>,
        treasury: Address,
        authority: Address,
        bump: u8,
        now: i64,
    ) -> TreasuryStats {
        let base = match existing {
            Some(stats) => if stats.has_history() {
                stats
            } else {
                TreasuryStats::opened(treasury, authority, bump, now)
            },
            None => TreasuryStats::opened(treasury, authority, bump, now),
        };
        TreasuryStats {
            strategies_count: count_up(base.strategies_count),
            last_updated_ts: now,
            ..base
        }
    }

    /// Whether two records agree in every total, that is in all but the two
    /// counts of strategies, the time of the last change and who the record
    /// belongs to.
    pub open spec fn same_totals(&self, other: &TreasuryStats) -> bool {
        &&& self.total_usdc_deposited == other.total_usdc_deposited
        &&& self.total_usdc_withdrawn == other.total_usdc_withdrawn
        &&& self.total_yield_generated == other.total_yield_generated
        &&& self.current_portfolio_value == other.current_portfolio_value
    }
}

/// One more than `count`, or `count` itself where it is the largest a byte holds.
pub open spec fn count_up(count: u8) -> u8 {
    if count < u8::MAX {
        (count + 1) as u8
    } else {
        count
    }
}

/// One less than `count`, or zero where it is zero.
pub open spec fn count_down(count: u8) -> u8 {
    if count > 0 {
        (count - 1) as u8
    } else {
        count
    }
}

} // verus!
