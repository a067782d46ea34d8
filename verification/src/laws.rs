//! What holds of the registry whatever is done to it, stated over the
//! operations' own models and proved.

use crate::accounts::UpdateStrategy;
use crate::address::Address;
use crate::delta_neutral::{
    count_down, count_up, Strategy, StrategyState, StrategyType, TreasuryStats,
};
use crate::error::{DeltaNeutralError, ErrorKind, LedgerError};
use crate::program::{strategy_arguments_error, StrategyOp};
use vstd::prelude::*;

verus! {

/// A strategy is created valid: where the arguments are accepted, the
/// allocation and the risk score of the new record are at most 100 and its
/// target yield is not zero.
pub proof fn lemma_created_strategy_is_valid(
    strategy: Strategy,
    authority: Address,
    strategy_type: StrategyType,
    allocation_percentage: u8,
    target_apy: u64,
    risk_score: u8,
    treasury: Address,
    treasury_token_account: Address,
    now: i64,
    bump: u8,
)
    requires
        strategy_arguments_error(allocation_percentage, target_apy, risk_score) is None,
        strategy.is_initial(
            authority,
            strategy_type,
            allocation_percentage,
            target_apy,
            risk_score,
            treasury,
            treasury_token_account,
            now,
            bump,
        ),
    ensures
        strategy.is_valid(),
        strategy.state == StrategyState::Paused,
        strategy.current_apy == 0,
{
}

/// A valid strategy stays valid: after any operation on it, whether it took
/// place or failed, its allocation and its risk score are at most 100.
pub proof fn lemma_strategy_stays_valid(accounts: UpdateStrategy, op: StrategyOp, now: i64)
    requires
        accounts.strategy.data.is_valid(),
    ensures
        accounts.failure(op) is None ==> accounts.after(op, now).strategy.data.is_valid(),
        accounts.strategy_after(op, now).risk_score == accounts.strategy.data.risk_score,
        accounts.strategy_after(op, now).target_apy == accounts.strategy.data.target_apy,
{
}

/// No operation on a strategy changes how many strategies the statistics
/// count, and none but an activation raises the number of active ones. So
/// statistics that count no more active strategies than strategies stay so
/// after every operation but an activation, and after an activation too
/// where a strategy was counted that was not active.
pub proof fn lemma_counts_after_update(accounts: UpdateStrategy, op: StrategyOp, now: i64)
    ensures
        accounts.stats_after(op, now).strategies_count
            == accounts.treasury_stats.data.strategies_count,
        accounts.stats_after(op, now).treasury_authority
            == accounts.treasury_stats.data.treasury_authority,
        op != StrategyOp::Activate ==> accounts.stats_after(op, now).active_strategies_count
            <= accounts.treasury_stats.data.active_strategies_count,
        op != StrategyOp::Activate && accounts.treasury_stats.data.is_consistent()
            ==> accounts.stats_after(op, now).is_consistent(),
        accounts.treasury_stats.data.active_strategies_count
            < accounts.treasury_stats.data.strategies_count ==> accounts.stats_after(
            op,
            now,
        ).is_consistent(),
{
}

/// Creating a strategy never lowers the number of strategies counted, leaves
/// the number of active ones alone, and keeps statistics in which no more
/// active strategies are counted than strategies that way.
pub proof fn lemma_counts_after_creation(
    existing: Option<TreasuryStats>,
    treasury: Address,
    authority: Address,
    bump: u8,
    now: i64,
)
    ensures
        ({
            let after = TreasuryStats::with_new_strategy(existing, treasury, authority, bump, now);
            match existing {
                Some(before) => {
                    &&& after.strategies_count >= before.strategies_count
                    &&& after.active_strategies_count == before.active_strategies_count
                    &&& before.is_consistent() ==> after.is_consistent()
                },
                None => after.strategies_count == 1 && after.active_strategies_count == 0,
            }
        }),
{
}

/// Creating statistics where there are some resets no total: the amounts
/// deposited and withdrawn, the yield and the value of the portfolio stay.
/// Where the record holds anything but zeros, and so where something was
/// deposited or a strategy is counted, all that changes is the number of
/// strategies and the time of the last change.
pub proof fn lemma_existing_statistics_keep_totals(
    existing: TreasuryStats,
    treasury: Address,
    authority: Address,
    bump: u8,
    now: i64,
)
    ensures
        TreasuryStats::with_new_strategy(
            Some(existing),
            treasury,
            authority,
            bump,
            now,
        ).same_totals(&existing),
        existing.has_history() ==> TreasuryStats::with_new_strategy(
            Some(existing),
            treasury,
            authority,
            bump,
            now,
        ) == (TreasuryStats {
            strategies_count: count_up(existing.strategies_count),
            last_updated_ts: now,
            ..existing
        }),
        existing.total_usdc_deposited != 0 || existing.strategies_count != 0
            ==> existing.has_history(),
{
}

/// The authority of a treasury is whoever created its first strategy. The
/// statistics opened with the first strategy are made out to its creator, and
/// whoever creates a strategy afterwards leaves them made out to the same
/// treasury and the same authority.
pub proof fn lemma_first_creator_stays_the_authority(
    existing: Option<TreasuryStats>,
    treasury: Address,
    first: Address,
    bump: u8,
    opened_at: i64,
    later_treasury: Address,
    later: Address,
    later_bump: u8,
    now: i64,
)
    requires
        existing matches Some(stats) ==> stats.is_blank(),
    ensures
        ({
            let opened = TreasuryStats::with_new_strategy(
                existing,
                treasury,
                first,
                bump,
                opened_at,
            );
            let after = TreasuryStats::with_new_strategy(
                Some(opened),
                later_treasury,
                later,
                later_bump,
                now,
            );
            &&& opened.treasury_authority == first
            &&& opened.treasury == treasury
            &&& opened.strategies_count == 1
            &&& opened.has_history()
            &&& after.treasury_authority == first
            &&& after.treasury == treasury
            &&& after.bump == bump
            &&& after.strategies_count == 2
        }),
{
}

/// Statistics that hold nothing but zeros count as missing: the first
/// strategy makes of them what it makes of no statistics at all.
pub proof fn lemma_zeroed_statistics_are_missing(
    zeroed: TreasuryStats,
    treasury: Address,
    authority: Address,
    bump: u8,
    now: i64,
)
    requires
        zeroed.is_blank(),
    ensures
        TreasuryStats::with_new_strategy(Some(zeroed), treasury, authority, bump, now)
            == TreasuryStats::with_new_strategy(None, treasury, authority, bump, now),
{
}

/// The life of a strategy. Asked by its authority:
///
/// - to pause a strategy that is paused or terminated fails, as does to
///   activate one that is active, each with an error of the kind `State`;
/// - to activate any other strategy and to pause an active one take place;
/// - to terminate takes place in every state, and ends in `Terminated`.
pub proof fn lemma_strategy_life(accounts: UpdateStrategy, now: i64)
    requires
        accounts.is_authorized(),
    ensures
        accounts.strategy.data.state != StrategyState::Active ==> accounts.failure(
            StrategyOp::Pause,
        ) == Some(LedgerError::DeltaNeutral(DeltaNeutralError::StrategyNotActive)),
        accounts.strategy.data.state == StrategyState::Active ==> accounts.failure(
            StrategyOp::Activate,
        ) == Some(LedgerError::DeltaNeutral(DeltaNeutralError::StrategyAlreadyActive)),
        LedgerError::DeltaNeutral(DeltaNeutralError::StrategyNotActive).spec_kind()
            == ErrorKind::State,
        LedgerError::DeltaNeutral(DeltaNeutralError::StrategyAlreadyActive).spec_kind()
            == ErrorKind::State,
        accounts.strategy.data.state != StrategyState::Active ==> accounts.failure(
            StrategyOp::Activate,
        ) is None && accounts.after(StrategyOp::Activate, now).strategy.data.state
            == StrategyState::Active,
        accounts.strategy.data.state == StrategyState::Active ==> accounts.failure(
            StrategyOp::Pause,
        ) is None && accounts.after(StrategyOp::Pause, now).strategy.data.state
            == StrategyState::Paused,
        accounts.failure(StrategyOp::Terminate) is None,
        accounts.after(StrategyOp::Terminate, now).strategy.data.state
            == StrategyState::Terminated,
{
}

/// A terminated strategy stays terminated under every operation but an
/// activation: whoever asks, the operation either fails and changes nothing,
/// or leaves the strategy terminated. To terminate it once more takes place
/// and changes nothing of the strategy, nor the number of active strategies.
pub proof fn lemma_terminated_stays(accounts: UpdateStrategy, op: StrategyOp, now: i64)
    requires
        accounts.strategy.data.state == StrategyState::Terminated,
        op != StrategyOp::Activate,
    ensures
        accounts.failure(op) is Some || accounts.after(op, now).strategy.data.state
            == StrategyState::Terminated,
        accounts.strategy_after(StrategyOp::Terminate, now) == accounts.strategy.data,
        accounts.active_count_after(StrategyOp::Terminate)
            == accounts.treasury_stats.data.active_strategies_count,
{
}

/// Only the authority of a strategy changes it: asked by anyone else, every
/// operation fails with `Unauthorized`, an error of the kind `Authorization`.
pub proof fn lemma_only_the_authority(accounts: UpdateStrategy, op: StrategyOp)
    requires
        !accounts.is_authorized(),
    ensures
        accounts.failure(op) == Some(LedgerError::Unauthorized),
        LedgerError::Unauthorized.spec_kind() == ErrorKind::Authorization,
{
}

/// To activate a strategy and then to pause it leaves the strategy paused,
/// with nothing else changed but the time of its last rebalance, and, unless
/// 255 strategies were counted as active already, as many strategies counted
/// as active as before.
pub proof fn lemma_activate_then_pause(accounts: UpdateStrategy, activated_at: i64, paused_at: i64)
    requires
        accounts.failure(StrategyOp::Activate) is None,
    ensures
        ({
            let active = accounts.after(StrategyOp::Activate, activated_at);
            let paused = active.after(StrategyOp::Pause, paused_at);
            &&& active.failure(StrategyOp::Pause) is None
            &&& paused.strategy.data.state == StrategyState::Paused
            &&& paused.strategy.data == (Strategy {
                state: StrategyState::Paused,
                last_rebalance_ts: activated_at,
                ..accounts.strategy.data
            })
            &&& accounts.treasury_stats.data.active_strategies_count < u8::MAX
                ==> paused.treasury_stats.data.active_strategies_count
                == accounts.treasury_stats.data.active_strategies_count
            &&& paused.treasury_stats.data.active_strategies_count == count_down(
                count_up(accounts.treasury_stats.data.active_strategies_count),
            )
        }),
{
}

} // verus!
