//! The operations. Each takes the accounts it works on and either takes place
//! whole, changing the records and handing back what to publish, or fails
//! with the reason and changes nothing.
//!
//! The time is an argument: the caller reads the clock.
//!
//! The accounts are taken as they are given. Whether those that are meant to
//! sit at derived addresses do so is tested by the `verify_seeds` function of
//! each set of accounts, which also finds the bumps that [`initialize`] and
//! [`initialize_strategy`] store. [`crate::ledger::TreasuryLedger`] puts the
//! two together for the records of one treasury.

use crate::accounts::{
    Account, Config, Initialize, InitializeBumps, InitializeStrategy, InitializeStrategyBumps,
    ReportYield, SwapUsdcToUsds, SwapUsdsToUsdc, UpdateStrategy,
};
use crate::address::Address;
use crate::delta_neutral::{
    count_down, count_up, RebalanceEvent, Strategy, StrategyState, StrategyType, TreasuryStats,
    YieldReportEvent, MAX_PERCENT,
};
use crate::error::{DeltaNeutralError, LedgerError};
use crate::events::{
    StrategyEvent, StrategyInitializedEvent, StrategyStateChangedEvent, SwapDirection, SwapEvent,
    YieldGeneratedEvent,
};
use crate::swap::{Signer, SwapLeg, SwapPlan, TokenCall};
use vstd::prelude::*;

verus! {

/// Writes the settings of the swap: the bumps found for the treasury and the
/// mint authority, the mints of the synthetic and of the stable token, and the
/// token account that holds the custody. The settings are written once: where
/// they exist, the operation fails with `AlreadyInitialized`.
pub fn initialize(ctx: &mut Initialize, bumps: &InitializeBumps) -> (r: Result<(), LedgerError>)
    ensures
        r is Ok <==> old(ctx).config.data is None,
        r is Err ==> r == Err::<(), LedgerError>(LedgerError::AlreadyInitialized) && *final(ctx)
            == *old(ctx),
        r is Ok ==> *final(ctx) == (Initialize {
            config: Account {
                key: old(ctx).config.key,
                data: Some(
                    Config {
                        treasury_bump: bumps.treasury,
                        mint_authority_bump: bumps.mint_authority,
                        usds_mint: old(ctx).usds_mint,
                        treasury_token_account: old(ctx).treasury_token_account,
                        usdc_mint: old(ctx).usdc_mint,
                    },
                ),
            },
            ..*old(ctx)
        }),
{
    if ctx.config.data.is_some() {
        return Err(LedgerError::AlreadyInitialized);
    }
    ctx.config.data = Some(
        Config {
            treasury_bump: bumps.treasury,
            mint_authority_bump: bumps.mint_authority,
            usds_mint: ctx.usds_mint,
            treasury_token_account: ctx.treasury_token_account,
            usdc_mint: ctx.usdc_mint,
        },
    );
    Ok(())
}

impl SwapUsdcToUsds {
    /// Whether both token accounts of the user are the user's own.
    pub open spec fn user_owns_accounts(&self) -> bool {
        self.user_usdc.owner == self.user && self.user_usds.owner == self.user
    }

    /// Whether the custody account and the mint are those of the settings.
    pub open spec fn accounts_match_config(&self) -> bool {
        &&& self.treasury_token_account == self.config.treasury_token_account
        &&& self.usds_mint == self.config.usds_mint
    }

    /// The swap of `amount` that these accounts stand for: the user's stable
    /// tokens go into custody, signed by the user, then as many synthetic
    /// tokens are minted to the user, signed for the mint authority.
    pub open spec fn plan(&self, amount: u64) -> SwapPlan {
        SwapPlan {
            debit: SwapLeg {
                call: TokenCall::Transfer {
                    from: self.user_usdc.key,
                    to: self.treasury_token_account,
                    authority: self.user,
                    amount,
                },
                signer: Signer::User,
            },
            credit: SwapLeg {
                call: TokenCall::MintTo {
                    mint: self.usds_mint,
                    to: self.user_usds.key,
                    authority: self.mint_authority,
                    amount,
                },
                signer: Signer::MintAuthority { bump: self.config.mint_authority_bump },
            },
            event: SwapEvent {
                user: self.user,
                amount,
                swap_direction: SwapDirection::UsdcToUsds,
            },
        }
    }
}

/// Plans a swap of `amount` stable tokens for as many synthetic ones.
///
/// Fails with `Unauthorized` unless both token accounts offered belong to the
/// user, and else with `AddressMismatch` unless the custody account and the
/// mint are those of the settings. The plan holds the transfer into custody,
/// the mint to the user, and the event; see [`SwapPlan::advance`] for how it
/// is carried out.
pub fn swap_usdc_to_usds(ctx: &SwapUsdcToUsds, amount: u64) -> (r: Result<SwapPlan, LedgerError>)
    ensures
        r is Ok <==> ctx.user_owns_accounts() && ctx.accounts_match_config(),
        r matches Ok(plan) ==> plan == ctx.plan(amount),
        r matches Err(e) ==> e == (if !ctx.user_owns_accounts() {
            LedgerError::Unauthorized
        } else {
            LedgerError::AddressMismatch
        }),
{
    if !(ctx.user_usdc.owner == ctx.user && ctx.user_usds.owner == ctx.user) {
        return Err(LedgerError::Unauthorized);
    }
    if !(ctx.treasury_token_account == ctx.config.treasury_token_account && ctx.usds_mint
        == ctx.config.usds_mint) {
        return Err(LedgerError::AddressMismatch);
    }
    Ok(
        SwapPlan {
            debit: SwapLeg {
                call: TokenCall::Transfer {
                    from: ctx.user_usdc.key,
                    to: ctx.treasury_token_account,
                    authority: ctx.user,
                    amount,
                },
                signer: Signer::User,
            },
            credit: SwapLeg {
                call: TokenCall::MintTo {
                    mint: ctx.usds_mint,
                    to: ctx.user_usds.key,
                    authority: ctx.mint_authority,
                    amount,
                },
                signer: Signer::MintAuthority { bump: ctx.config.mint_authority_bump },
            },
            event: SwapEvent { user: ctx.user, amount, swap_direction: SwapDirection::UsdcToUsds },
        },
    )
}

impl SwapUsdsToUsdc {
    /// Whether both token accounts of the user are the user's own.
    pub open spec fn user_owns_accounts(&self) -> bool {
        self.user_usdc.owner == self.user && self.user_usds.owner == self.user
    }

    /// Whether the custody account and the mint are those of the settings.
    pub open spec fn accounts_match_config(&self) -> bool {
        &&& self.treasury_token_account == self.config.treasury_token_account
        &&& self.usds_mint == self.config.usds_mint
    }

    /// The swap of `amount` that these accounts stand for: the user's
    /// synthetic tokens are burnt, signed by the user, then as many stable
    /// tokens leave custody for the user, signed for the treasury.
    pub open spec fn plan(&self, amount: u64) -> SwapPlan {
        SwapPlan {
            debit: SwapLeg {
                call: TokenCall::Burn {
                    mint: self.usds_mint,
                    from: self.user_usds.key,
                    authority: self.user,
                    amount,
                },
                signer: Signer::User,
            },
            credit: SwapLeg {
                call: TokenCall::Transfer {
                    from: self.treasury_token_account,
                    to: self.user_usdc.key,
                    authority: self.treasury,
                    amount,
                },
                signer: Signer::Treasury { bump: self.config.treasury_bump },
            },
            event: SwapEvent {
                user: self.user,
                amount,
                swap_direction: SwapDirection::UsdsToUsdc,
            },
        }
    }
}

/// Plans a swap of `amount` synthetic tokens for as many stable ones.
///
/// Fails with `Unauthorized` unless both token accounts offered belong to the
/// user, and else with `AddressMismatch` unless the custody account and the
/// mint are those of the settings. The plan holds the burn, the transfer out
/// of custody, and the event; see [`SwapPlan::advance`] for how it is carried
/// out.
pub fn swap_usds_to_usdc(ctx: &SwapUsdsToUsdc, amount: u64) -> (r: Result<SwapPlan, LedgerError>)
    ensures
        r is Ok <==> ctx.user_owns_accounts() && ctx.accounts_match_config(),
        r matches Ok(plan) ==> plan == ctx.plan(amount),
        r matches Err(e) ==> e == (if !ctx.user_owns_accounts() {
            LedgerError::Unauthorized
        } else {
            LedgerError::AddressMismatch
        }),
{
    if !(ctx.user_usdc.owner == ctx.user && ctx.user_usds.owner == ctx.user) {
        return Err(LedgerError::Unauthorized);
    }
    if !(ctx.treasury_token_account == ctx.config.treasury_token_account && ctx.usds_mint
        == ctx.config.usds_mint) {
        return Err(LedgerError::AddressMismatch);
    }
    Ok(
        SwapPlan {
            debit: SwapLeg {
                call: TokenCall::Burn {
                    mint: ctx.usds_mint,
                    from: ctx.user_usds.key,
                    authority: ctx.user,
                    amount,
                },
                signer: Signer::User,
            },
            credit: SwapLeg {
                call: TokenCall::Transfer {
                    from: ctx.treasury_token_account,
                    to: ctx.user_usdc.key,
                    authority: ctx.treasury,
                    amount,
                },
                signer: Signer::Treasury { bump: ctx.config.treasury_bump },
            },
            event: SwapEvent { user: ctx.user, amount, swap_direction: SwapDirection::UsdsToUsdc },
        },
    )
}

/// The error with which a strategy of these values is refused, if it is: the
/// first of an allocation above 100, a risk score above 100 and a target
/// yield of zero.
pub open spec fn strategy_arguments_error(
    allocation_percentage: u8,
    target_apy: u64,
    risk_score: u8,
) -> Option<DeltaNeutralError> {
    if allocation_percentage > MAX_PERCENT {
        Some(DeltaNeutralError::InvalidAllocationPercentage)
    } else if risk_score > MAX_PERCENT {
        Some(DeltaNeutralError::InvalidRiskScore)
    } else if target_apy == 0 {
        Some(DeltaNeutralError::InvalidTargetApy)
    } else {
        None
    }
}

impl InitializeStrategy {
    /// The error with which the creation of a strategy fails on these
    /// accounts and arguments, if it does.
    pub open spec fn failure(
        &self,
        allocation_percentage: u8,
        target_apy: u64,
        risk_score: u8,
    ) -> Option<LedgerError> {
        if self.strategy.data is Some {
            Some(LedgerError::AlreadyInitialized)
        } else if self.treasury_token_account != self.config.treasury_token_account {
            Some(LedgerError::AddressMismatch)
        } else {
            match strategy_arguments_error(allocation_percentage, target_apy, risk_score) {
                Some(e) => Some(LedgerError::DeltaNeutral(e)),
                None => None,
            }
        }
    }
}

/// Creates a strategy of the treasury, paused, with the caller as its
/// authority, and counts it in the statistics of the treasury.
///
/// Fails, in this order, with `AlreadyInitialized` where the strategy exists,
/// `AddressMismatch` where the custody account is not that of the settings,
/// `InvalidAllocationPercentage` for an allocation above 100,
/// `InvalidRiskScore` for a risk score above 100 and `InvalidTargetApy` for a
/// target yield of zero.
///
/// The statistics are created with the first strategy, for this treasury and
/// with this caller as the authority of the treasury. Statistics that exist
/// stay as they are, but for the count and the time of the last change: no
/// total is reset, and no later caller becomes the authority. A record that
/// holds nothing but zeros counts as missing.
pub fn initialize_strategy(
    ctx: &mut InitializeStrategy,
    bumps: &InitializeStrategyBumps,
    strategy_type: StrategyType,
    allocation_percentage: u8,
    target_apy: u64,
    risk_score: u8,
    now: i64,
) -> (r: Result<StrategyInitializedEvent, LedgerError>)
    ensures
        match old(ctx).failure(allocation_percentage, target_apy, risk_score) {
            Some(e) => r == Err::<StrategyInitializedEvent, LedgerError>(e)
                && *final(ctx) == *old(ctx),
            None => {
                &&& r == Ok::<StrategyInitializedEvent, LedgerError>(
                    StrategyInitializedEvent {
                        strategy: old(ctx).strategy.key,
                        strategy_type,
                        allocation_percentage,
                        target_apy,
                        risk_score,
                        initialized_by: old(ctx).authority,
                        timestamp: now,
                    },
                )
                &&& final(ctx).authority == old(ctx).authority
                &&& final(ctx).config == old(ctx).config
                &&& final(ctx).treasury == old(ctx).treasury
                &&& final(ctx).treasury_token_account == old(ctx).treasury_token_account
                &&& final(ctx).strategy.key == old(ctx).strategy.key
                &&& final(ctx).treasury_stats.key == old(ctx).treasury_stats.key
                &&& final(ctx).strategy.data matches Some(strategy) && strategy.is_initial(
                    old(ctx).authority,
                    strategy_type,
                    allocation_percentage,
                    target_apy,
                    risk_score,
                    old(ctx).treasury,
                    old(ctx).treasury_token_account,
                    now,
                    bumps.strategy,
                ) && strategy.is_valid()
                &&& final(ctx).treasury_stats.data == Some(
                    TreasuryStats::with_new_strategy(
                        old(ctx).treasury_stats.data,
                        old(ctx).treasury,
                        old(ctx).authority,
                        bumps.treasury_stats,
                        now,
                    ),
                )
            },
        },
        r is Ok ==> match (old(ctx).treasury_stats.data, final(ctx).treasury_stats.data) {
            (Some(before), Some(after)) => {
                &&& after.same_totals(&before)
                &&& after.strategies_count >= before.strategies_count
                &&& after.active_strategies_count == before.active_strategies_count
                &&& before.is_consistent() ==> after.is_consistent()
                &&& before.has_history() ==> after == (TreasuryStats {
                    strategies_count: count_up(before.strategies_count),
                    last_updated_ts: now,
                    ..before
                })
                &&& before.has_history() ==> after.treasury_authority
                    == before.treasury_authority
            },
            (Some(_), None) => false,
            (None, _) => true,
        },
{
    if ctx.strategy.data.is_some() {
        return Err(LedgerError::AlreadyInitialized);
    }
    if ctx.treasury_token_account != ctx.config.treasury_token_account {
        return Err(LedgerError::AddressMismatch);
    }
    if allocation_percentage > MAX_PERCENT {
        return Err(LedgerError::DeltaNeutral(DeltaNeutralError::InvalidAllocationPercentage));
    }
    if risk_score > MAX_PERCENT {
        return Err(LedgerError::DeltaNeutral(DeltaNeutralError::InvalidRiskScore));
    }
    if target_apy == 0 {
        return Err(LedgerError::DeltaNeutral(DeltaNeutralError::InvalidTargetApy));
    }
    let strategy = Strategy {
        authority: ctx.authority,
        strategy_type,
        state: StrategyState::Paused,
        allocation_percentage,
        target_apy,
        current_apy: 0,
        treasury: ctx.treasury,
        treasury_token_account: ctx.treasury_token_account,
        strategy_token_accounts: [Address::default(); 5],
        strategy_data: [0u8; 1024],
        last_rebalance_ts: now,
        risk_score,
        created_at: now,
        bump: bumps.strategy,
    };
    ctx.strategy.data = Some(strategy);

    let opened = TreasuryStats {
        total_usdc_deposited: 0,
        total_usdc_withdrawn: 0,
        total_yield_generated: 0,
        current_portfolio_value: 0,
        strategies_count: 0,
        active_strategies_count: 0,
        last_updated_ts: now,
        treasury: ctx.treasury,
        treasury_authority: ctx.authority,
        bump: bumps.treasury_stats,
    };
    let mut stats = match ctx.treasury_stats.data {
        Some(existing) => if existing.is_blank() {
            opened
        } else {
            existing
        },
        None => opened,
    };
    stats.strategies_count = stats.strategies_count.saturating_add(1);
    stats.last_updated_ts = now;
    ctx.treasury_stats.data = Some(stats);

    assert(strategy.strategy_data@ =~= Seq::new(1024, |k: int| 0u8));
    Ok(
        StrategyInitializedEvent {
            strategy: ctx.strategy.key,
            strategy_type,
            allocation_percentage,
            target_apy,
            risk_score,
            initialized_by: ctx.authority,
            timestamp: now,
        },
    )
}

/// A change asked of an existing strategy.
#[derive(Clone, Copy, Debug, PartialEq, Eq, Structural)]
pub enum StrategyOp {
    Activate,
    Pause,
    Terminate,
    UpdateAllocation { new_allocation: u8 },
    UpdateApy { new_apy: u64 },
}

impl UpdateStrategy {
    /// The error with which `op` fails on these accounts, if it does.
    ///
    /// Every change is the authority's alone. Any strategy but an active one
    /// is activated, and only an active one paused; any strategy is
    /// terminated, a terminated one too. An allocation is at most 100; any
    /// yield is recorded.
    pub open spec fn failure(&self, op: StrategyOp) -> Option<LedgerError> {
        if !self.is_authorized() {
            Some(LedgerError::Unauthorized)
        } else {
            match op {
                StrategyOp::Activate => if self.strategy.data.state == StrategyState::Active {
                    Some(LedgerError::DeltaNeutral(DeltaNeutralError::StrategyAlreadyActive))
                } else {
                    None
                },
                StrategyOp::Pause => if self.strategy.data.state != StrategyState::Active {
                    Some(LedgerError::DeltaNeutral(DeltaNeutralError::StrategyNotActive))
                } else {
                    None
                },
                StrategyOp::Terminate => None,
                StrategyOp::UpdateAllocation { new_allocation } => if new_allocation
                    > MAX_PERCENT {
                    Some(
                        LedgerError::DeltaNeutral(DeltaNeutralError::InvalidAllocationPercentage),
                    )
                } else {
                    None
                },
                StrategyOp::UpdateApy { new_apy } => None,
            }
        }
    }

    /// The strategy once `op` has taken place at `now`.
    pub open spec fn strategy_after(&self, op: StrategyOp, now: i64) -> Strategy {
        let strategy = self.strategy.data;
        match op {
            StrategyOp::Activate => Strategy {
                state: StrategyState::Active,
                last_rebalance_ts: now,
                ..strategy
            },
            StrategyOp::Pause => Strategy { state: StrategyState::Paused, ..strategy },
            StrategyOp::Terminate => Strategy { state: StrategyState::Terminated, ..strategy },
            StrategyOp::UpdateAllocation { new_allocation } => Strategy {
                allocation_percentage: new_allocation,
                ..strategy
            },
            StrategyOp::UpdateApy { new_apy } => Strategy { current_apy: new_apy, ..strategy },
        }
    }

    /// The number of active strategies once `op` has taken place: one more
    /// after an activation, one less after an active strategy was paused or
    /// terminated, never above 255 nor below zero.
    pub open spec fn active_count_after(&self, op: StrategyOp) -> u8 {
        let active = self.treasury_stats.data.active_strategies_count;
        match op {
            StrategyOp::Activate => count_up(active),
            StrategyOp::Pause => count_down(active),
            StrategyOp::Terminate => if self.strategy.data.state == StrategyState::Active {
                count_down(active)
            } else {
                active
            },
            StrategyOp::UpdateAllocation { new_allocation } => active,
            StrategyOp::UpdateApy { new_apy } => active,
        }
    }

    /// The statistics once `op` has taken place at `now`: the number of
    /// active strategies follows the strategy, the time of the last change is
    /// `now`, and the rest stays.
    pub open spec fn stats_after(&self, op: StrategyOp, now: i64) -> TreasuryStats {
        TreasuryStats {
            active_strategies_count: self.active_count_after(op),
            last_updated_ts: now,
            ..self.treasury_stats.data
        }
    }

    /// The accounts once `op` has taken place at `now`.
    pub open spec fn after(&self, op: StrategyOp, now: i64) -> UpdateStrategy {
        UpdateStrategy {
            authority: self.authority,
            strategy: Account { key: self.strategy.key, data: self.strategy_after(op, now) },
            treasury_stats: Account {
                key: self.treasury_stats.key,
                data: self.stats_after(op, now),
            },
        }
    }

    /// The event of a change of state that has taken place at `now`.
    pub open spec fn state_changed(
        &self,
        new_state: StrategyState,
        now: i64,
    ) -> StrategyStateChangedEvent {
        StrategyStateChangedEvent {
            strategy: self.strategy.key,
            old_state: self.strategy.data.state,
            new_state,
            timestamp: now,
            performed_by: self.authority,
        }
    }
}

/// Activates a strategy: it becomes active, its last rebalance is `now`, and
/// the statistics count one more active strategy, up to 255.
///
/// Fails with `Unauthorized` unless the caller is the strategy's authority,
/// and with `StrategyAlreadyActive` where the strategy is active. It is not
/// refused for a terminated strategy: termination bars a strategy from being
/// paused, and its authority can activate it again.
pub fn activate_strategy(ctx: &mut UpdateStrategy, now: i64) -> (r: Result<
    StrategyStateChangedEvent,
    LedgerError,
>)
    ensures
        match old(ctx).failure(StrategyOp::Activate) {
            Some(e) => r == Err::<StrategyStateChangedEvent, LedgerError>(e) && *final(ctx)
                == *old(ctx),
            None => r == Ok::<StrategyStateChangedEvent, LedgerError>(
                old(ctx).state_changed(StrategyState::Active, now),
            ) && *final(ctx) == old(ctx).after(StrategyOp::Activate, now),
        },
        r is Ok <==> old(ctx).is_authorized() && old(ctx).strategy.data.state
            != StrategyState::Active,
        r is Ok ==> final(ctx).strategy.data.state == StrategyState::Active,
        old(ctx).strategy.data.is_valid() ==> final(ctx).strategy.data.is_valid(),
        final(ctx).treasury_stats.data.strategies_count
            == old(ctx).treasury_stats.data.strategies_count,
        old(ctx).treasury_stats.data.active_strategies_count
            < old(ctx).treasury_stats.data.strategies_count
            ==> final(ctx).treasury_stats.data.is_consistent(),
{
    if ctx.authority != ctx.strategy.data.authority {
        return Err(LedgerError::Unauthorized);
    }
    if ctx.strategy.data.state == StrategyState::Active {
        return Err(LedgerError::DeltaNeutral(DeltaNeutralError::StrategyAlreadyActive));
    }
    let old_state = ctx.strategy.data.state;
    ctx.strategy.data.state = StrategyState::Active;
    ctx.strategy.data.last_rebalance_ts = now;
    ctx.treasury_stats.data.active_strategies_count =
        ctx.treasury_stats.data.active_strategies_count.saturating_add(1);
    ctx.treasury_stats.data.last_updated_ts = now;
    Ok(
        StrategyStateChangedEvent {
            strategy: ctx.strategy.key,
            old_state,
            new_state: StrategyState::Active,
            timestamp: now,
            performed_by: ctx.authority,
        },
    )
}

/// Pauses an active strategy: it becomes paused, and the statistics count one
/// active strategy less, down to zero.
///
/// Fails with `Unauthorized` unless the caller is the strategy's authority,
/// and with `StrategyNotActive` where the strategy is paused or terminated.
pub fn pause_strategy(ctx: &mut UpdateStrategy, now: i64) -> (r: Result<
    StrategyStateChangedEvent,
    LedgerError,
>)
    ensures
        match old(ctx).failure(StrategyOp::Pause) {
            Some(e) => r == Err::<StrategyStateChangedEvent, LedgerError>(e) && *final(ctx)
                == *old(ctx),
            None => r == Ok::<StrategyStateChangedEvent, LedgerError>(
                old(ctx).state_changed(StrategyState::Paused, now),
            ) && *final(ctx) == old(ctx).after(StrategyOp::Pause, now),
        },
        r is Ok <==> old(ctx).is_authorized() && old(ctx).strategy.data.state
            == StrategyState::Active,
        r is Ok ==> final(ctx).strategy.data.state == StrategyState::Paused,
        old(ctx).strategy.data.is_valid() ==> final(ctx).strategy.data.is_valid(),
        final(ctx).treasury_stats.data.strategies_count
            == old(ctx).treasury_stats.data.strategies_count,
        old(ctx).treasury_stats.data.is_consistent()
            ==> final(ctx).treasury_stats.data.is_consistent(),
{
    if ctx.authority != ctx.strategy.data.authority {
        return Err(LedgerError::Unauthorized);
    }
    if ctx.strategy.data.state != StrategyState::Active {
        return Err(LedgerError::DeltaNeutral(DeltaNeutralError::StrategyNotActive));
    }
    let old_state = ctx.strategy.data.state;
    ctx.strategy.data.state = StrategyState::Paused;
    ctx.treasury_stats.data.active_strategies_count =
        ctx.treasury_stats.data.active_strategies_count.saturating_sub(1);
    ctx.treasury_stats.data.last_updated_ts = now;
    Ok(
        StrategyStateChangedEvent {
            strategy: ctx.strategy.key,
            old_state,
            new_state: StrategyState::Paused,
            timestamp: now,
            performed_by: ctx.authority,
        },
    )
}

/// Terminates a strategy, whatever its state: it becomes terminated. Where it
/// was active, the statistics count one active strategy less, down to zero.
/// To terminate a terminated strategy changes nothing but the time of the
/// last change, and succeeds.
///
/// Fails with `Unauthorized` unless the caller is the strategy's authority.
pub fn terminate_strategy(ctx: &mut UpdateStrategy, now: i64) -> (r: Result<
    StrategyStateChangedEvent,
    LedgerError,
>)
    ensures
        match old(ctx).failure(StrategyOp::Terminate) {
            Some(e) => r == Err::<StrategyStateChangedEvent, LedgerError>(e) && *final(ctx)
                == *old(ctx),
            None => r == Ok::<StrategyStateChangedEvent, LedgerError>(
                old(ctx).state_changed(StrategyState::Terminated, now),
            ) && *final(ctx) == old(ctx).after(StrategyOp::Terminate, now),
        },
        r is Ok <==> old(ctx).is_authorized(),
        r is Ok ==> final(ctx).strategy.data.state == StrategyState::Terminated,
        old(ctx).strategy.data.is_valid() ==> final(ctx).strategy.data.is_valid(),
        final(ctx).treasury_stats.data.strategies_count
            == old(ctx).treasury_stats.data.strategies_count,
        old(ctx).treasury_stats.data.is_consistent()
            ==> final(ctx).treasury_stats.data.is_consistent(),
{
    if ctx.authority != ctx.strategy.data.authority {
        return Err(LedgerError::Unauthorized);
    }
    let old_state = ctx.strategy.data.state;
    ctx.strategy.data.state = StrategyState::Terminated;
    if old_state == StrategyState::Active {
        ctx.treasury_stats.data.active_strategies_count =
            ctx.treasury_stats.data.active_strategies_count.saturating_sub(1);
    }
    ctx.treasury_stats.data.last_updated_ts = now;
    Ok(
        StrategyStateChangedEvent {
            strategy: ctx.strategy.key,
            old_state,
            new_state: StrategyState::Terminated,
            timestamp: now,
            performed_by: ctx.authority,
        },
    )
}

/// Sets the share of the treasury assigned to the strategy. The state of the
/// strategy stays as it is.
///
/// Fails with `Unauthorized` unless the caller is the strategy's authority,
/// and with `InvalidAllocationPercentage` for a share above 100.
pub fn update_allocation(ctx: &mut UpdateStrategy, new_allocation: u8, now: i64) -> (r: Result<
    RebalanceEvent,
    LedgerError,
>)
    ensures
        match old(ctx).failure(StrategyOp::UpdateAllocation { new_allocation }) {
            Some(e) => r == Err::<RebalanceEvent, LedgerError>(e) && *final(ctx) == *old(ctx),
            None => r == Ok::<RebalanceEvent, LedgerError>(
                RebalanceEvent {
                    strategy: old(ctx).strategy.key,
                    old_allocation: old(ctx).strategy.data.allocation_percentage,
                    new_allocation,
                    timestamp: now,
                    performed_by: old(ctx).authority,
                },
            ) && *final(ctx) == old(ctx).after(
                StrategyOp::UpdateAllocation { new_allocation },
                now,
            ),
        },
        r is Ok ==> final(ctx).strategy.data.allocation_percentage == new_allocation
            && new_allocation <= MAX_PERCENT,
        old(ctx).strategy.data.is_valid() ==> final(ctx).strategy.data.is_valid(),
        final(ctx).treasury_stats.data.strategies_count
            == old(ctx).treasury_stats.data.strategies_count,
        old(ctx).treasury_stats.data.is_consistent()
            ==> final(ctx).treasury_stats.data.is_consistent(),
{
    if ctx.authority != ctx.strategy.data.authority {
        return Err(LedgerError::Unauthorized);
    }
    if new_allocation > MAX_PERCENT {
        return Err(LedgerError::DeltaNeutral(DeltaNeutralError::InvalidAllocationPercentage));
    }
    let old_allocation = ctx.strategy.data.allocation_percentage;
    ctx.strategy.data.allocation_percentage = new_allocation;
    ctx.treasury_stats.data.last_updated_ts = now;
    Ok(
        RebalanceEvent {
            strategy: ctx.strategy.key,
            old_allocation,
            new_allocation,
            timestamp: now,
            performed_by: ctx.authority,
        },
    )
}

/// Records the yield that the strategy reports, in basis points. Any value is
/// taken, and the state of the strategy stays as it is.
///
/// Fails with `Unauthorized` unless the caller is the strategy's authority.
pub fn update_apy(ctx: &mut UpdateStrategy, new_apy: u64, now: i64) -> (r: Result<
    YieldReportEvent,
    LedgerError,
>)
    ensures
        match old(ctx).failure(StrategyOp::UpdateApy { new_apy }) {
            Some(e) => r == Err::<YieldReportEvent, LedgerError>(e) && *final(ctx) == *old(ctx),
            None => r == Ok::<YieldReportEvent, LedgerError>(
                YieldReportEvent {
                    strategy: old(ctx).strategy.key,
                    previous_apy: old(ctx).strategy.data.current_apy,
                    current_apy: new_apy,
                    timestamp: now,
                },
            ) && *final(ctx) == old(ctx).after(StrategyOp::UpdateApy { new_apy }, now),
        },
        r is Ok <==> old(ctx).is_authorized(),
        r is Ok ==> final(ctx).strategy.data.current_apy == new_apy,
        old(ctx).strategy.data.is_valid() ==> final(ctx).strategy.data.is_valid(),
        final(ctx).treasury_stats.data.strategies_count
            == old(ctx).treasury_stats.data.strategies_count,
        old(ctx).treasury_stats.data.is_consistent()
            ==> final(ctx).treasury_stats.data.is_consistent(),
{
    if ctx.authority != ctx.strategy.data.authority {
        return Err(LedgerError::Unauthorized);
    }
    let previous_apy = ctx.strategy.data.current_apy;
    ctx.strategy.data.current_apy = new_apy;
    ctx.treasury_stats.data.last_updated_ts = now;
    Ok(
        YieldReportEvent {
            strategy: ctx.strategy.key,
            previous_apy,
            current_apy: new_apy,
            timestamp: now,
        },
    )
}

impl UpdateStrategy {
    /// What `op` emits when it takes place at `now`.
    pub open spec fn event_of(&self, op: StrategyOp, now: i64) -> StrategyEvent {
        match op {
            StrategyOp::Activate => StrategyEvent::StateChanged(
                self.state_changed(StrategyState::Active, now),
            ),
            StrategyOp::Pause => StrategyEvent::StateChanged(
                self.state_changed(StrategyState::Paused, now),
            ),
            StrategyOp::Terminate => StrategyEvent::StateChanged(
                self.state_changed(StrategyState::Terminated, now),
            ),
            StrategyOp::UpdateAllocation { new_allocation } => StrategyEvent::Rebalance(
                RebalanceEvent {
                    strategy: self.strategy.key,
                    old_allocation: self.strategy.data.allocation_percentage,
                    new_allocation,
                    timestamp: now,
                    performed_by: self.authority,
                },
            ),
            StrategyOp::UpdateApy { new_apy } => StrategyEvent::YieldReport(
                YieldReportEvent {
                    strategy: self.strategy.key,
                    previous_apy: self.strategy.data.current_apy,
                    current_apy: new_apy,
                    timestamp: now,
                },
            ),
        }
    }
}

/// Carries out `op` on a strategy: one of [`activate_strategy`],
/// [`pause_strategy`], [`terminate_strategy`], [`update_allocation`] and
/// [`update_apy`], with its error or its event.
pub fn update_strategy(ctx: &mut UpdateStrategy, op: StrategyOp, now: i64) -> (r: Result<
    StrategyEvent,
    LedgerError,
>)
    ensures
        match old(ctx).failure(op) {
            Some(e) => r == Err::<StrategyEvent, LedgerError>(e) && *final(ctx) == *old(ctx),
            None => r == Ok::<StrategyEvent, LedgerError>(old(ctx).event_of(op, now))
                && *final(ctx) == old(ctx).after(op, now),
        },
        old(ctx).strategy.data.is_valid() ==> final(ctx).strategy.data.is_valid(),
{
    match op {
        StrategyOp::Activate => match activate_strategy(ctx, now) {
            Ok(event) => Ok(StrategyEvent::StateChanged(event)),
            Err(e) => Err(e),
        },
        StrategyOp::Pause => match pause_strategy(ctx, now) {
            Ok(event) => Ok(StrategyEvent::StateChanged(event)),
            Err(e) => Err(e),
        },
        StrategyOp::Terminate => match terminate_strategy(ctx, now) {
            Ok(event) => Ok(StrategyEvent::StateChanged(event)),
            Err(e) => Err(e),
        },
        StrategyOp::UpdateAllocation { new_allocation } => match update_allocation(
            ctx,
            new_allocation,
            now,
        ) {
            Ok(event) => Ok(StrategyEvent::Rebalance(event)),
            Err(e) => Err(e),
        },
        StrategyOp::UpdateApy { new_apy } => match update_apy(ctx, new_apy, now) {
            Ok(event) => Ok(StrategyEvent::YieldReport(event)),
            Err(e) => Err(e),
        },
    }
}

/// The sum of a total and an amount, or the largest total where the sum does
/// not fit in 64 bits.
pub open spec fn total_plus(total: u64, amount: u64) -> u64 {
    if total + amount > u64::MAX {
        u64::MAX
    } else {
        (total + amount) as u64
    }
}

impl ReportYield {
    /// The statistics once the yield was reported at `now`.
    pub open spec fn stats_after(
        &self,
        yield_amount: u64,
        new_portfolio_value: u64,
        now: i64,
    ) -> TreasuryStats {
        TreasuryStats {
            total_yield_generated: total_plus(
                self.treasury_stats.data.total_yield_generated,
                yield_amount,
            ),
            current_portfolio_value: new_portfolio_value,
            last_updated_ts: now,
            ..self.treasury_stats.data
        }
    }

    /// What a report of yield emits when it takes place at `now`.
    pub open spec fn event_of(
        &self,
        yield_amount: u64,
        new_portfolio_value: u64,
        now: i64,
    ) -> YieldGeneratedEvent {
        YieldGeneratedEvent {
            treasury: self.treasury,
            yield_amount,
            new_portfolio_value,
            timestamp: now,
            reported_by: self.authority,
        }
    }
}

/// Reports yield for a treasury as a whole: `yield_amount` is added to the
/// yield generated so far, which stops at the largest total, and the value of
/// the portfolio is replaced.
///
/// Fails with `Unauthorized` unless the caller is the authority of the
/// treasury that the statistics name.
pub fn report_yield(
    ctx: &mut ReportYield,
    yield_amount: u64,
    new_portfolio_value: u64,
    now: i64,
) -> (r: Result<YieldGeneratedEvent, LedgerError>)
    ensures
        r is Ok <==> old(ctx).is_authorized(),
        r is Err ==> r == Err::<YieldGeneratedEvent, LedgerError>(LedgerError::Unauthorized)
            && *final(ctx) == *old(ctx),
        r is Ok ==> {
            &&& r == Ok::<YieldGeneratedEvent, LedgerError>(
                old(ctx).event_of(yield_amount, new_portfolio_value, now),
            )
            &&& *final(ctx) == (ReportYield {
                treasury_stats: Account {
                    key: old(ctx).treasury_stats.key,
                    data: old(ctx).stats_after(yield_amount, new_portfolio_value, now),
                },
                ..*old(ctx)
            })
        },
        final(ctx).treasury_stats.data.strategies_count
            == old(ctx).treasury_stats.data.strategies_count,
        old(ctx).treasury_stats.data.is_consistent()
            ==> final(ctx).treasury_stats.data.is_consistent(),
{
    if ctx.authority != ctx.treasury_stats.data.treasury_authority {
        return Err(LedgerError::Unauthorized);
    }
    ctx.treasury_stats.data.total_yield_generated =
        ctx.treasury_stats.data.total_yield_generated.saturating_add(yield_amount);
    ctx.treasury_stats.data.current_portfolio_value = new_portfolio_value;
    ctx.treasury_stats.data.last_updated_ts = now;
    Ok(
        YieldGeneratedEvent {
            treasury: ctx.treasury,
            yield_amount,
            new_portfolio_value,
            timestamp: now,
            reported_by: ctx.authority,
        },
    )
}

} // verus!
