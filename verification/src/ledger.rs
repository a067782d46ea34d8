//! The records of one treasury kept together: its statistics and all its
//! strategies, each under the address that the program derives for it. Every
//! operation reads the records it needs, and writes them back only where it
//! took place.
//!
//! What the single operations cannot see is kept here: that the statistics
//! count the strategies that exist, and count as active only strategies that
//! are active.

use crate::accounts::{
    is_derived, strategy_seed_list, strategy_seeds, treasury_seeds, treasury_stats_seed_list,
    treasury_stats_seeds, Account, Config, InitializeStrategy, ReportYield, UpdateStrategy,
};
use crate::address::{
    address_of, canonical_address, find_program_address, lemma_address_of,
    lemma_canonical_address, Address, MAX_SEED_LEN,
};
use crate::delta_neutral::{Strategy, StrategyState, StrategyType, TreasuryStats};
use crate::error::LedgerError;
use crate::events::{StrategyEvent, StrategyInitializedEvent, YieldGeneratedEvent};
use crate::program::{initialize_strategy, report_yield, update_strategy, StrategyOp};
use crate::store::{distinct_keys, lemma_position, position_of, record_at, RecordStore};
use vstd::prelude::*;
use vstd::string::StringSliceAdditionalSpecFns;

verus! {

/// How many of `strategies` are active.
pub open spec fn active_count(strategies: Seq<Account<Strategy>>) -> nat
    decreases strategies.len(),
{
    if strategies.len() == 0 {
        0
    } else {
        active_count(strategies.drop_last()) + if strategies.last().data.state
            == StrategyState::Active {
            1nat
        } else {
            0nat
        }
    }
}

/// What a ledger holds.
pub struct LedgerView {
    /// The program that derives the addresses.
    pub program_id: Address,
    /// The treasury whose records these are.
    pub treasury: Address,
    /// Where the statistics are kept: the canonical address of the
    /// treasury's statistics.
    pub stats_key: Address,
    /// Bump of that address.
    pub stats_bump: u8,
    /// The statistics, once the first strategy was created.
    pub stats: Option<TreasuryStats>,
    /// The strategies, in the order of their creation.
    pub strategies: Seq<Account<Strategy>>,
}

impl LedgerView {
    /// The strategy kept under `key`, if there is one.
    pub open spec fn strategy(self, key: Address) -> Option<Strategy> {
        record_at(self.strategies, key)
    }

    /// What holds of a ledger at all times.
    ///
    /// The statistics are kept at their canonical address. No two strategies
    /// share an address. Every strategy is valid and belongs to this
    /// treasury. The statistics exist exactly where a strategy does, and are
    /// made out to this treasury; they count the strategies, up to 255, and
    /// they count as active no more strategies than are active, and exactly
    /// those while there are no more than 255 strategies.
    pub open spec fn wf(self) -> bool {
        &&& canonical_address(treasury_stats_seeds(self.treasury), self.program_id@) == Some(
            (self.stats_key@, self.stats_bump),
        )
        &&& distinct_keys(self.strategies)
        &&& forall|i: int|
            0 <= i < self.strategies.len() ==> (#[trigger] self.strategies[i]).data.is_valid()
                && self.strategies[i].data.treasury == self.treasury
        &&& match self.stats {
            None => self.strategies.len() == 0,
            Some(stats) => {
                &&& self.strategies.len() >= 1
                &&& stats.treasury == self.treasury
                &&& stats.bump == self.stats_bump
                &&& stats.strategies_count == if self.strategies.len() <= 255 {
                    self.strategies.len()
                } else {
                    255
                }
                &&& stats.active_strategies_count <= active_count(self.strategies)
                &&& self.strategies.len() <= 255 ==> stats.active_strategies_count
                    == active_count(self.strategies)
            },
        }
    }

    /// The accounts that the creation of a strategy under `strategy_key`
    /// works on.
    pub open spec fn initialize_accounts(
        self,
        authority: Address,
        config: Config,
        treasury_token_account: Address,
        strategy_key: Address,
    ) -> InitializeStrategy {
        InitializeStrategy {
            authority,
            config,
            treasury: self.treasury,
            treasury_token_account,
            strategy: Account { key: strategy_key, data: self.strategy(strategy_key) },
            treasury_stats: Account { key: self.stats_key, data: self.stats },
        }
    }

    /// The accounts that a change of the strategy kept under `key` works on.
    pub open spec fn update_accounts(self, authority: Address, key: Address) -> UpdateStrategy {
        UpdateStrategy {
            authority,
            strategy: Account { key, data: self.strategy(key).unwrap() },
            treasury_stats: Account { key: self.stats_key, data: self.stats.unwrap() },
        }
    }

    /// The accounts that a report of yield works on.
    pub open spec fn report_accounts(self, authority: Address) -> ReportYield {
        ReportYield {
            authority,
            treasury: self.treasury,
            treasury_stats: Account { key: self.stats_key, data: self.stats.unwrap() },
        }
    }
}

/// As many strategies are active as before when one is added that is not
/// active, and one more when it is.
pub proof fn lemma_active_count_push(strategies: Seq<Account<Strategy>>, added: Account<Strategy>)
    ensures
        active_count(strategies.push(added)) == active_count(strategies) + if added.data.state
            == StrategyState::Active {
            1nat
        } else {
            0nat
        },
{
    assert(strategies.push(added).drop_last() =~= strategies);
}

/// No more strategies are active than there are.
pub proof fn lemma_active_count_bound(strategies: Seq<Account<Strategy>>)
    ensures
        active_count(strategies) <= strategies.len(),
    decreases strategies.len(),
{
    if strategies.len() > 0 {
        lemma_active_count_bound(strategies.drop_last());
    }
}

/// Replacing one strategy changes the number of active ones by that strategy
/// alone: an active one among them is counted, before and after.
pub proof fn lemma_active_count_update(
    strategies: Seq<Account<Strategy>>,
    i: int,
    replaced: Account<Strategy>,
)
    requires
        0 <= i < strategies.len(),
    ensures
        active_count(strategies.update(i, replaced)) + (if strategies[i].data.state
            == StrategyState::Active {
            1nat
        } else {
            0nat
        }) == active_count(strategies) + (if replaced.data.state == StrategyState::Active {
            1nat
        } else {
            0nat
        }),
        strategies[i].data.state == StrategyState::Active ==> active_count(strategies) >= 1,
    decreases strategies.len(),
{
    let updated = strategies.update(i, replaced);
    if i == strategies.len() - 1 {
        assert(updated.drop_last() =~= strategies.drop_last());
    } else {
        lemma_active_count_update(strategies.drop_last(), i, replaced);
        assert(updated.drop_last() =~= strategies.drop_last().update(i, replaced));
    }
}

/// The statistics of a ledger never count more strategies as active than
/// they count strategies.
pub proof fn lemma_ledger_stats_consistent(ledger: LedgerView)
    requires
        ledger.wf(),
    ensures
        ledger.stats matches Some(stats) ==> stats.is_consistent(),
{
    lemma_active_count_bound(ledger.strategies);
}

/// Every strategy of a ledger is valid and belongs to its treasury: its
/// allocation and its risk score are at most 100.
pub proof fn lemma_ledger_strategies_valid(ledger: LedgerView, key: Address)
    requires
        ledger.wf(),
    ensures
        ledger.strategy(key) matches Some(strategy) ==> strategy.is_valid() && strategy.treasury
            == ledger.treasury,
{
    if ledger.strategy(key) is Some {
        let i = position_of(ledger.strategies, key);
        assert(ledger.strategies[i].data.is_valid());
    }
}

/// The statistics of a ledger pass, for each of its strategies, the test
/// that they sit at the address derived for the strategy's treasury.
pub proof fn lemma_ledger_statistics_verified(ledger: LedgerView, authority: Address, key: Address)
    requires
        ledger.wf(),
        ledger.strategy(key) is Some,
    ensures
        ledger.stats is Some,
        ledger.update_accounts(authority, key).seeds_match(ledger.program_id),
{
    lemma_canonical_address(treasury_stats_seeds(ledger.treasury), ledger.program_id@, 255);
    let i = position_of(ledger.strategies, key);
    assert(ledger.strategies[i].data.treasury == ledger.treasury);
}

/// The records of one treasury: its statistics and its strategies.
pub struct TreasuryLedger {
    program_id: Address,
    treasury: Address,
    stats_bump: u8,
    stats: Account<Option<TreasuryStats>>,
    strategies: RecordStore<Strategy>,
}

impl View for TreasuryLedger {
    type V = LedgerView;

    closed spec fn view(&self) -> LedgerView {
        LedgerView {
            program_id: self.program_id,
            treasury: self.treasury,
            stats_key: self.stats.key,
            stats_bump: self.stats_bump,
            stats: self.stats.data,
            strategies: self.strategies@,
        }
    }
}

impl TreasuryLedger {
    /// The ledger of `treasury` under the program `program_id`, with no
    /// records yet. There is none where the program derives no address for
    /// the statistics of the treasury.
    pub fn new(program_id: Address, treasury: Address) -> (r: Option<TreasuryLedger>)
        ensures
            match r {
                Some(ledger) => {
                    &&& ledger@.wf()
                    &&& ledger@.program_id == program_id
                    &&& ledger@.treasury == treasury
                    &&& ledger@.stats is None
                    &&& ledger@.strategies == Seq::<Account<Strategy>>::empty()
                },
                None => canonical_address(treasury_stats_seeds(treasury), program_id@) is None,
            },
    {
        match find_program_address(&treasury_stats_seed_list(&treasury), &program_id) {
            Some((stats_key, stats_bump)) => Some(
                TreasuryLedger {
                    program_id,
                    treasury,
                    stats_bump,
                    stats: Account { key: stats_key, data: None },
                    strategies: RecordStore::new(),
                },
            ),
            None => None,
        }
    }

    /// The program that derives the addresses.
    pub fn program_id(&self) -> (r: Address)
        ensures
            r == self@.program_id,
    {
        self.program_id
    }

    /// The treasury whose records these are.
    pub fn treasury(&self) -> (r: Address)
        ensures
            r == self@.treasury,
    {
        self.treasury
    }

    /// Where the statistics are kept.
    pub fn stats_key(&self) -> (r: Address)
        ensures
            r == self@.stats_key,
    {
        self.stats.key
    }

    /// The statistics, once the first strategy was created.
    pub fn stats(&self) -> (r: Option<TreasuryStats>)
        ensures
            r == self@.stats,
    {
        self.stats.data
    }

    /// How many strategies the ledger holds.
    pub fn len(&self) -> (r: usize)
        ensures
            r == self@.strategies.len(),
    {
        self.strategies.len()
    }

    /// The strategy kept under `key`, if there is one.
    pub fn strategy(&self, key: &Address) -> (r: Option<Strategy>)
        requires
            self@.wf(),
        ensures
            r == self@.strategy(*key),
    {
        self.strategies.read(key)
    }

    /// Creates the strategy that the treasury has under `strategy_seed`, as
    /// [`initialize_strategy`] does, at the canonical address of that seed,
    /// and keeps the new strategy and the statistics.
    ///
    /// Fails with `SeedsMismatch` where the seed has no address, as one of
    /// more than 32 bytes has none, and where the treasury is not at the
    /// address derived with the bump of the settings; else with the error of
    /// that operation. Where it fails, nothing changes.
    pub fn initialize_strategy(
        &mut self,
        authority: Address,
        config: &Config,
        treasury_token_account: Address,
        strategy_seed: &str,
        strategy_type: StrategyType,
        allocation_percentage: u8,
        target_apy: u64,
        risk_score: u8,
        now: i64,
    ) -> (r: Result<StrategyInitializedEvent, LedgerError>)
        requires
            old(self)@.wf(),
        ensures
            final(self)@.wf(),
            final(self)@.program_id == old(self)@.program_id,
            final(self)@.treasury == old(self)@.treasury,
            final(self)@.stats_key == old(self)@.stats_key,
            final(self)@.stats_bump == old(self)@.stats_bump,
            r is Err ==> final(self)@ == old(self)@,
            strategy_seed.spec_bytes().len() > MAX_SEED_LEN ==> r == Err::<
                StrategyInitializedEvent,
                LedgerError,
            >(LedgerError::SeedsMismatch),
            old(self)@.stats matches Some(before) ==> final(self)@.stats matches Some(after)
                && after.strategies_count >= before.strategies_count
                && after.active_strategies_count == before.active_strategies_count
                && after.same_totals(&before) && after.treasury_authority
                == before.treasury_authority,
            r matches Ok(event) ==> {
                &&& old(self)@.strategy(event.strategy) is None
                &&& final(self)@.strategy(event.strategy) matches Some(created)
                    && created.is_valid() && created.is_initial(
                    authority,
                    strategy_type,
                    allocation_percentage,
                    target_apy,
                    risk_score,
                    old(self)@.treasury,
                    treasury_token_account,
                    now,
                    created.bump,
                )
                &&& forall|other: Address|
                    other != event.strategy ==> #[trigger] final(self)@.strategy(other)
                        == old(self)@.strategy(other)
            },
            match canonical_address(
                strategy_seeds(old(self)@.treasury, strategy_seed.spec_bytes()),
                old(self)@.program_id@,
            ) {
                None => r == Err::<StrategyInitializedEvent, LedgerError>(
                    LedgerError::SeedsMismatch,
                ),
                Some((key_bytes, bump)) => {
                    let key = address_of(key_bytes);
                    let accounts = old(self)@.initialize_accounts(
                        authority,
                        *config,
                        treasury_token_account,
                        key,
                    );
                    if !is_derived(
                        old(self)@.treasury,
                        treasury_seeds(),
                        config.treasury_bump,
                        old(self)@.program_id,
                    ) {
                        r == Err::<StrategyInitializedEvent, LedgerError>(
                            LedgerError::SeedsMismatch,
                        )
                    } else {
                        match accounts.failure(allocation_percentage, target_apy, risk_score) {
                            Some(e) => r == Err::<StrategyInitializedEvent, LedgerError>(e),
                            None => {
                                &&& r == Ok::<StrategyInitializedEvent, LedgerError>(
                                    StrategyInitializedEvent {
                                        strategy: key,
                                        strategy_type,
                                        allocation_percentage,
                                        target_apy,
                                        risk_score,
                                        initialized_by: authority,
                                        timestamp: now,
                                    },
                                )
                                &&& final(self)@.strategies.len() == old(self)@.strategies.len()
                                    + 1
                                &&& final(self)@.strategies.drop_last() == old(self)@.strategies
                                &&& final(self)@.strategies.last().key == key
                                &&& final(self)@.strategies.last().data.is_initial(
                                    authority,
                                    strategy_type,
                                    allocation_percentage,
                                    target_apy,
                                    risk_score,
                                    old(self)@.treasury,
                                    treasury_token_account,
                                    now,
                                    bump,
                                )
                                &&& final(self)@.stats == Some(
                                    TreasuryStats::with_new_strategy(
                                        old(self)@.stats,
                                        old(self)@.treasury,
                                        authority,
                                        old(self)@.stats_bump,
                                        now,
                                    ),
                                )
                            },
                        }
                    }
                },
            },
    {
        let found = find_program_address(
            &strategy_seed_list(&self.treasury, strategy_seed),
            &self.program_id,
        );
        let key = match found {
            Some((key, _)) => key,
            None => {
                return Err(LedgerError::SeedsMismatch);
            },
        };
        proof {
            lemma_address_of(key);
        }
        let mut ctx = InitializeStrategy {
            authority,
            config: *config,
            treasury: self.treasury,
            treasury_token_account,
            strategy: Account { key, data: self.strategies.read(&key) },
            treasury_stats: self.stats,
        };
        let bumps = match ctx.verify_seeds(&self.program_id, strategy_seed) {
            Ok(bumps) => bumps,
            Err(e) => {
                return Err(e);
            },
        };
        let event = match initialize_strategy(
            &mut ctx,
            &bumps,
            strategy_type,
            allocation_percentage,
            target_apy,
            risk_score,
            now,
        ) {
            Ok(event) => event,
            Err(e) => {
                return Err(e);
            },
        };
        let created = ctx.strategy.data.unwrap();
        proof {
            let added = Account { key, data: created };
            lemma_active_count_push(old(self)@.strategies, added);
            assert(old(self)@.strategies.push(added).drop_last() =~= old(self)@.strategies);
        }
        match self.strategies.create(key, created) {
            Ok(()) => {},
            Err(e) => {
                return Err(e);
            },
        }
        self.stats = ctx.treasury_stats;
        Ok(event)
    }

    /// Carries out `op` on the strategy kept under `strategy_key`, as
    /// [`update_strategy`] does on the records of this ledger, and keeps the
    /// strategy and the statistics as they are afterwards. Fails with
    /// `NotInitialized` where no strategy is kept under the key, and else
    /// with the error of that operation; where it fails, nothing changes.
    pub fn update_strategy(
        &mut self,
        authority: Address,
        strategy_key: Address,
        op: StrategyOp,
        now: i64,
    ) -> (r: Result<StrategyEvent, LedgerError>)
        requires
            old(self)@.wf(),
        ensures
            final(self)@.wf(),
            final(self)@.program_id == old(self)@.program_id,
            final(self)@.treasury == old(self)@.treasury,
            final(self)@.stats_key == old(self)@.stats_key,
            final(self)@.stats_bump == old(self)@.stats_bump,
            r is Err ==> final(self)@ == old(self)@,
            final(self)@.strategies.len() == old(self)@.strategies.len(),
            old(self)@.stats matches Some(before) ==> final(self)@.stats matches Some(after)
                && after.strategies_count == before.strategies_count
                && after.same_totals(&before)
                && after.treasury_authority == before.treasury_authority,
            r is Ok ==> forall|other: Address|
                other != strategy_key ==> #[trigger] final(self)@.strategy(other)
                    == old(self)@.strategy(other),
            match old(self)@.strategy(strategy_key) {
                None => r == Err::<StrategyEvent, LedgerError>(LedgerError::NotInitialized),
                Some(_) => {
                    let accounts = old(self)@.update_accounts(authority, strategy_key);
                    match accounts.failure(op) {
                        Some(e) => r == Err::<StrategyEvent, LedgerError>(e),
                        None => {
                            &&& r == Ok::<StrategyEvent, LedgerError>(accounts.event_of(op, now))
                            &&& final(self)@.strategy(strategy_key) == Some(
                                accounts.strategy_after(op, now),
                            )
                            &&& final(self)@.stats == Some(accounts.stats_after(op, now))
                            &&& final(self)@.strategies == old(self)@.strategies.update(
                                position_of(old(self)@.strategies, strategy_key),
                                accounts.after(op, now).strategy,
                            )
                        },
                    }
                },
            },
    {
        let i = match self.strategies.find(&strategy_key) {
            Some(i) => i,
            None => {
                return Err(LedgerError::NotInitialized);
            },
        };
        let strategy = self.strategies.read(&strategy_key).unwrap();
        proof {
            lemma_position(old(self)@.strategies, i as int);
        }
        let mut ctx = UpdateStrategy {
            authority,
            strategy: Account { key: strategy_key, data: strategy },
            treasury_stats: Account { key: self.stats.key, data: self.stats.data.unwrap() },
        };
        let event = match update_strategy(&mut ctx, op, now) {
            Ok(event) => event,
            Err(e) => {
                return Err(e);
            },
        };
        proof {
            lemma_active_count_update(old(self)@.strategies, i as int, ctx.strategy);
            lemma_active_count_bound(old(self)@.strategies.update(i as int, ctx.strategy));
        }
        match self.strategies.write(&strategy_key, ctx.strategy.data) {
            Ok(()) => {},
            Err(e) => {
                return Err(e);
            },
        }
        self.stats = Account { key: self.stats.key, data: Some(ctx.treasury_stats.data) };
        Ok(event)
    }

    /// Reports yield for the treasury, as [`report_yield`] does on the
    /// statistics of this ledger. Fails with `NotInitialized` where the
    /// treasury has no statistics yet, and else with the error of that
    /// operation; where it fails, nothing changes.
    pub fn report_yield(
        &mut self,
        authority: Address,
        yield_amount: u64,
        new_portfolio_value: u64,
        now: i64,
    ) -> (r: Result<YieldGeneratedEvent, LedgerError>)
        requires
            old(self)@.wf(),
        ensures
            final(self)@.wf(),
            final(self)@.program_id == old(self)@.program_id,
            final(self)@.treasury == old(self)@.treasury,
            final(self)@.stats_key == old(self)@.stats_key,
            final(self)@.stats_bump == old(self)@.stats_bump,
            final(self)@.strategies == old(self)@.strategies,
            r is Err ==> final(self)@ == old(self)@,
            old(self)@.stats matches Some(before) ==> final(self)@.stats matches Some(after)
                && after.strategies_count == before.strategies_count
                && after.active_strategies_count == before.active_strategies_count
                && after.treasury_authority == before.treasury_authority,
            match old(self)@.stats {
                None => r == Err::<YieldGeneratedEvent, LedgerError>(LedgerError::NotInitialized),
                Some(stats) => {
                    let accounts = old(self)@.report_accounts(authority);
                    if !accounts.is_authorized() {
                        r == Err::<YieldGeneratedEvent, LedgerError>(LedgerError::Unauthorized)
                    } else {
                        &&& r == Ok::<YieldGeneratedEvent, LedgerError>(
                            accounts.event_of(yield_amount, new_portfolio_value, now),
                        )
                        &&& final(self)@.stats == Some(
                            accounts.stats_after(yield_amount, new_portfolio_value, now),
                        )
                    }
                },
            },
    {
        let stats = match self.stats.data {
            Some(stats) => stats,
            None => {
                return Err(LedgerError::NotInitialized);
            },
        };
        let mut ctx = ReportYield {
            authority,
            treasury: self.treasury,
            treasury_stats: Account { key: self.stats.key, data: stats },
        };
        let event = match report_yield(&mut ctx, yield_amount, new_portfolio_value, now) {
            Ok(event) => event,
            Err(e) => {
                return Err(e);
            },
        };
        self.stats = Account { key: self.stats.key, data: Some(ctx.treasury_stats.data) };
        Ok(event)
    }
}

} // verus!
