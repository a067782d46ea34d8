use std::str::FromStr;

use anchor_lang::prelude::Pubkey;
use usds_swap::accounts::Config;
use usds_swap::delta_neutral::{StrategyState, StrategyType, TreasuryStats};
use usds_swap::error::{DeltaNeutralError, LedgerError};
use usds_swap::events::{
    StrategyEvent, StrategyInitializedEvent, StrategyStateChangedEvent, YieldGeneratedEvent,
};
use usds_swap::ledger::TreasuryLedger;
use usds_swap::program::StrategyOp;
use usds_swap::{id, Address};

fn key(n: u8) -> Address {
    Address { bytes: [n; 32] }
}

fn of(p: Pubkey) -> Address {
    Address { bytes: p.to_bytes() }
}

fn program() -> Pubkey {
    Pubkey::from_str("AqFGP1Fs3nJ3Ue2Nc7RVZ1AUAad5AsEr4VBRJB2mEnk3").unwrap()
}

fn treasury() -> (Pubkey, u8) {
    Pubkey::find_program_address(&[b"treasury"], &program())
}

fn stats_address() -> (Pubkey, u8) {
    Pubkey::find_program_address(&[b"treasury-stats", treasury().0.as_ref()], &program())
}

fn strategy_address(seed: &str) -> (Pubkey, u8) {
    Pubkey::find_program_address(
        &[b"strategy", treasury().0.as_ref(), seed.as_bytes()],
        &program(),
    )
}

fn at(seed: &str) -> Address {
    of(strategy_address(seed).0)
}

fn config() -> Config {
    Config {
        treasury_bump: treasury().1,
        mint_authority_bump: 253,
        usds_mint: key(20),
        treasury_token_account: key(21),
        usdc_mint: key(19),
    }
}

fn ledger() -> TreasuryLedger {
    TreasuryLedger::new(id(), of(treasury().0)).unwrap()
}

fn create(ledger: &mut TreasuryLedger, authority: Address, seed: &str, now: i64) {
    ledger
        .initialize_strategy(
            authority,
            &config(),
            key(21),
            seed,
            StrategyType::Lending,
            30,
            500,
            40,
            now,
        )
        .unwrap();
}

fn counts(ledger: &TreasuryLedger) -> (u8, u8) {
    let stats = ledger.stats().unwrap();
    (stats.strategies_count, stats.active_strategies_count)
}

#[test]
fn a_new_ledger_is_empty() {
    let ledger = ledger();
    assert_eq!(ledger.program_id(), id());
    assert_eq!(ledger.treasury(), of(treasury().0));
    assert_eq!(ledger.stats_key(), of(stats_address().0));
    assert_eq!(ledger.stats(), None);
    assert_eq!(ledger.len(), 0);
    assert_eq!(ledger.strategy(&at("a")), None);
}

#[test]
fn the_first_strategy_opens_the_statistics() {
    let mut ledger = ledger();
    let event = ledger
        .initialize_strategy(
            key(1),
            &config(),
            key(21),
            "staking-1",
            StrategyType::LiquidStaking,
            30,
            500,
            40,
            100,
        )
        .unwrap();
    assert_eq!(
        event,
        StrategyInitializedEvent {
            strategy: at("staking-1"),
            strategy_type: StrategyType::LiquidStaking,
            allocation_percentage: 30,
            target_apy: 500,
            risk_score: 40,
            initialized_by: key(1),
            timestamp: 100,
        }
    );
    assert_eq!(ledger.len(), 1);
    assert_eq!(
        ledger.stats(),
        Some(TreasuryStats {
            total_usdc_deposited: 0,
            total_usdc_withdrawn: 0,
            total_yield_generated: 0,
            current_portfolio_value: 0,
            strategies_count: 1,
            active_strategies_count: 0,
            last_updated_ts: 100,
            treasury: of(treasury().0),
            treasury_authority: key(1),
            bump: stats_address().1,
        })
    );
    let strategy = ledger.strategy(&at("staking-1")).unwrap();
    assert_eq!(strategy.state, StrategyState::Paused);
    assert_eq!(strategy.current_apy, 0);
    assert_eq!(strategy.treasury, of(treasury().0));
    assert_eq!(strategy.authority, key(1));
    assert_eq!(strategy.bump, strategy_address("staking-1").1);
    assert_eq!(ledger.strategy(&at("staking-2")), None);
    assert_eq!(ledger.strategy(&key(5)), None);
}

#[test]
fn scenario_on_the_ledger() {
    let mut ledger = ledger();
    create(&mut ledger, key(1), "other", 1);
    let baseline = counts(&ledger);
    create(&mut ledger, key(1), "lending", 2);
    assert_eq!(counts(&ledger), (baseline.0 + 1, baseline.1));
    let created = ledger.strategy(&at("lending")).unwrap();
    assert_eq!(created.state, StrategyState::Paused);
    assert_eq!(created.current_apy, 0);
    assert_eq!(created.allocation_percentage, 30);
    assert_eq!(created.target_apy, 500);
    assert_eq!(created.risk_score, 40);
    let baseline = counts(&ledger);

    ledger.update_strategy(key(1), at("lending"), StrategyOp::Activate, 3).unwrap();
    assert_eq!(ledger.strategy(&at("lending")).unwrap().state, StrategyState::Active);
    assert_eq!(counts(&ledger), (baseline.0, baseline.1 + 1));

    ledger.update_strategy(key(1), at("lending"), StrategyOp::Pause, 4).unwrap();
    assert_eq!(ledger.strategy(&at("lending")).unwrap().state, StrategyState::Paused);
    assert_eq!(counts(&ledger), baseline);
}

#[test]
fn a_ledger_keeps_one_strategy_per_seed() {
    let mut ledger = ledger();
    create(&mut ledger, key(1), "lending", 100);
    let r = ledger.initialize_strategy(
        key(1),
        &config(),
        key(21),
        "lending",
        StrategyType::LiquidityProvision,
        10,
        100,
        10,
        200,
    );
    assert_eq!(r, Err(LedgerError::AlreadyInitialized));
    assert_eq!(ledger.len(), 1);
    assert_eq!(counts(&ledger), (1, 0));
    assert_eq!(ledger.stats().unwrap().last_updated_ts, 100);
    assert_eq!(ledger.strategy(&at("lending")).unwrap().strategy_type, StrategyType::Lending);
}

#[test]
fn a_refused_strategy_is_not_counted() {
    let mut ledger = ledger();
    let r = ledger.initialize_strategy(
        key(1),
        &config(),
        key(21),
        "lending",
        StrategyType::Lending,
        101,
        100,
        10,
        200,
    );
    assert_eq!(r, Err(LedgerError::DeltaNeutral(DeltaNeutralError::InvalidAllocationPercentage)));
    assert_eq!(ledger.len(), 0);
    assert_eq!(ledger.stats(), None);
    let r = ledger.initialize_strategy(
        key(1),
        &config(),
        key(22),
        "lending",
        StrategyType::Lending,
        10,
        100,
        10,
        200,
    );
    assert_eq!(r, Err(LedgerError::AddressMismatch));
    assert_eq!(ledger.stats(), None);
    assert_eq!(ledger.strategy(&at("lending")), None);
}

#[test]
fn the_ledger_wants_a_seed_with_an_address() {
    let mut ledger = ledger();
    let r = ledger.initialize_strategy(
        key(1),
        &config(),
        key(21),
        "a-seed-that-is-thirty-three-bytes",
        StrategyType::Lending,
        10,
        100,
        10,
        200,
    );
    assert_eq!(r, Err(LedgerError::SeedsMismatch));
    assert_eq!(ledger.len(), 0);
    assert_eq!(ledger.stats(), None);
}

#[test]
fn the_ledger_wants_the_bump_of_its_treasury() {
    let mut ledger = ledger();
    let wrong = Config { treasury_bump: treasury().1 - 1, ..config() };
    let r = ledger.initialize_strategy(
        key(1),
        &wrong,
        key(21),
        "lending",
        StrategyType::Lending,
        10,
        100,
        10,
        200,
    );
    assert_eq!(r, Err(LedgerError::SeedsMismatch));
    assert_eq!(ledger.len(), 0);

    let mut elsewhere = TreasuryLedger::new(id(), key(2)).unwrap();
    let r = elsewhere.initialize_strategy(
        key(1),
        &config(),
        key(21),
        "lending",
        StrategyType::Lending,
        10,
        100,
        10,
        200,
    );
    assert_eq!(r, Err(LedgerError::SeedsMismatch));
    assert_eq!(elsewhere.stats(), None);
}

#[test]
fn the_ledger_counts_the_active_strategies() {
    let mut ledger = ledger();
    create(&mut ledger, key(1), "a", 1);
    create(&mut ledger, key(1), "b", 2);
    create(&mut ledger, key(5), "c", 3);
    assert_eq!(counts(&ledger), (3, 0));

    assert_eq!(
        ledger.update_strategy(key(1), at("b"), StrategyOp::Activate, 4),
        Ok(StrategyEvent::StateChanged(StrategyStateChangedEvent {
            strategy: at("b"),
            old_state: StrategyState::Paused,
            new_state: StrategyState::Active,
            timestamp: 4,
            performed_by: key(1),
        }))
    );
    assert_eq!(counts(&ledger), (3, 1));
    ledger.update_strategy(key(5), at("c"), StrategyOp::Activate, 5).unwrap();
    assert_eq!(counts(&ledger), (3, 2));
    assert_eq!(
        ledger.update_strategy(key(5), at("c"), StrategyOp::Activate, 6),
        Err(LedgerError::DeltaNeutral(DeltaNeutralError::StrategyAlreadyActive))
    );
    assert_eq!(counts(&ledger), (3, 2));
    ledger.update_strategy(key(1), at("b"), StrategyOp::Pause, 7).unwrap();
    assert_eq!(counts(&ledger), (3, 1));
    ledger.update_strategy(key(1), at("b"), StrategyOp::Terminate, 8).unwrap();
    assert_eq!(counts(&ledger), (3, 1));
    ledger.update_strategy(key(5), at("c"), StrategyOp::Terminate, 9).unwrap();
    assert_eq!(counts(&ledger), (3, 0));
    ledger.update_strategy(key(5), at("c"), StrategyOp::Terminate, 10).unwrap();
    assert_eq!(counts(&ledger), (3, 0));
    assert_eq!(
        ledger.update_strategy(key(5), at("c"), StrategyOp::Pause, 11),
        Err(LedgerError::DeltaNeutral(DeltaNeutralError::StrategyNotActive))
    );
    assert_eq!(ledger.strategy(&at("a")).unwrap().state, StrategyState::Paused);
    assert_eq!(ledger.strategy(&at("b")).unwrap().state, StrategyState::Terminated);
    assert_eq!(ledger.strategy(&at("c")).unwrap().state, StrategyState::Terminated);
    assert_eq!(ledger.stats().unwrap().last_updated_ts, 10);
    ledger.update_strategy(key(5), at("c"), StrategyOp::Activate, 12).unwrap();
    assert_eq!(counts(&ledger), (3, 1));
    assert_eq!(ledger.strategy(&at("c")).unwrap().state, StrategyState::Active);
}

#[test]
fn the_ledger_changes_only_the_strategy_named() {
    let mut ledger = ledger();
    create(&mut ledger, key(1), "a", 1);
    create(&mut ledger, key(1), "b", 2);
    let untouched = ledger.strategy(&at("a")).unwrap();
    ledger
        .update_strategy(key(1), at("b"), StrategyOp::UpdateAllocation { new_allocation: 77 }, 3)
        .unwrap();
    ledger.update_strategy(key(1), at("b"), StrategyOp::UpdateApy { new_apy: 610 }, 4).unwrap();
    assert_eq!(ledger.strategy(&at("a")), Some(untouched));
    let changed = ledger.strategy(&at("b")).unwrap();
    assert_eq!(changed.allocation_percentage, 77);
    assert_eq!(changed.current_apy, 610);
    assert_eq!(
        ledger.update_strategy(
            key(1),
            at("b"),
            StrategyOp::UpdateAllocation { new_allocation: 101 },
            5
        ),
        Err(LedgerError::DeltaNeutral(DeltaNeutralError::InvalidAllocationPercentage))
    );
    assert_eq!(ledger.strategy(&at("b")), Some(changed));
    assert_eq!(ledger.stats().unwrap().last_updated_ts, 4);
}

#[test]
fn the_ledger_knows_no_strategy_under_another_address() {
    let mut ledger = ledger();
    assert_eq!(
        ledger.update_strategy(key(1), at("a"), StrategyOp::Activate, 1),
        Err(LedgerError::NotInitialized)
    );
    create(&mut ledger, key(1), "a", 1);
    assert_eq!(
        ledger.update_strategy(key(1), at("b"), StrategyOp::Activate, 2),
        Err(LedgerError::NotInitialized)
    );
    assert_eq!(
        ledger.update_strategy(key(9), at("a"), StrategyOp::Activate, 2),
        Err(LedgerError::Unauthorized)
    );
    assert_eq!(counts(&ledger), (1, 0));
}

#[test]
fn the_ledger_takes_yield_from_the_treasury_authority() {
    let mut ledger = ledger();
    assert_eq!(ledger.report_yield(key(1), 1000, 50000, 1), Err(LedgerError::NotInitialized));
    create(&mut ledger, key(1), "a", 1);
    assert_eq!(ledger.report_yield(key(5), 1000, 50000, 2), Err(LedgerError::Unauthorized));
    assert_eq!(
        ledger.report_yield(key(1), 1000, 50000, 3),
        Ok(YieldGeneratedEvent {
            treasury: of(treasury().0),
            yield_amount: 1000,
            new_portfolio_value: 50000,
            timestamp: 3,
            reported_by: key(1),
        })
    );
    let stats = ledger.stats().unwrap();
    assert_eq!(stats.total_yield_generated, 1000);
    assert_eq!(stats.current_portfolio_value, 50000);
    assert_eq!(stats.last_updated_ts, 3);
    assert_eq!(counts(&ledger), (1, 0));
}

#[test]
fn a_later_strategy_keeps_the_yield_reported() {
    let mut ledger = ledger();
    create(&mut ledger, key(1), "a", 1);
    ledger.report_yield(key(1), 1000, 50000, 2).unwrap();
    create(&mut ledger, key(6), "b", 3);
    let stats = ledger.stats().unwrap();
    assert_eq!(stats.total_yield_generated, 1000);
    assert_eq!(stats.current_portfolio_value, 50000);
    assert_eq!(stats.strategies_count, 2);
    assert_eq!(stats.treasury_authority, key(1));
}

#[test]
fn the_first_creator_stays_the_authority_of_the_treasury() {
    let mut ledger = ledger();
    create(&mut ledger, key(1), "a", 1);
    create(&mut ledger, key(6), "b", 2);
    assert_eq!(ledger.stats().unwrap().treasury_authority, key(1));
    assert_eq!(ledger.strategy(&at("b")).unwrap().authority, key(6));
    assert_eq!(ledger.report_yield(key(6), 1000, 50000, 3), Err(LedgerError::Unauthorized));
    assert!(ledger.report_yield(key(1), 1000, 50000, 4).is_ok());
    ledger.update_strategy(key(6), at("b"), StrategyOp::Activate, 5).unwrap();
    assert_eq!(ledger.stats().unwrap().treasury_authority, key(1));
}

#[test]
fn the_counts_stop_at_255_and_stay_in_order() {
    let mut ledger = ledger();
    let seeds: Vec<String> = (0..258).map(|n| format!("s{}", n)).collect();
    let keys: Vec<Address> = seeds.iter().map(|seed| at(seed)).collect();
    for (n, seed) in seeds.iter().enumerate() {
        create(&mut ledger, key(1), seed, n as i64);
        let expected = if n < 255 { n as u8 + 1 } else { 255 };
        assert_eq!(counts(&ledger), (expected, 0));
    }
    assert_eq!(ledger.len(), 258);
    for (n, k) in keys.iter().enumerate() {
        ledger.update_strategy(key(1), *k, StrategyOp::Activate, 1_000).unwrap();
        let (all, active) = counts(&ledger);
        assert_eq!(all, 255);
        assert_eq!(active, if n < 255 { n as u8 + 1 } else { 255 });
    }
    for (n, k) in keys.iter().enumerate() {
        ledger.update_strategy(key(1), *k, StrategyOp::Pause, 2_000).unwrap();
        let (all, active) = counts(&ledger);
        assert!(active <= all);
        assert_eq!(active, if n < 255 { 254 - n as u8 } else { 0 });
    }
}
