use anchor_spl::token::spl_token::error::TokenError;
use usds_swap::accounts::{Config, SwapUsdcToUsds, SwapUsdsToUsdc, TokenAccount};
use usds_swap::error::{
    CollaboratorError, ErrorKind, LedgerError, TOKEN_INSUFFICIENT_FUNDS, TOKEN_OVERFLOW,
};
use usds_swap::events::{SwapDirection, SwapEvent};
use usds_swap::program::{swap_usdc_to_usds, swap_usds_to_usdc};
use usds_swap::swap::{Signer, SwapAction, SwapBalances, SwapLeg, SwapPlan, SwapStage, TokenCall};
use usds_swap::Address;

fn key(n: u8) -> Address {
    Address { bytes: [n; 32] }
}

fn config() -> Config {
    Config {
        treasury_bump: 254,
        mint_authority_bump: 253,
        usds_mint: key(20),
        treasury_token_account: key(21),
        usdc_mint: key(19),
    }
}

fn swap_in() -> SwapUsdcToUsds {
    SwapUsdcToUsds {
        user: key(1),
        config: config(),
        user_usdc: TokenAccount { key: key(30), owner: key(1) },
        user_usds: TokenAccount { key: key(31), owner: key(1) },
        treasury: key(2),
        treasury_token_account: key(21),
        mint_authority: key(3),
        usds_mint: key(20),
    }
}

fn swap_out() -> SwapUsdsToUsdc {
    SwapUsdsToUsdc {
        user: key(1),
        config: config(),
        user_usdc: TokenAccount { key: key(30), owner: key(1) },
        user_usds: TokenAccount { key: key(31), owner: key(1) },
        treasury: key(2),
        treasury_token_account: key(21),
        usds_mint: key(20),
    }
}

fn plan_in(amount: u64) -> SwapPlan {
    SwapPlan {
        debit: SwapLeg {
            call: TokenCall::Transfer { from: key(30), to: key(21), authority: key(1), amount },
            signer: Signer::User,
        },
        credit: SwapLeg {
            call: TokenCall::MintTo { mint: key(20), to: key(31), authority: key(3), amount },
            signer: Signer::MintAuthority { bump: 253 },
        },
        event: SwapEvent { user: key(1), amount, swap_direction: SwapDirection::UsdcToUsds },
    }
}

fn plan_out(amount: u64) -> SwapPlan {
    SwapPlan {
        debit: SwapLeg {
            call: TokenCall::Burn { mint: key(20), from: key(31), authority: key(1), amount },
            signer: Signer::User,
        },
        credit: SwapLeg {
            call: TokenCall::Transfer { from: key(21), to: key(30), authority: key(2), amount },
            signer: Signer::Treasury { bump: 254 },
        },
        event: SwapEvent { user: key(1), amount, swap_direction: SwapDirection::UsdsToUsdc },
    }
}

#[test]
fn swap_usdc_to_usds_plans_a_transfer_and_a_mint() {
    assert_eq!(swap_usdc_to_usds(&swap_in(), 750), Ok(plan_in(750)));
    assert_eq!(swap_usdc_to_usds(&swap_in(), 0), Ok(plan_in(0)));
    assert_eq!(swap_usdc_to_usds(&swap_in(), u64::MAX), Ok(plan_in(u64::MAX)));
}

#[test]
fn swap_usds_to_usdc_plans_a_burn_and_a_transfer() {
    assert_eq!(swap_usds_to_usdc(&swap_out(), 750), Ok(plan_out(750)));
    assert_eq!(swap_usds_to_usdc(&swap_out(), 0), Ok(plan_out(0)));
}

#[test]
fn the_two_swaps_mirror_each_other() {
    let into = swap_usdc_to_usds(&swap_in(), 42).unwrap();
    let back = swap_usds_to_usdc(&swap_out(), 42).unwrap();
    assert_eq!(into.debit.call.amount(), 42);
    assert_eq!(into.credit.call.amount(), 42);
    assert_eq!(back.debit.call.amount(), 42);
    assert_eq!(back.credit.call.amount(), 42);
    assert_eq!(into.event.amount, back.event.amount);
    assert_eq!(into.event.user, back.event.user);
    assert!(into.event.swap_direction != back.event.swap_direction);
}

#[test]
fn a_swap_needs_the_users_own_token_accounts() {
    let mut ctx = swap_in();
    ctx.user_usdc.owner = key(9);
    assert_eq!(swap_usdc_to_usds(&ctx, 5), Err(LedgerError::Unauthorized));
    let mut ctx = swap_in();
    ctx.user_usds.owner = key(9);
    assert_eq!(swap_usdc_to_usds(&ctx, 5), Err(LedgerError::Unauthorized));
    let mut ctx = swap_out();
    ctx.user_usdc.owner = key(9);
    assert_eq!(swap_usds_to_usdc(&ctx, 5), Err(LedgerError::Unauthorized));
    let mut ctx = swap_out();
    ctx.user_usds.owner = key(9);
    ctx.usds_mint = key(9);
    assert_eq!(swap_usds_to_usdc(&ctx, 5), Err(LedgerError::Unauthorized));
}

#[test]
fn a_swap_needs_the_custody_and_the_mint_of_the_settings() {
    let mut ctx = swap_in();
    ctx.treasury_token_account = key(9);
    assert_eq!(swap_usdc_to_usds(&ctx, 5), Err(LedgerError::AddressMismatch));
    let mut ctx = swap_in();
    ctx.usds_mint = key(9);
    assert_eq!(swap_usdc_to_usds(&ctx, 5), Err(LedgerError::AddressMismatch));
    let mut ctx = swap_out();
    ctx.treasury_token_account = key(9);
    assert_eq!(swap_usds_to_usdc(&ctx, 5), Err(LedgerError::AddressMismatch));
    let mut ctx = swap_out();
    ctx.usds_mint = key(9);
    assert_eq!(swap_usds_to_usdc(&ctx, 5), Err(LedgerError::AddressMismatch));
}

#[test]
fn signer_seeds_are_the_seed_and_the_bump() {
    assert_eq!(Signer::User.seeds(), Vec::<Vec<u8>>::new());
    assert_eq!(Signer::Treasury { bump: 254 }.seeds(), vec![b"treasury".to_vec(), vec![254u8]]);
    assert_eq!(
        Signer::MintAuthority { bump: 7 }.seeds(),
        vec![b"mint-authority".to_vec(), vec![7u8]]
    );
}

#[test]
fn a_swap_runs_debit_credit_event() {
    let plan = plan_in(10);
    let (stage, action) = plan.advance(SwapStage::Planned, None);
    assert_eq!((stage, action), (SwapStage::Debiting, SwapAction::Invoke(plan.debit)));
    let (stage, action) = plan.advance(stage, None);
    assert_eq!((stage, action), (SwapStage::Crediting, SwapAction::Invoke(plan.credit)));
    let (stage, action) = plan.advance(stage, None);
    assert_eq!((stage, action), (SwapStage::Settled, SwapAction::Emit(plan.event)));
    assert_eq!(plan.advance(stage, None), (SwapStage::Settled, SwapAction::Halt));
    let failure = Some(CollaboratorError { code: 1 });
    assert_eq!(plan.advance(stage, failure), (SwapStage::Settled, SwapAction::Halt));
}

#[test]
fn a_failed_debit_ends_the_swap_before_the_credit() {
    let plan = plan_out(10);
    let failure = CollaboratorError { code: TOKEN_INSUFFICIENT_FUNDS };
    let (stage, _) = plan.advance(SwapStage::Planned, Some(failure));
    assert_eq!(stage, SwapStage::Debiting);
    let (stage, action) = plan.advance(stage, Some(failure));
    assert_eq!(
        (stage, action),
        (SwapStage::Aborted, SwapAction::Abort(LedgerError::Collaborator(failure)))
    );
    assert_eq!(plan.advance(stage, None), (SwapStage::Aborted, SwapAction::Halt));
}

#[test]
fn a_failed_credit_ends_the_swap_with_its_error() {
    let plan = plan_in(10);
    let failure = CollaboratorError { code: 4242 };
    let (stage, action) = plan.advance(SwapStage::Crediting, Some(failure));
    assert_eq!(
        (stage, action),
        (SwapStage::Aborted, SwapAction::Abort(LedgerError::Collaborator(failure)))
    );
    assert_eq!(LedgerError::Collaborator(failure).kind(), ErrorKind::Collaborator);
}

#[test]
fn token_codes_are_those_of_the_token_program() {
    assert_eq!(TOKEN_INSUFFICIENT_FUNDS, TokenError::InsufficientFunds as u32);
    assert_eq!(TOKEN_OVERFLOW, TokenError::Overflow as u32);
}

fn balances() -> SwapBalances {
    SwapBalances { user_usdc: 1_000, user_usds: 50, treasury_usdc: 7_000, usds_supply: 7_050 }
}

#[test]
fn settle_moves_the_amount_one_for_one() {
    let mut b = balances();
    assert_eq!(b.settle(&plan_in(400)), Ok(plan_in(400).event));
    assert_eq!(
        b,
        SwapBalances { user_usdc: 600, user_usds: 450, treasury_usdc: 7_400, usds_supply: 7_450 }
    );
    assert_eq!(b.settle(&plan_out(150)), Ok(plan_out(150).event));
    assert_eq!(
        b,
        SwapBalances { user_usdc: 750, user_usds: 300, treasury_usdc: 7_250, usds_supply: 7_300 }
    );
}

#[test]
fn apply_does_one_request() {
    let transfer =
        TokenCall::Transfer { from: key(30), to: key(21), authority: key(1), amount: 10 };
    let mint = TokenCall::MintTo { mint: key(20), to: key(31), authority: key(3), amount: 10 };
    let burn = TokenCall::Burn { mint: key(20), from: key(31), authority: key(1), amount: 10 };
    let mut b = balances();
    assert_eq!(b.apply(&transfer, SwapDirection::UsdcToUsds), Ok(()));
    assert_eq!(b, SwapBalances { user_usdc: 990, treasury_usdc: 7_010, ..balances() });
    assert_eq!(b.apply(&transfer, SwapDirection::UsdsToUsdc), Ok(()));
    assert_eq!(b, balances());
    assert_eq!(b.apply(&mint, SwapDirection::UsdcToUsds), Ok(()));
    assert_eq!(b, SwapBalances { user_usds: 60, usds_supply: 7_060, ..balances() });
    assert_eq!(b.apply(&burn, SwapDirection::UsdsToUsdc), Ok(()));
    assert_eq!(b, balances());
}

#[test]
fn swap_round_trip_restores_the_balances() {
    for amount in [0u64, 1, 999, 1_000] {
        let into = swap_usdc_to_usds(&swap_in(), amount).unwrap();
        let back = swap_usds_to_usdc(&swap_out(), amount).unwrap();
        let mut b = balances();
        assert_eq!(b.settle(&into), Ok(into.event));
        if amount > 0 {
            assert!(b != balances());
        }
        assert_eq!(b.settle(&back), Ok(back.event));
        assert_eq!(b, balances());
    }
    let mut b = balances();
    assert!(b.settle(&plan_out(50)).is_ok());
    assert!(b.settle(&plan_in(50)).is_ok());
    assert_eq!(b, balances());
}

#[test]
fn a_swap_beyond_the_balance_changes_nothing() {
    let insufficient = Err(LedgerError::Collaborator(CollaboratorError { code: 1 }));
    let overflow = Err(LedgerError::Collaborator(CollaboratorError { code: 14 }));
    let mut b = balances();
    assert_eq!(b.settle(&plan_in(1_001)), insufficient);
    assert_eq!(b, balances());
    assert_eq!(b.settle(&plan_out(51)), insufficient);
    assert_eq!(b, balances());

    let mut b = SwapBalances { treasury_usdc: 10, ..balances() };
    assert_eq!(b.settle(&plan_out(11)), insufficient);
    assert_eq!(b, SwapBalances { treasury_usdc: 10, ..balances() });

    let mut b = SwapBalances { usds_supply: 10, ..balances() };
    assert_eq!(b.settle(&plan_out(11)), overflow);
    assert_eq!(b, SwapBalances { usds_supply: 10, ..balances() });

    let mut b = SwapBalances { usds_supply: u64::MAX - 5, ..balances() };
    assert_eq!(b.settle(&plan_in(6)), overflow);
    assert_eq!(b, SwapBalances { usds_supply: u64::MAX - 5, ..balances() });
    assert!(b.settle(&plan_in(5)).is_ok());
    assert_eq!(b.usds_supply, u64::MAX);

    let mut b = SwapBalances { treasury_usdc: u64::MAX, ..balances() };
    assert_eq!(b.settle(&plan_in(1)), overflow);
    let mut b = SwapBalances { user_usds: u64::MAX, ..balances() };
    assert_eq!(b.settle(&plan_in(1)), overflow);
    assert_eq!(b, SwapBalances { user_usds: u64::MAX, ..balances() });
    let mut b = SwapBalances { user_usdc: u64::MAX, ..balances() };
    assert_eq!(b.settle(&plan_out(1)), overflow);
    assert_eq!(b, SwapBalances { user_usdc: u64::MAX, ..balances() });
}
