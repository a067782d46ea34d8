//! A swap between the stable and the synthetic token, one for one: the two
//! requests it makes of the token program, the order in which it makes them,
//! and what they do to the balances involved.
//!
//! The token program is not part of this library. A swap is planned here and
//! carried out by the caller, who reports after each request how it ended
//! and is told what to do next.

use crate::accounts::{SwapUsdcToUsds, SwapUsdsToUsdc, MINT_AUTHORITY_SEED, TREASURY_SEED};
use crate::address::{seeds_view, Address};
use crate::error::{CollaboratorError, LedgerError, TOKEN_INSUFFICIENT_FUNDS, TOKEN_OVERFLOW};
use crate::events::{SwapDirection, SwapEvent};
use vstd::prelude::*;
use vstd::slice::slice_to_vec;

verus! {

/// One request to the token program.
#[derive(Clone, Copy, Debug, PartialEq, Eq)]
pub enum TokenCall {
    /// Move `amount` tokens from one token account to another.
    Transfer { from: Address, to: Address, authority: Address, amount: u64 },
    /// Create `amount` tokens of `mint` in the token account `to`.
    MintTo { mint: Address, to: Address, authority: Address, amount: u64 },
    /// Destroy `amount` tokens of `mint` in the token account `from`.
    Burn { mint: Address, from: Address, authority: Address, amount: u64 },
}

impl TokenCall {
    /// The amount that the request moves, creates or destroys.
    pub open spec fn spec_amount(self) -> u64 {
        match self {
            TokenCall::Transfer { amount, .. } => amount,
            TokenCall::MintTo { amount, .. } => amount,
            TokenCall::Burn { amount, .. } => amount,
        }
    }

    /// The amount that the request moves, creates or destroys.
    pub fn amount(&self) -> (r: u64)
        ensures
            r == self.spec_amount(),
    {
        match self {
            TokenCall::Transfer { amount, .. } => *amount,
            TokenCall::MintTo { amount, .. } => *amount,
            TokenCall::Burn { amount, .. } => *amount,
        }
    }
}

/// Who signs a request: the user, or the program for one of its derived
/// accounts, named by the bump of its address.
#[derive(Clone, Copy, Debug, PartialEq, Eq, Structural)]
pub enum Signer {
    User,
    Treasury { bump: u8 },
    MintAuthority { bump: u8 },
}

impl Signer {
    /// The seeds with which the program signs, none for the user.
    pub open spec fn spec_seeds(self) -> Seq<Seq<u8>> {
        match self {
            Signer::User => Seq::empty(),
            Signer::Treasury { bump } => seq![TREASURY_SEED@, seq![bump]],
            Signer::MintAuthority { bump } => seq![MINT_AUTHORITY_SEED@, seq![bump]],
        }
    }

    /// The seeds with which the program signs: the seed of the derived
    /// account and its bump. None for the user, who signs for himself.
    pub fn seeds(&self) -> (r: Vec<Vec<u8>>)
        ensures
            seeds_view(&r) == self.spec_seeds(),
    {
        let mut r: Vec<Vec<u8>> = Vec::new();
        match self {
            Signer::User => {},
            Signer::Treasury { bump } => {
                r.push(slice_to_vec(TREASURY_SEED.as_slice()));
                let mut last: Vec<u8> = Vec::new();
                last.push(*bump);
                r.push(last);
            },
            Signer::MintAuthority { bump } => {
                r.push(slice_to_vec(MINT_AUTHORITY_SEED.as_slice()));
                let mut last: Vec<u8> = Vec::new();
                last.push(*bump);
                r.push(last);
            },
        }
        assert(seeds_view(&r) =~= self.spec_seeds());
        r
    }
}

/// One half of a swap: a request and its signer.
#[derive(Clone, Copy, Debug, PartialEq, Eq)]
pub struct SwapLeg {
    pub call: TokenCall,
    pub signer: Signer,
}

/// A swap that passed the tests on its accounts: the request that takes the
/// tokens from the user, the one that gives the others back, and the event to
/// publish once both are through.
#[derive(Clone, Copy, Debug, PartialEq, Eq)]
pub struct SwapPlan {
    pub debit: SwapLeg,
    pub credit: SwapLeg,
    pub event: SwapEvent,
}

/// How far a swap has come.
#[derive(Clone, Copy, Debug, PartialEq, Eq, Structural)]
pub enum SwapStage {
    /// Nothing was asked of the token program yet.
    Planned,
    /// The debit was asked for; its outcome is awaited.
    Debiting,
    /// The debit is through and the credit was asked for.
    Crediting,
    /// Both requests are through.
    Settled,
    /// A request failed. Nothing of the swap may be kept.
    Aborted,
}

/// What the caller does next for a swap.
#[derive(Clone, Copy, Debug, PartialEq, Eq)]
pub enum SwapAction {
    /// Make this request of the token program and report its outcome.
    Invoke(SwapLeg),
    /// Commit, and publish this event.
    Emit(SwapEvent),
    /// Give up the whole transaction with this error: the failure of the
    /// token program, as it came.
    Abort(LedgerError),
    /// Nothing: the swap was over before.
    Halt,
}

impl SwapStage {
    /// How many requests at most are still to be made from this stage on.
    pub open spec fn steps_left(self) -> nat {
        match self {
            SwapStage::Planned => 3,
            SwapStage::Debiting => 2,
            SwapStage::Crediting => 1,
            SwapStage::Settled => 0,
            SwapStage::Aborted => 0,
        }
    }
}

impl SwapPlan {
    /// The stage after `stage`, and what to do on entering it, where
    /// `failure` is the error of the request made in `stage`, if it failed.
    pub open spec fn spec_advance(self, stage: SwapStage, failure: Option<CollaboratorError>) -> (
        SwapStage,
        SwapAction,
    ) {
        match stage {
            SwapStage::Planned => (SwapStage::Debiting, SwapAction::Invoke(self.debit)),
            SwapStage::Debiting => match failure {
                None => (SwapStage::Crediting, SwapAction::Invoke(self.credit)),
                Some(e) => (
                    SwapStage::Aborted,
                    SwapAction::Abort(LedgerError::Collaborator(e)),
                ),
            },
            SwapStage::Crediting => match failure {
                None => (SwapStage::Settled, SwapAction::Emit(self.event)),
                Some(e) => (
                    SwapStage::Aborted,
                    SwapAction::Abort(LedgerError::Collaborator(e)),
                ),
            },
            SwapStage::Settled => (SwapStage::Settled, SwapAction::Halt),
            SwapStage::Aborted => (SwapStage::Aborted, SwapAction::Halt),
        }
    }

    /// One step of a swap. A planned swap starts with its debit. After a
    /// request that went through comes the next one, and after the last the
    /// event. The first failure ends the swap with that very error, and the
    /// credit is never asked for after a failed debit. A swap that is settled
    /// or aborted stays so.
    pub fn advance(&self, stage: SwapStage, failure: Option<CollaboratorError>) -> (r: (
        SwapStage,
        SwapAction,
    ))
        ensures
            r == self.spec_advance(stage, failure),
    {
        match stage {
            SwapStage::Planned => (SwapStage::Debiting, SwapAction::Invoke(self.debit)),
            SwapStage::Debiting => match failure {
                None => (SwapStage::Crediting, SwapAction::Invoke(self.credit)),
                Some(e) => (
                    SwapStage::Aborted,
                    SwapAction::Abort(LedgerError::Collaborator(e)),
                ),
            },
            SwapStage::Crediting => match failure {
                None => (SwapStage::Settled, SwapAction::Emit(self.event)),
                Some(e) => (
                    SwapStage::Aborted,
                    SwapAction::Abort(LedgerError::Collaborator(e)),
                ),
            },
            SwapStage::Settled => (SwapStage::Settled, SwapAction::Halt),
            SwapStage::Aborted => (SwapStage::Aborted, SwapAction::Halt),
        }
    }
}

/// The four amounts that a swap touches, as the token program keeps them:
/// what the user holds of either token, what the treasury has in custody, and
/// how many synthetic tokens exist. The user's accounts and the treasury's are
/// different accounts.
#[derive(Clone, Copy, Debug, PartialEq, Eq, Structural)]
pub struct SwapBalances {
    pub user_usdc: u64,
    pub user_usds: u64,
    pub treasury_usdc: u64,
    pub usds_supply: u64,
}

impl SwapBalances {
    /// The error with which the token program refuses a swap of `amount`
    /// stable tokens for synthetic ones, if it does: the user holds too few
    /// stable tokens, or the custody, the user's synthetic tokens or their
    /// supply would not fit in 64 bits.
    pub open spec fn usdc_to_usds_failure(self, amount: u64) -> Option<CollaboratorError> {
        if self.user_usdc < amount {
            Some(CollaboratorError { code: TOKEN_INSUFFICIENT_FUNDS })
        } else if self.treasury_usdc + amount > u64::MAX || self.user_usds + amount > u64::MAX
            || self.usds_supply + amount > u64::MAX {
            Some(CollaboratorError { code: TOKEN_OVERFLOW })
        } else {
            None
        }
    }

    /// The balances after a swap of `amount` stable tokens for synthetic
    /// ones that went through.
    pub open spec fn after_usdc_to_usds(self, amount: u64) -> SwapBalances {
        SwapBalances {
            user_usdc: (self.user_usdc - amount) as u64,
            user_usds: (self.user_usds + amount) as u64,
            treasury_usdc: (self.treasury_usdc + amount) as u64,
            usds_supply: (self.usds_supply + amount) as u64,
        }
    }

    /// The error with which the token program refuses a swap of `amount`
    /// synthetic tokens for stable ones, if it does: the user holds too few
    /// synthetic tokens or the custody too few stable ones, or the supply or
    /// the user's stable tokens would not fit.
    pub open spec fn usds_to_usdc_failure(self, amount: u64) -> Option<CollaboratorError> {
        if self.user_usds < amount {
            Some(CollaboratorError { code: TOKEN_INSUFFICIENT_FUNDS })
        } else if self.usds_supply < amount {
            Some(CollaboratorError { code: TOKEN_OVERFLOW })
        } else if self.treasury_usdc < amount {
            Some(CollaboratorError { code: TOKEN_INSUFFICIENT_FUNDS })
        } else if self.user_usdc + amount > u64::MAX {
            Some(CollaboratorError { code: TOKEN_OVERFLOW })
        } else {
            None
        }
    }

    /// The balances after a swap of `amount` synthetic tokens for stable
    /// ones that went through.
    pub open spec fn after_usds_to_usdc(self, amount: u64) -> SwapBalances {
        SwapBalances {
            user_usdc: (self.user_usdc + amount) as u64,
            user_usds: (self.user_usds - amount) as u64,
            treasury_usdc: (self.treasury_usdc - amount) as u64,
            usds_supply: (self.usds_supply - amount) as u64,
        }
    }

    /// What the token program makes of one request of a swap in the given
    /// direction: the balances afterwards, or the error with which it
    /// refuses.
    ///
    /// A transfer moves stable tokens from the user into custody on the way
    /// in and from custody to the user on the way out; the token program
    /// refuses it where the giver holds too few, and where the taker's balance
    /// would not fit in 64 bits. Minting adds to the user's synthetic tokens
    /// and to their supply, and is refused where one of the two would not
    /// fit. Burning takes from both, and is refused where the user holds too
    /// few or fewer exist.
    pub open spec fn after_call(self, call: TokenCall, direction: SwapDirection) -> Result<
        SwapBalances,
        CollaboratorError,
    > {
        match call {
            TokenCall::Transfer { amount, .. } => match direction {
                SwapDirection::UsdcToUsds => if self.user_usdc < amount {
                    Err(CollaboratorError { code: TOKEN_INSUFFICIENT_FUNDS })
                } else if self.treasury_usdc + amount > u64::MAX {
                    Err(CollaboratorError { code: TOKEN_OVERFLOW })
                } else {
                    Ok(
                        SwapBalances {
                            user_usdc: (self.user_usdc - amount) as u64,
                            treasury_usdc: (self.treasury_usdc + amount) as u64,
                            ..self
                        },
                    )
                },
                SwapDirection::UsdsToUsdc => if self.treasury_usdc < amount {
                    Err(CollaboratorError { code: TOKEN_INSUFFICIENT_FUNDS })
                } else if self.user_usdc + amount > u64::MAX {
                    Err(CollaboratorError { code: TOKEN_OVERFLOW })
                } else {
                    Ok(
                        SwapBalances {
                            user_usdc: (self.user_usdc + amount) as u64,
                            treasury_usdc: (self.treasury_usdc - amount) as u64,
                            ..self
                        },
                    )
                },
            },
            TokenCall::MintTo { amount, .. } => if self.user_usds + amount > u64::MAX
                || self.usds_supply + amount > u64::MAX {
                Err(CollaboratorError { code: TOKEN_OVERFLOW })
            } else {
                Ok(
                    SwapBalances {
                        user_usds: (self.user_usds + amount) as u64,
                        usds_supply: (self.usds_supply + amount) as u64,
                        ..self
                    },
                )
            },
            TokenCall::Burn { amount, .. } => if self.user_usds < amount {
                Err(CollaboratorError { code: TOKEN_INSUFFICIENT_FUNDS })
            } else if self.usds_supply < amount {
                Err(CollaboratorError { code: TOKEN_OVERFLOW })
            } else {
                Ok(
                    SwapBalances {
                        user_usds: (self.user_usds - amount) as u64,
                        usds_supply: (self.usds_supply - amount) as u64,
                        ..self
                    },
                )
            },
        }
    }

    /// The balances after both requests of `plan`, or the error of the first
    /// request that the token program refuses.
    pub open spec fn after_plan(self, plan: SwapPlan) -> Result<SwapBalances, CollaboratorError> {
        match self.after_call(plan.debit.call, plan.event.swap_direction) {
            Ok(debited) => debited.after_call(plan.credit.call, plan.event.swap_direction),
            Err(e) => Err(e),
        }
    }

    /// Carries out one request on the balances as the token program would.
    /// Where it refuses, the balances stay as they were.
    pub fn apply(&mut self, call: &TokenCall, direction: SwapDirection) -> (r: Result<
        (),
        CollaboratorError,
    >)
        ensures
            match old(self).after_call(*call, direction) {
                Ok(after) => r is Ok && *final(self) == after,
                Err(e) => r == Err::<(), CollaboratorError>(e) && *final(self) == *old(self),
            },
    {
        match call {
            TokenCall::Transfer { amount, .. } => match direction {
                SwapDirection::UsdcToUsds => {
                    if self.user_usdc < *amount {
                        return Err(CollaboratorError { code: TOKEN_INSUFFICIENT_FUNDS });
                    }
                    match self.treasury_usdc.checked_add(*amount) {
                        Some(custody) => {
                            self.user_usdc = self.user_usdc - *amount;
                            self.treasury_usdc = custody;
                            Ok(())
                        },
                        None => Err(CollaboratorError { code: TOKEN_OVERFLOW }),
                    }
                },
                SwapDirection::UsdsToUsdc => {
                    if self.treasury_usdc < *amount {
                        return Err(CollaboratorError { code: TOKEN_INSUFFICIENT_FUNDS });
                    }
                    match self.user_usdc.checked_add(*amount) {
                        Some(held) => {
                            self.treasury_usdc = self.treasury_usdc - *amount;
                            self.user_usdc = held;
                            Ok(())
                        },
                        None => Err(CollaboratorError { code: TOKEN_OVERFLOW }),
                    }
                },
            },
            TokenCall::MintTo { amount, .. } => {
                match (self.user_usds.checked_add(*amount), self.usds_supply.checked_add(*amount)) {
                    (Some(held), Some(supply)) => {
                        self.user_usds = held;
                        self.usds_supply = supply;
                        Ok(())
                    },
                    _ => Err(CollaboratorError { code: TOKEN_OVERFLOW }),
                }
            },
            TokenCall::Burn { amount, .. } => {
                if self.user_usds < *amount {
                    return Err(CollaboratorError { code: TOKEN_INSUFFICIENT_FUNDS });
                }
                if self.usds_supply < *amount {
                    return Err(CollaboratorError { code: TOKEN_OVERFLOW });
                }
                self.user_usds = self.user_usds - *amount;
                self.usds_supply = self.usds_supply - *amount;
                Ok(())
            },
        }
    }

    /// Carries `plan` out on the balances, step by step as
    /// [`SwapPlan::advance`] tells, with [`SwapBalances::apply`] in the place
    /// of the token program. The swap settles whole or not at all: where both
    /// requests go through, the balances are those after both and the event
    /// comes back; where one is refused, the balances are as they were before
    /// the swap and the error of that request comes back.
    pub fn settle(&mut self, plan: &SwapPlan) -> (r: Result<SwapEvent, LedgerError>)
        ensures
            match old(self).after_plan(*plan) {
                Ok(after) => r == Ok::<SwapEvent, LedgerError>(plan.event) && *final(self)
                    == after,
                Err(e) => r == Err::<SwapEvent, LedgerError>(LedgerError::Collaborator(e))
                    && *final(self) == *old(self),
            },
    {
        let before = *self;
        let direction = plan.event.swap_direction;
        let mut failure: Option<CollaboratorError> = None;
        let (mut stage, mut action) = plan.advance(SwapStage::Planned, failure);
        loop
            invariant
                before == *old(self),
                direction == plan.event.swap_direction,
                match stage {
                    SwapStage::Planned => false,
                    SwapStage::Debiting => action == SwapAction::Invoke(plan.debit) && *self
                        == before,
                    SwapStage::Crediting => action == SwapAction::Invoke(plan.credit)
                        && before.after_call(plan.debit.call, direction) == Ok::<
                        SwapBalances,
                        CollaboratorError,
                    >(*self),
                    SwapStage::Settled => action == SwapAction::Emit(plan.event)
                        && before.after_plan(*plan) == Ok::<SwapBalances, CollaboratorError>(
                        *self,
                    ),
                    SwapStage::Aborted => before.after_plan(*plan) matches Err(e) && action
                        == SwapAction::Abort(LedgerError::Collaborator(e)),
                },
            decreases stage.steps_left(),
        {
            match action {
                SwapAction::Invoke(leg) => {
                    failure = match self.apply(&leg.call, direction) {
                        Ok(()) => None,
                        Err(e) => Some(e),
                    };
                    let next = plan.advance(stage, failure);
                    stage = next.0;
                    action = next.1;
                },
                SwapAction::Emit(event) => {
                    return Ok(event);
                },
                SwapAction::Abort(e) => {
                    *self = before;
                    return Err(e);
                },
                SwapAction::Halt => {
                    return Ok(plan.event);
                },
            }
        }
    }
}

/// A swap into synthetic tokens followed by a swap of the same amount back
/// leaves the user, the custody and the supply where they were: once the
/// first swap went through, the second cannot fail, and it restores all four
/// balances.
pub proof fn lemma_swap_round_trip(balances: SwapBalances, amount: u64)
    requires
        balances.usdc_to_usds_failure(amount) is None,
    ensures
        balances.after_usdc_to_usds(amount).usds_to_usdc_failure(amount) is None,
        balances.after_usdc_to_usds(amount).after_usds_to_usdc(amount) == balances,
{
}

/// The same the other way round: a swap into stable tokens followed by a swap
/// of the same amount back restores all four balances.
pub proof fn lemma_swap_round_trip_back(balances: SwapBalances, amount: u64)
    requires
        balances.usds_to_usdc_failure(amount) is None,
    ensures
        balances.after_usds_to_usdc(amount).usdc_to_usds_failure(amount) is None,
        balances.after_usds_to_usdc(amount).after_usdc_to_usds(amount) == balances,
{
}

/// A swap settles whole or not at all. Of a planned swap the debit is asked
/// for first. The event comes out exactly where both requests went through.
/// Where the debit failed, the swap ends with that failure and the credit is
/// never asked for; where the credit failed, the swap ends with that failure.
pub proof fn lemma_swap_settles_whole(
    plan: SwapPlan,
    debit_failure: Option<CollaboratorError>,
    credit_failure: Option<CollaboratorError>,
)
    ensures
        plan.spec_advance(SwapStage::Planned, None) == (
            SwapStage::Debiting,
            SwapAction::Invoke(plan.debit),
        ),
        ({
            let (after_debit, second) = plan.spec_advance(SwapStage::Debiting, debit_failure);
            let (after_credit, third) = plan.spec_advance(after_debit, credit_failure);
            match debit_failure {
                Some(e) => {
                    &&& second == SwapAction::Abort(LedgerError::Collaborator(e))
                    &&& after_debit == SwapStage::Aborted
                    &&& third == SwapAction::Halt
                    &&& after_credit == SwapStage::Aborted
                },
                None => {
                    &&& second == SwapAction::Invoke(plan.credit)
                    &&& match credit_failure {
                        Some(e) => third == SwapAction::Abort(LedgerError::Collaborator(e))
                            && after_credit == SwapStage::Aborted,
                        None => third == SwapAction::Emit(plan.event) && after_credit
                            == SwapStage::Settled,
                    }
                },
            }
        }),
{
}

/// The plan of a swap into synthetic tokens does to the balances what such a
/// swap is meant to do, and is refused where it is meant to be.
pub proof fn lemma_plan_into_usds(accounts: SwapUsdcToUsds, balances: SwapBalances, amount: u64)
    ensures
        balances.after_plan(accounts.plan(amount)) == match balances.usdc_to_usds_failure(
            amount,
        ) {
            Some(e) => Err::<SwapBalances, CollaboratorError>(e),
            None => Ok::<SwapBalances, CollaboratorError>(balances.after_usdc_to_usds(amount)),
        },
{
}

/// The plan of a swap into stable tokens does to the balances what such a
/// swap is meant to do, and is refused where it is meant to be.
pub proof fn lemma_plan_into_usdc(accounts: SwapUsdsToUsdc, balances: SwapBalances, amount: u64)
    ensures
        balances.after_plan(accounts.plan(amount)) == match balances.usds_to_usdc_failure(
            amount,
        ) {
            Some(e) => Err::<SwapBalances, CollaboratorError>(e),
            None => Ok::<SwapBalances, CollaboratorError>(balances.after_usds_to_usdc(amount)),
        },
{
}

/// A swap into synthetic tokens and back, planned for the same amount, leaves
/// all four balances where they were: once the first swap settled, the second
/// settles too.
pub proof fn lemma_plans_round_trip(
    into: SwapUsdcToUsds,
    back: SwapUsdsToUsdc,
    balances: SwapBalances,
    amount: u64,
)
    ensures
        balances.after_plan(into.plan(amount)) matches Ok(swapped) ==> swapped.after_plan(
            back.plan(amount),
        ) == Ok::<SwapBalances, CollaboratorError>(balances),
{
    lemma_plan_into_usds(into, balances, amount);
    if balances.usdc_to_usds_failure(amount) is None {
        lemma_swap_round_trip(balances, amount);
        lemma_plan_into_usdc(back, balances.after_usdc_to_usds(amount), amount);
    }
}

/// A swap neither makes nor loses stable tokens, and it keeps the synthetic
/// tokens in step with the custody: the stable tokens of user and treasury
/// together stay the same, and custody and supply change by the same amount.
pub proof fn lemma_swap_conserves(balances: SwapBalances, amount: u64)
    ensures
        balances.usdc_to_usds_failure(amount) is None ==> {
            let after = balances.after_usdc_to_usds(amount);
            &&& after.user_usdc + after.treasury_usdc == balances.user_usdc
                + balances.treasury_usdc
            &&& after.treasury_usdc - balances.treasury_usdc == after.usds_supply
                - balances.usds_supply
        },
        balances.usds_to_usdc_failure(amount) is None ==> {
            let after = balances.after_usds_to_usdc(amount);
            &&& after.user_usdc + after.treasury_usdc == balances.user_usdc
                + balances.treasury_usdc
            &&& balances.treasury_usdc - after.treasury_usdc == balances.usds_supply
                - after.usds_supply
        },
{
}

} // verus!
