//! The accounts that each operation works on, as plain values, and the test
//! that the accounts meant to sit at derived addresses do so.

use crate::address::{
    bumped_address, canonical_address, derive_address, find_program_address,
    lemma_address_by_bytes, seeds_view, Address, MAX_SEED_LEN,
};
use crate::delta_neutral::{Strategy, TreasuryStats};
use crate::error::LedgerError;
use vstd::prelude::*;
use vstd::slice::slice_to_vec;
use vstd::string::StringSliceAdditionalSpecFns;

verus! {

/// Seed of the treasury's address: the text `treasury`.
pub const TREASURY_SEED: [u8; 8] = [116, 114, 101, 97, 115, 117, 114, 121];

/// Seed of the mint authority's address: the text `mint-authority`.
pub const MINT_AUTHORITY_SEED: [u8; 14] = [
    109, 105, 110, 116, 45, 97, 117, 116, 104, 111, 114, 105, 116, 121,
];

/// First seed of the address of a treasury's statistics: the text
/// `treasury-stats`.
pub const TREASURY_STATS_SEED: [u8; 14] = [
    116, 114, 101, 97, 115, 117, 114, 121, 45, 115, 116, 97, 116, 115,
];

/// First seed of a strategy's address: the text `strategy`.
pub const STRATEGY_SEED: [u8; 8] = [115, 116, 114, 97, 116, 101, 103, 121];

/// The settings of the swap, written once.
#[derive(Clone, Copy, Debug, PartialEq, Eq)]
pub struct Config {
    /// Bump of the treasury's address.
    pub treasury_bump: u8,
    /// Bump of the mint authority's address.
    pub mint_authority_bump: u8,
    /// Mint of the synthetic token.
    pub usds_mint: Address,
    /// Token account that holds the stable tokens in custody.
    pub treasury_token_account: Address,
    /// Mint of the stable token.
    pub usdc_mint: Address,
}

impl Config {
    /// Bytes that the settings take in storage, without the eight-byte tag:
    /// the width of each field.
    pub const LEN: usize = 1 + 1 + 32 + 32 + 32;
}

/// A record together with the address it is kept at.
#[derive(Copy, Debug, PartialEq, Eq)]
pub struct Account<T> {
    pub key: Address,
    pub data: T,
}

impl<T: Copy> Clone for Account<T> {
    fn clone(&self) -> (r: Account<T>)
        ensures
            r == *self,
    {
        *self
    }
}

/// What the operations read of a token account: where it is and whose it is.
#[derive(Clone, Copy, Debug, PartialEq, Eq)]
pub struct TokenAccount {
    pub key: Address,
    pub owner: Address,
}

/// Seeds of the treasury's address.
pub open spec fn treasury_seeds() -> Seq<Seq<u8>> {
    seq![TREASURY_SEED@]
}

/// Seeds of the mint authority's address.
pub open spec fn mint_authority_seeds() -> Seq<Seq<u8>> {
    seq![MINT_AUTHORITY_SEED@]
}

/// Seeds of the address of the statistics of `treasury`.
pub open spec fn treasury_stats_seeds(treasury: Address) -> Seq<Seq<u8>> {
    seq![TREASURY_STATS_SEED@, treasury@]
}

/// Seeds of the address of the strategy that `treasury` has under `seed`.
pub open spec fn strategy_seeds(treasury: Address, seed: Seq<u8>) -> Seq<Seq<u8>> {
    seq![STRATEGY_SEED@, treasury@, seed]
}

/// The seeds of [`treasury_seeds`].
pub fn treasury_seed_list() -> (r: Vec<Vec<u8>>)
    ensures
        seeds_view(&r) == treasury_seeds(),
{
    let mut r: Vec<Vec<u8>> = Vec::new();
    r.push(slice_to_vec(TREASURY_SEED.as_slice()));
    assert(seeds_view(&r) =~= treasury_seeds());
    r
}

/// The seeds of [`mint_authority_seeds`].
pub fn mint_authority_seed_list() -> (r: Vec<Vec<u8>>)
    ensures
        seeds_view(&r) == mint_authority_seeds(),
{
    let mut r: Vec<Vec<u8>> = Vec::new();
    r.push(slice_to_vec(MINT_AUTHORITY_SEED.as_slice()));
    assert(seeds_view(&r) =~= mint_authority_seeds());
    r
}

/// The seeds of [`treasury_stats_seeds`].
pub fn treasury_stats_seed_list(treasury: &Address) -> (r: Vec<Vec<u8>>)
    ensures
        seeds_view(&r) == treasury_stats_seeds(*treasury),
{
    let mut r: Vec<Vec<u8>> = Vec::new();
    r.push(slice_to_vec(TREASURY_STATS_SEED.as_slice()));
    r.push(treasury.to_seed());
    assert(seeds_view(&r) =~= treasury_stats_seeds(*treasury));
    r
}

/// The seeds of [`strategy_seeds`], for a seed given as text.
pub fn strategy_seed_list(treasury: &Address, strategy_seed: &str) -> (r: Vec<Vec<u8>>)
    ensures
        seeds_view(&r) == strategy_seeds(*treasury, strategy_seed.spec_bytes()),
{
    let mut r: Vec<Vec<u8>> = Vec::new();
    r.push(slice_to_vec(STRATEGY_SEED.as_slice()));
    r.push(treasury.to_seed());
    r.push(slice_to_vec(strategy_seed.as_bytes()));
    assert(seeds_view(&r) =~= strategy_seeds(*treasury, strategy_seed.spec_bytes()));
    r
}

/// Whether `address` is the one derived from `seeds` followed by `bump`.
pub open spec fn is_derived(
    address: Address,
    seeds: Seq<Seq<u8>>,
    bump: u8,
    program_id: Address,
) -> bool {
    bumped_address(seeds, bump, program_id@) == Some(address@)
}

/// Whether `address` is the canonical address derived from `seeds`.
pub open spec fn is_canonical(address: Address, seeds: Seq<Seq<u8>>, program_id: Address) -> bool {
    match canonical_address(seeds, program_id@) {
        Some((derived, _)) => derived == address@,
        None => false,
    }
}

/// Holds `account` against an address derived for it: accepted where
/// `derived` is that very address, byte for byte.
pub fn check_derived(account: &Address, derived: &Option<Address>) -> (r: Result<(), LedgerError>)
    ensures
        r is Ok <==> (*derived matches Some(address) && address@ == account@),
        r is Err ==> r == Err::<(), LedgerError>(LedgerError::SeedsMismatch),
{
    match derived {
        Some(address) => {
            proof {
                lemma_address_by_bytes(*address, *account);
            }
            if *address == *account {
                Ok(())
            } else {
                Err(LedgerError::SeedsMismatch)
            }
        },
        None => Err(LedgerError::SeedsMismatch),
    }
}

/// Holds `account` against the canonical address found for it: accepted where
/// `found` holds that very address, byte for byte, and then the result is its
/// bump.
pub fn check_canonical(account: &Address, found: &Option<(Address, u8)>) -> (r: Result<
    u8,
    LedgerError,
>)
    ensures
        match r {
            Ok(bump) => *found matches Some((address, found_bump)) && address@ == account@
                && found_bump == bump,
            Err(e) => e == LedgerError::SeedsMismatch && !(*found matches Some((address, _))
                && address@ == account@),
        },
{
    match found {
        Some((address, bump)) => {
            proof {
                lemma_address_by_bytes(*address, *account);
            }
            if *address == *account {
                Ok(*bump)
            } else {
                Err(LedgerError::SeedsMismatch)
            }
        },
        None => Err(LedgerError::SeedsMismatch),
    }
}

/// Accounts of [`crate::program::initialize`].
#[derive(Clone, Copy, Debug, PartialEq, Eq)]
pub struct Initialize {
    /// Who sets the swap up.
    pub admin: Address,
    /// Where the settings go; empty until they are written.
    pub config: Account<Option<Config>>,
    /// The treasury, at the canonical address of [`treasury_seeds`].
    pub treasury: Address,
    /// Token account that will hold the stable tokens.
    pub treasury_token_account: Address,
    /// The mint authority, at the canonical address of
    /// [`mint_authority_seeds`].
    pub mint_authority: Address,
    /// Mint of the synthetic token.
    pub usds_mint: Address,
    /// Mint of the stable token.
    pub usdc_mint: Address,
}

/// Bumps found for the derived accounts of [`Initialize`].
#[derive(Clone, Copy, Debug, PartialEq, Eq)]
pub struct InitializeBumps {
    pub treasury: u8,
    pub mint_authority: u8,
}

impl Initialize {
    /// Whether the treasury and the mint authority sit at their canonical
    /// addresses.
    pub open spec fn seeds_match(&self, program_id: Address) -> bool {
        &&& is_canonical(self.treasury, treasury_seeds(), program_id)
        &&& is_canonical(self.mint_authority, mint_authority_seeds(), program_id)
    }

    /// Tests that the treasury and the mint authority sit at their canonical
    /// addresses, and gives the bumps of the two.
    pub fn verify_seeds(&self, program_id: &Address) -> (r: Result<InitializeBumps, LedgerError>)
        ensures
            r is Ok <==> self.seeds_match(*program_id),
            r matches Ok(bumps) ==> {
                &&& canonical_address(treasury_seeds(), program_id@) == Some(
                    (self.treasury@, bumps.treasury),
                )
                &&& canonical_address(mint_authority_seeds(), program_id@) == Some(
                    (self.mint_authority@, bumps.mint_authority),
                )
            },
            r matches Err(e) ==> e == LedgerError::SeedsMismatch,
    {
        let treasury_found = find_program_address(&treasury_seed_list(), program_id);
        let treasury = match check_canonical(&self.treasury, &treasury_found) {
            Ok(bump) => bump,
            Err(e) => {
                return Err(e);
            },
        };
        let authority_found = find_program_address(&mint_authority_seed_list(), program_id);
        let mint_authority = match check_canonical(&self.mint_authority, &authority_found) {
            Ok(bump) => bump,
            Err(e) => {
                return Err(e);
            },
        };
        Ok(InitializeBumps { treasury, mint_authority })
    }
}

/// Accounts of [`crate::program::swap_usdc_to_usds`].
#[derive(Clone, Copy, Debug, PartialEq, Eq)]
pub struct SwapUsdcToUsds {
    /// Who swaps.
    pub user: Address,
    pub config: Config,
    /// The user's account of stable tokens.
    pub user_usdc: TokenAccount,
    /// The user's account of synthetic tokens.
    pub user_usds: TokenAccount,
    /// The treasury, which has the stable tokens in custody.
    pub treasury: Address,
    pub treasury_token_account: Address,
    /// The authority that mints synthetic tokens.
    pub mint_authority: Address,
    pub usds_mint: Address,
}

impl SwapUsdcToUsds {
    /// Whether the treasury and the mint authority sit at the addresses
    /// derived with the bumps that the settings hold.
    pub open spec fn seeds_match(&self, program_id: Address) -> bool {
        &&& is_derived(self.treasury, treasury_seeds(), self.config.treasury_bump, program_id)
        &&& is_derived(
            self.mint_authority,
            mint_authority_seeds(),
            self.config.mint_authority_bump,
            program_id,
        )
    }

    /// Tests that the treasury and the mint authority sit at the addresses
    /// derived with the bumps that the settings hold.
    pub fn verify_seeds(&self, program_id: &Address) -> (r: Result<(), LedgerError>)
        ensures
            r is Ok <==> self.seeds_match(*program_id),
            r is Err ==> r == Err::<(), LedgerError>(LedgerError::SeedsMismatch),
    {
        let treasury = derive_address(&treasury_seed_list(), self.config.treasury_bump, program_id);
        match check_derived(&self.treasury, &treasury) {
            Ok(()) => {},
            Err(e) => {
                return Err(e);
            },
        }
        let authority = derive_address(
            &mint_authority_seed_list(),
            self.config.mint_authority_bump,
            program_id,
        );
        check_derived(&self.mint_authority, &authority)
    }
}

/// Accounts of [`crate::program::swap_usds_to_usdc`].
#[derive(Clone, Copy, Debug, PartialEq, Eq)]
pub struct SwapUsdsToUsdc {
    /// Who swaps.
    pub user: Address,
    pub config: Config,
    /// The user's account of stable tokens.
    pub user_usdc: TokenAccount,
    /// The user's account of synthetic tokens.
    pub user_usds: TokenAccount,
    /// The treasury, which releases the stable tokens.
    pub treasury: Address,
    pub treasury_token_account: Address,
    pub usds_mint: Address,
}

impl SwapUsdsToUsdc {
    /// Whether the treasury sits at the address derived with the bump that
    /// the settings hold.
    pub open spec fn seeds_match(&self, program_id: Address) -> bool {
        is_derived(self.treasury, treasury_seeds(), self.config.treasury_bump, program_id)
    }

    /// Tests that the treasury sits at the address derived with the bump that
    /// the settings hold.
    pub fn verify_seeds(&self, program_id: &Address) -> (r: Result<(), LedgerError>)
        ensures
            r is Ok <==> self.seeds_match(*program_id),
            r is Err ==> r == Err::<(), LedgerError>(LedgerError::SeedsMismatch),
    {
        let treasury = derive_address(&treasury_seed_list(), self.config.treasury_bump, program_id);
        check_derived(&self.treasury, &treasury)
    }
}

/// Accounts of [`crate::program::initialize_strategy`].
#[derive(Clone, Copy, Debug, PartialEq, Eq)]
pub struct InitializeStrategy {
    /// Who creates the strategy, and will be its authority.
    pub authority: Address,
    pub config: Config,
    pub treasury: Address,
    pub treasury_token_account: Address,
    /// Where the strategy goes; empty until it is created.
    pub strategy: Account<Option<Strategy>>,
    /// The statistics of the treasury; empty until its first strategy is
    /// created.
    pub treasury_stats: Account<Option<TreasuryStats>>,
}

/// Bumps found for the derived accounts of [`InitializeStrategy`].
#[derive(Clone, Copy, Debug, PartialEq, Eq)]
pub struct InitializeStrategyBumps {
    pub strategy: u8,
    pub treasury_stats: u8,
}

impl InitializeStrategy {
    /// Whether the strategy and the statistics sit at their canonical
    /// addresses, and the treasury at the address derived with the bump that
    /// the settings hold.
    pub open spec fn seeds_match(&self, program_id: Address, strategy_seed: Seq<u8>) -> bool {
        &&& is_canonical(
            self.strategy.key,
            strategy_seeds(self.treasury, strategy_seed),
            program_id,
        )
        &&& is_canonical(self.treasury_stats.key, treasury_stats_seeds(self.treasury), program_id)
        &&& is_derived(self.treasury, treasury_seeds(), self.config.treasury_bump, program_id)
    }

    /// Tests that the strategy named by `strategy_seed` and the statistics sit
    /// at their canonical addresses and the treasury at its derived address,
    /// and gives the bumps of the first two. A seed of more than 32 bytes has
    /// no address.
    pub fn verify_seeds(&self, program_id: &Address, strategy_seed: &str) -> (r: Result<
        InitializeStrategyBumps,
        LedgerError,
    >)
        ensures
            r is Ok <==> self.seeds_match(*program_id, strategy_seed.spec_bytes()),
            r matches Ok(bumps) ==> {
                &&& canonical_address(
                    strategy_seeds(self.treasury, strategy_seed.spec_bytes()),
                    program_id@,
                ) == Some((self.strategy.key@, bumps.strategy))
                &&& canonical_address(treasury_stats_seeds(self.treasury), program_id@) == Some(
                    (self.treasury_stats.key@, bumps.treasury_stats),
                )
            },
            r matches Err(e) ==> e == LedgerError::SeedsMismatch,
            strategy_seed.spec_bytes().len() > MAX_SEED_LEN ==> r is Err,
    {
        let strategy_found = find_program_address(
            &strategy_seed_list(&self.treasury, strategy_seed),
            program_id,
        );
        let strategy = match check_canonical(&self.strategy.key, &strategy_found) {
            Ok(bump) => bump,
            Err(e) => {
                return Err(e);
            },
        };
        let stats_found = find_program_address(
            &treasury_stats_seed_list(&self.treasury),
            program_id,
        );
        let treasury_stats = match check_canonical(&self.treasury_stats.key, &stats_found) {
            Ok(bump) => bump,
            Err(e) => {
                return Err(e);
            },
        };
        let treasury = derive_address(&treasury_seed_list(), self.config.treasury_bump, program_id);
        match check_derived(&self.treasury, &treasury) {
            Ok(()) => {},
            Err(e) => {
                return Err(e);
            },
        }
        Ok(InitializeStrategyBumps { strategy, treasury_stats })
    }
}

/// Accounts of the operations on an existing strategy.
#[derive(Clone, Copy, Debug, PartialEq, Eq)]
pub struct UpdateStrategy {
    /// Who asks for the change.
    pub authority: Address,
    pub strategy: Account<Strategy>,
    /// The statistics of the strategy's treasury.
    pub treasury_stats: Account<TreasuryStats>,
}

impl UpdateStrategy {
    /// Whether the caller is the authority of the strategy.
    pub open spec fn is_authorized(&self) -> bool {
        self.authority == self.strategy.data.authority
    }

    /// Whether the statistics sit at the address derived for the strategy's
    /// treasury with the bump that they hold.
    pub open spec fn seeds_match(&self, program_id: Address) -> bool {
        is_derived(
            self.treasury_stats.key,
            treasury_stats_seeds(self.strategy.data.treasury),
            self.treasury_stats.data.bump,
            program_id,
        )
    }

    /// Tests that the statistics sit at the address derived for the
    /// strategy's treasury with the bump that they hold.
    pub fn verify_seeds(&self, program_id: &Address) -> (r: Result<(), LedgerError>)
        ensures
            r is Ok <==> self.seeds_match(*program_id),
            r is Err ==> r == Err::<(), LedgerError>(LedgerError::SeedsMismatch),
    {
        let stats = derive_address(
            &treasury_stats_seed_list(&self.strategy.data.treasury),
            self.treasury_stats.data.bump,
            program_id,
        );
        check_derived(&self.treasury_stats.key, &stats)
    }
}

/// Accounts of [`crate::program::report_yield`].
#[derive(Clone, Copy, Debug, PartialEq, Eq)]
pub struct ReportYield {
    /// Who reports.
    pub authority: Address,
    pub treasury: Address,
    /// The statistics of the treasury.
    pub treasury_stats: Account<TreasuryStats>,
}

impl ReportYield {
    /// Whether the caller is the authority of the treasury.
    pub open spec fn is_authorized(&self) -> bool {
        self.authority == self.treasury_stats.data.treasury_authority
    }

    /// Whether the treasury sits at its canonical address and the statistics
    /// at the address derived for the treasury with the bump that they hold.
    pub open spec fn seeds_match(&self, program_id: Address) -> bool {
        &&& is_canonical(self.treasury, treasury_seeds(), program_id)
        &&& is_derived(
            self.treasury_stats.key,
            treasury_stats_seeds(self.treasury),
            self.treasury_stats.data.bump,
            program_id,
        )
    }

    /// Tests that the treasury sits at its canonical address and the
    /// statistics at their derived address, and gives the treasury's bump.
    pub fn verify_seeds(&self, program_id: &Address) -> (r: Result<u8, LedgerError>)
        ensures
            r is Ok <==> self.seeds_match(*program_id),
            r matches Ok(bump) ==> canonical_address(treasury_seeds(), program_id@) == Some(
                (self.treasury@, bump),
            ),
            r matches Err(e) ==> e == LedgerError::SeedsMismatch,
    {
        let treasury_found = find_program_address(&treasury_seed_list(), program_id);
        let bump = match check_canonical(&self.treasury, &treasury_found) {
            Ok(bump) => bump,
            Err(e) => {
                return Err(e);
            },
        };
        let stats = derive_address(
            &treasury_stats_seed_list(&self.treasury),
            self.treasury_stats.data.bump,
            program_id,
        );
        match check_derived(&self.treasury_stats.key, &stats) {
            Ok(()) => {},
            Err(e) => {
                return Err(e);
            },
        }
        Ok(bump)
    }
}

} // verus!
