//! Account addresses and the addresses a program derives from seeds.

use anchor_lang::prelude::Pubkey;
use vstd::prelude::*;

verus! {

/// Longest seed, in bytes, that an address can be derived from.
pub const MAX_SEED_LEN: usize = 32;

/// Largest number of seeds that an address can be derived from.
pub const MAX_SEEDS: usize = 16;

/// The address of an account: 32 bytes.
#[derive(Clone, Copy, Debug, Eq, Hash)]
pub struct Address {
    pub bytes: [u8; 32],
}

impl View for Address {
    type V = Seq<u8>;

    open spec fn view(&self) -> Seq<u8> {
        self.bytes@
    }
}

impl PartialEq for Address {
    fn eq(&self, other: &Address) -> (r: bool) {
        let mut i: usize = 0;
        while i < 32
            invariant
                i <= 32,
                forall|j: int| 0 <= j < i ==> self.bytes[j] == other.bytes[j],
            decreases 32 - i,
        {
            if self.bytes[i] != other.bytes[i] {
                return false;
            }
            i += 1;
        }
        assert(self.bytes =~= other.bytes);
        true
    }
}

impl vstd::std_specs::cmp::PartialEqSpecImpl for Address {
    open spec fn obeys_eq_spec() -> bool {
        true
    }

    open spec fn eq_spec(&self, other: &Address) -> bool {
        *self == *other
    }
}

impl Default for Address {
    /// The address whose bytes are all zero.
    fn default() -> (r: Address)
        ensures
            r@ == Seq::new(32, |i: int| 0u8),
    {
        let r = Address { bytes: [0u8; 32] };
        assert(r@ =~= Seq::new(32, |i: int| 0u8));
        r
    }
}

impl Address {
    /// The bytes of the address, as a seed for a derived address.
    pub fn to_seed(&self) -> (r: Vec<u8>)
        ensures
            r@ == self@,
    {
        let mut r: Vec<u8> = Vec::new();
        let mut i: usize = 0;
        while i < 32
            invariant
                i <= 32,
                r@.len() == i,
                forall|j: int| 0 <= j < i ==> r@[j] == self.bytes[j],
            decreases 32 - i,
        {
            r.push(self.bytes[i]);
            i += 1;
        }
        assert(r@ =~= self@);
        r
    }
}

/// Two addresses are the same address exactly when they hold the same bytes.
pub proof fn lemma_address_by_bytes(a: Address, b: Address)
    ensures
        (a == b) <==> (a@ == b@),
{
    if a@ == b@ {
        assert(a.bytes =~= b.bytes);
    }
}

/// The address that holds `bytes`.
pub open spec fn address_of(bytes: Seq<u8>) -> Address {
    choose|address: Address| address@ == bytes
}

/// An address is the address of its bytes.
pub proof fn lemma_address_of(address: Address)
    ensures
        address_of(address@) == address,
{
    lemma_address_by_bytes(address_of(address@), address);
}

/// The bytes of the address under which this program is deployed.
pub open spec fn program_id_bytes() -> Seq<u8> {
    seq![
        146u8, 21, 48, 219, 16, 239, 69, 62, 215, 100, 117, 203, 28, 118, 120, 165,
        233, 194, 145, 131, 11, 159, 232, 159, 59, 68, 66, 203, 247, 124, 70, 124,
    ]
}

/// The address under which this program is deployed,
/// `AqFGP1Fs3nJ3Ue2Nc7RVZ1AUAad5AsEr4VBRJB2mEnk3` in base 58.
pub fn id() -> (r: Address)
    ensures
        r@ == program_id_bytes(),
{
    let r = Address {
        bytes: [
            146, 21, 48, 219, 16, 239, 69, 62, 215, 100, 117, 203, 28, 118, 120, 165,
            233, 194, 145, 131, 11, 159, 232, 159, 59, 68, 66, 203, 247, 124, 70, 124,
        ],
    };
    assert(r@ =~= program_id_bytes());
    r
}

/// The seeds of a list, each as its bytes.
pub open spec fn seeds_view(seeds: &Vec<Vec<u8>>) -> Seq<Seq<u8>> {
    Seq::new(seeds@.len(), |i: int| seeds@[i]@)
}

/// Whether an address can be derived from `seeds` at all: at most
/// [`MAX_SEEDS`] seeds, none longer than [`MAX_SEED_LEN`] bytes.
pub open spec fn seeds_within_limits(seeds: Seq<Seq<u8>>) -> bool {
    &&& seeds.len() <= MAX_SEEDS
    &&& forall|i: int| 0 <= i < seeds.len() ==> (#[trigger] seeds[i]).len() <= MAX_SEED_LEN
}

/// The address that `program_id` derives from `seeds`, where there is one:
/// the SHA-256 digest of the seeds, the program's address and a marker, unless
/// that digest is a point of the ed25519 curve.
pub uninterp spec fn program_address(seeds: Seq<Seq<u8>>, program_id: Seq<u8>) -> Option<Seq<u8>>;

/// Calls `Pubkey::create_program_address` of `solana_program`, as `anchor_lang`
/// exports it. Trusted: the result is the derived address of
/// [`program_address`], and there is none where the seeds are more than
/// [`MAX_SEEDS`] or one of them is longer than [`MAX_SEED_LEN`] bytes.
#[verifier::external_body]
pub(crate) fn create_program_address(seeds: &Vec<Vec<u8>>, program_id: &Address) -> (r: Option<
    Address,
>)
    ensures
        match r {
            Some(address) => program_address(seeds_view(seeds), program_id@) == Some(address@),
            None => program_address(seeds_view(seeds), program_id@) is None,
        },
        !seeds_within_limits(seeds_view(seeds)) ==> r is None,
{
    let parts: Vec<&[u8]> = seeds.iter().map(|seed| seed.as_slice()).collect();
    match Pubkey::create_program_address(&parts, &Pubkey::new_from_array(program_id.bytes)) {
        Ok(key) => Some(Address { bytes: key.to_bytes() }),
        Err(_) => None,
    }
}

/// The first address, from `bump` downwards to 1, that `program_id` derives
/// from `seeds` followed by the bump as a seed of one byte.
pub open spec fn canonical_address_from(
    seeds: Seq<Seq<u8>>,
    program_id: Seq<u8>,
    bump: int,
) -> Option<(Seq<u8>, u8)>
    decreases bump,
{
    if bump < 1 || bump > 255 {
        None
    } else {
        match program_address(seeds.push(seq![bump as u8]), program_id) {
            Some(address) => Some((address, bump as u8)),
            None => canonical_address_from(seeds, program_id, bump - 1),
        }
    }
}

/// The canonical derived address of `seeds` with its bump: the one with the
/// largest bump between 255 and 1 for which an address exists.
pub open spec fn canonical_address(seeds: Seq<Seq<u8>>, program_id: Seq<u8>) -> Option<
    (Seq<u8>, u8),
> {
    canonical_address_from(seeds, program_id, 255)
}

/// The address derived from `seeds` followed by `bump`.
pub open spec fn bumped_address(seeds: Seq<Seq<u8>>, bump: u8, program_id: Seq<u8>) -> Option<
    Seq<u8>,
> {
    program_address(seeds.push(seq![bump]), program_id)
}

/// What makes an address canonical: it is derived with its bump, the bump is
/// not zero, and no larger bump derives an address.
pub proof fn lemma_canonical_address(seeds: Seq<Seq<u8>>, program_id: Seq<u8>, from: int)
    requires
        0 <= from <= 255,
    ensures
        match canonical_address_from(seeds, program_id, from) {
            Some((address, bump)) => {
                &&& 1 <= bump <= from
                &&& bumped_address(seeds, bump, program_id) == Some(address)
                &&& forall|b: u8| bump < b <= from ==> bumped_address(seeds, b, program_id) is None
            },
            None => forall|b: u8| 1 <= b <= from ==> bumped_address(seeds, b, program_id) is None,
        },
    decreases from,
{
    if from >= 1 {
        lemma_canonical_address(seeds, program_id, from - 1);
        if program_address(seeds.push(seq![from as u8]), program_id) is None {
            assert(bumped_address(seeds, from as u8, program_id) is None);
        }
    }
}

/// A copy of `seeds` with the one-byte seed `bump` added at the end.
pub fn seeds_with_bump(seeds: &Vec<Vec<u8>>, bump: u8) -> (r: Vec<Vec<u8>>)
    ensures
        seeds_view(&r) == seeds_view(seeds).push(seq![bump]),
{
    let mut r: Vec<Vec<u8>> = Vec::new();
    let mut i: usize = 0;
    while i < seeds.len()
        invariant
            i <= seeds@.len(),
            r@.len() == i,
            forall|j: int| 0 <= j < i ==> r@[j]@ == seeds@[j]@,
        decreases seeds@.len() - i,
    {
        let mut seed: Vec<u8> = Vec::new();
        let mut k: usize = 0;
        while k < seeds[i].len()
            invariant
                i < seeds@.len(),
                k <= seeds@[i as int]@.len(),
                seed@.len() == k,
                forall|j: int| 0 <= j < k ==> seed@[j] == seeds@[i as int]@[j],
            decreases seeds@[i as int]@.len() - k,
        {
            seed.push(seeds[i][k]);
            k += 1;
        }
        assert(seed@ =~= seeds@[i as int]@);
        r.push(seed);
        i += 1;
    }
    let mut last: Vec<u8> = Vec::new();
    last.push(bump);
    assert(last@ =~= seq![bump]);
    r.push(last);
    assert(seeds_view(&r) =~= seeds_view(seeds).push(seq![bump]));
    r
}

/// Whether a bump can follow `seeds`: at most 15 seeds, none longer than
/// [`MAX_SEED_LEN`] bytes.
pub open spec fn leaves_room_for_bump(seeds: Seq<Seq<u8>>) -> bool {
    seeds_within_limits(seeds) && seeds.len() < MAX_SEEDS
}

/// Seeds that leave no room for a bump are beyond the limits with any bump.
pub proof fn lemma_no_room_for_bump(seeds: Seq<Seq<u8>>, bump: u8)
    requires
        !leaves_room_for_bump(seeds),
    ensures
        !seeds_within_limits(seeds.push(seq![bump])),
{
    let bumped = seeds.push(seq![bump]);
    if seeds.len() < MAX_SEEDS {
        let i = choose|i: int| 0 <= i < seeds.len() && (#[trigger] seeds[i]).len() > MAX_SEED_LEN;
        assert(bumped[i] == seeds[i]);
    }
}

/// The address that `program_id` derives from `seeds` followed by `bump`, if
/// there is one. There is none where the seeds are 16 or more, or one of them
/// is longer than 32 bytes.
pub fn derive_address(seeds: &Vec<Vec<u8>>, bump: u8, program_id: &Address) -> (r: Option<Address>)
    ensures
        match r {
            Some(address) => bumped_address(seeds_view(seeds), bump, program_id@) == Some(
                address@,
            ),
            None => bumped_address(seeds_view(seeds), bump, program_id@) is None,
        },
        !leaves_room_for_bump(seeds_view(seeds)) ==> r is None,
{
    let bumped = seeds_with_bump(seeds, bump);
    proof {
        if !leaves_room_for_bump(seeds_view(seeds)) {
            lemma_no_room_for_bump(seeds_view(seeds), bump);
        }
    }
    create_program_address(&bumped, program_id)
}

/// The canonical address that `program_id` derives from `seeds`, with its bump.
/// There is none where the seeds are too many or too long, or where no bump
/// between 255 and 1 derives an address.
pub fn find_program_address(seeds: &Vec<Vec<u8>>, program_id: &Address) -> (r: Option<
    (Address, u8),
>)
    ensures
        match r {
            Some((address, bump)) => canonical_address(seeds_view(seeds), program_id@) == Some(
                (address@, bump),
            ),
            None => canonical_address(seeds_view(seeds), program_id@) is None,
        },
        !leaves_room_for_bump(seeds_view(seeds)) ==> r is None,
{
    let mut bump: u8 = 255;
    while bump >= 1
        invariant
            canonical_address(seeds_view(seeds), program_id@) == canonical_address_from(
                seeds_view(seeds),
                program_id@,
                bump as int,
            ),
        decreases bump,
    {
        match derive_address(seeds, bump, program_id) {
            Some(address) => {
                return Some((address, bump));
            },
            None => {},
        }
        bump -= 1;
    }
    None
}

} // verus!
