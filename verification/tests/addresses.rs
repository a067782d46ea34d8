use std::str::FromStr;

use anchor_lang::prelude::Pubkey;
use usds_swap::accounts::{strategy_seed_list, treasury_seed_list, treasury_stats_seed_list};
use usds_swap::address::{derive_address, find_program_address, seeds_with_bump};
use usds_swap::{id, Address};

fn declared_id() -> Pubkey {
    Pubkey::from_str("AqFGP1Fs3nJ3Ue2Nc7RVZ1AUAad5AsEr4VBRJB2mEnk3").unwrap()
}

#[test]
fn program_id_is_the_declared_address() {
    assert_eq!(id().bytes, declared_id().to_bytes());
}

#[test]
fn default_address_is_all_zero() {
    assert_eq!(Address::default().bytes, [0u8; 32]);
    assert_eq!(Address::default().bytes, Pubkey::default().to_bytes());
}

#[test]
fn addresses_compare_by_their_bytes() {
    let mut bytes = [7u8; 32];
    let a = Address { bytes };
    assert!(a == Address { bytes });
    bytes[31] = 8;
    assert!(a != Address { bytes });
    bytes[31] = 7;
    bytes[0] = 0;
    assert!(a != Address { bytes });
}

#[test]
fn to_seed_gives_the_bytes() {
    let mut bytes = [0u8; 32];
    for (i, b) in bytes.iter_mut().enumerate() {
        *b = i as u8;
    }
    assert_eq!(Address { bytes }.to_seed(), bytes.to_vec());
}

#[test]
fn treasury_address_is_the_one_the_chain_derives() {
    let (expected, bump) = Pubkey::find_program_address(&[b"treasury"], &declared_id());
    let found = find_program_address(&treasury_seed_list(), &id());
    assert_eq!(found, Some((Address { bytes: expected.to_bytes() }, bump)));
}

#[test]
fn treasury_stats_address_is_the_one_the_chain_derives() {
    let (treasury, _) = Pubkey::find_program_address(&[b"treasury"], &declared_id());
    let (expected, bump) =
        Pubkey::find_program_address(&[b"treasury-stats", treasury.as_ref()], &declared_id());
    let seeds = treasury_stats_seed_list(&Address { bytes: treasury.to_bytes() });
    assert_eq!(
        find_program_address(&seeds, &id()),
        Some((Address { bytes: expected.to_bytes() }, bump))
    );
}

#[test]
fn strategy_address_is_the_one_the_chain_derives() {
    let (treasury, _) = Pubkey::find_program_address(&[b"treasury"], &declared_id());
    let (expected, bump) = Pubkey::find_program_address(
        &[b"strategy", treasury.as_ref(), "staking-1".as_bytes()],
        &declared_id(),
    );
    let seeds = strategy_seed_list(&Address { bytes: treasury.to_bytes() }, "staking-1");
    assert_eq!(
        find_program_address(&seeds, &id()),
        Some((Address { bytes: expected.to_bytes() }, bump))
    );
}

#[test]
fn derive_address_agrees_with_create_program_address() {
    let program = declared_id();
    let mut some = 0;
    let mut none = 0;
    for bump in 0..=255u8 {
        let expected = Pubkey::create_program_address(&[b"mint-authority", &[bump]], &program)
            .ok()
            .map(|key| Address { bytes: key.to_bytes() });
        let seeds = vec![b"mint-authority".to_vec()];
        assert_eq!(derive_address(&seeds, bump, &id()), expected);
        if expected.is_some() {
            some += 1;
        } else {
            none += 1;
        }
    }
    assert!(some > 0);
    assert!(none > 0);
}

#[test]
fn derived_address_depends_on_the_program() {
    let other = Address { bytes: [9u8; 32] };
    let ours = find_program_address(&treasury_seed_list(), &id()).unwrap();
    let theirs = find_program_address(&treasury_seed_list(), &other).unwrap();
    assert!(ours.0 != theirs.0);
    assert!(ours.0 != id());
}

#[test]
fn seed_of_33_bytes_has_no_address() {
    let long = vec![vec![1u8; 33]];
    assert_eq!(find_program_address(&long, &id()), None);
    assert_eq!(derive_address(&long, 255, &id()), None);
    let fits = vec![vec![1u8; 32]];
    assert!(find_program_address(&fits, &id()).is_some());
}

#[test]
fn sixteen_seeds_leave_no_room_for_a_bump() {
    let sixteen = vec![vec![1u8]; 16];
    assert_eq!(find_program_address(&sixteen, &id()), None);
    let seventeen = vec![vec![1u8]; 17];
    assert_eq!(find_program_address(&seventeen, &id()), None);
    let fifteen = vec![vec![1u8]; 15];
    assert!(find_program_address(&fifteen, &id()).is_some());
}

#[test]
fn seeds_with_bump_appends_one_byte() {
    let seeds = vec![vec![1u8, 2], vec![], vec![3u8]];
    assert_eq!(
        seeds_with_bump(&seeds, 254),
        vec![vec![1u8, 2], vec![], vec![3u8], vec![254u8]]
    );
    assert_eq!(seeds_with_bump(&Vec::new(), 0), vec![vec![0u8]]);
}
