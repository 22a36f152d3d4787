use stache::constant::{CURRENT_VERSION, MAX_AUTOS, MAX_VAULTS};
use stache::error::StacheError;
use stache::instructions::{create_stache, destroy_stache, destroy_vault, unstash_sol};
use stache::key::AccountKey;
use stache::treasury::CurrentStache;

fn key(n: u128) -> AccountKey {
    AccountKey::new(0, n)
}

fn fresh_stache() -> CurrentStache {
    create_stache(true, key(1), key(2), String::from("alice1"), 7).unwrap()
}

#[test]
fn create_stache_initial_state() {
    let s = fresh_stache();
    assert_eq!(s.version, CURRENT_VERSION);
    assert_eq!(s.bump, 7);
    assert_eq!(s.keychain, key(1));
    assert_eq!(s.domain, key(2));
    assert_eq!(s.stacheid, "alice1");
    assert_eq!(s.next_vault_index, 1);
    assert_eq!(s.next_auto_index, 1);
    assert!(s.vaults.is_empty());
    assert!(s.autos.is_empty());
}

#[test]
fn create_stache_requires_authorization() {
    let r = create_stache(false, key(1), key(2), String::from("alice1"), 7);
    assert_eq!(r.err(), Some(StacheError::NotAuthorized));
}

#[test]
fn destroy_stache_requires_authorization() {
    assert_eq!(destroy_stache(true), Ok(()));
    assert_eq!(destroy_stache(false), Err(StacheError::NotAuthorized));
}

#[test]
fn vault_set_stays_bounded_and_distinct() {
    let mut s = fresh_stache();
    let mut got: Vec<u8> = Vec::new();
    for _ in 0..MAX_VAULTS {
        got.push(s.add_vault().unwrap());
    }
    assert_eq!(got, vec![1, 2, 3, 4, 5]);
    assert_eq!(s.vaults, vec![1, 2, 3, 4, 5]);
    assert_eq!(s.add_vault(), Err(StacheError::HitLimit));
    assert_eq!(s.vaults.len(), MAX_VAULTS);
    for i in 0..got.len() {
        for j in 0..i {
            assert_ne!(got[i], got[j]);
        }
    }
    s.remove_vault(3);
    assert_eq!(s.vaults.len(), MAX_VAULTS - 1);
    assert!(!s.vaults.contains(&3));
    let again = s.add_vault().unwrap();
    assert_eq!(again, 6);
    assert!(s.vaults.contains(&6));
    for i in 0..s.vaults.len() {
        for j in 0..i {
            assert_ne!(s.vaults[i], s.vaults[j]);
        }
    }
}

#[test]
fn auto_set_stays_bounded_and_distinct() {
    let mut s = fresh_stache();
    for expect in 1..=MAX_AUTOS as u8 {
        assert_eq!(s.add_auto(), Ok(expect));
    }
    assert_eq!(s.add_auto(), Err(StacheError::HitLimit));
    assert_eq!(s.autos, vec![1, 2, 3, 4, 5]);
    assert_eq!(s.next_vault_index, 1);
}

#[test]
fn index_wraparound_vault_counter() {
    let mut s = fresh_stache();
    s.next_vault_index = 253;
    assert_eq!(s.add_vault(), Ok(253));
    assert_eq!(s.next_vault_index, 254);
    assert_eq!(s.add_vault(), Ok(1));
    assert_eq!(s.next_vault_index, 2);
    assert_eq!(s.add_vault(), Ok(2));
    assert!(!s.vaults.contains(&0));
    assert!(!s.vaults.contains(&254));
    assert!(!s.vaults.contains(&255));
}

#[test]
fn index_wraparound_auto_counter() {
    let mut s = fresh_stache();
    s.next_auto_index = 254;
    assert_eq!(s.add_auto(), Ok(1));
    assert_eq!(s.next_auto_index, 2);
    assert_eq!(s.add_auto(), Ok(2));
}

#[test]
fn is_vault_and_is_auto_positions() {
    let mut s = fresh_stache();
    s.add_vault().unwrap();
    s.add_vault().unwrap();
    s.add_auto().unwrap();
    assert_eq!(s.is_vault(1), Some(0));
    assert_eq!(s.is_vault(2), Some(1));
    assert_eq!(s.is_vault(9), None);
    assert_eq!(s.is_auto(1), Some(0));
    assert_eq!(s.is_auto(2), None);
}

#[test]
fn destroy_vault_checks_liveness() {
    let mut s = fresh_stache();
    s.add_vault().unwrap();
    s.add_vault().unwrap();
    assert_eq!(destroy_vault(&mut s, 9), Err(StacheError::InvalidVault));
    assert_eq!(s.vaults, vec![1, 2]);
    assert_eq!(destroy_vault(&mut s, 1), Ok(()));
    assert_eq!(s.vaults, vec![2]);
    assert_eq!(destroy_vault(&mut s, 1), Err(StacheError::InvalidVault));
}

#[test]
fn unstash_sol_keeps_rent_minimum() {
    assert_eq!(unstash_sol(100, 20, 30), Ok(70));
    assert_eq!(unstash_sol(100, 20, 80), Ok(20));
    assert_eq!(unstash_sol(100, 20, 81), Err(StacheError::InsufficientFunds));
    assert_eq!(unstash_sol(5, 0, 10), Err(StacheError::InsufficientFunds));
    assert_eq!(unstash_sol(10, 0, 10), Ok(0));
}
