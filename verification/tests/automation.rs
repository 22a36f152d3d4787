use stache::auto::{Auto, BalanceTrigger};
use stache::error::StacheError;
use stache::instructions::{
    activate_auto, create_automation, create_stache, fire_auto, set_auto_action,
    set_auto_balance_trigger, BalanceSource, FireOutcome,
};
use stache::key::AccountKey;
use stache::vault::TransferAction;

fn key(n: u128) -> AccountKey {
    AccountKey::new(0, n)
}

fn bal(n: u128, amount: u64) -> BalanceSource {
    BalanceSource { account: key(n), amount }
}

fn fresh_auto() -> Auto {
    let mut s = create_stache(true, key(1), key(2), String::from("alice1"), 7).unwrap();
    create_automation(&mut s, key(10), String::from("auto1"), 4).unwrap()
}

/// Watched account 300, transfer of `amount` from 301 to 302.
fn configured_auto(trigger_balance: u64, above: bool, amount: u64) -> Auto {
    let mut a = fresh_auto();
    set_auto_balance_trigger(&mut a, Some(key(300)), trigger_balance, above).unwrap();
    set_auto_action(&mut a, Some(key(301)), Some(key(302)), amount).unwrap();
    activate_auto(&mut a, false, None).unwrap();
    a
}

#[test]
fn create_automation_initial_state() {
    let a = fresh_auto();
    assert_eq!(a.stache, key(10));
    assert_eq!(a.index, 1);
    assert_eq!(a.bump, 4);
    assert!(!a.active);
    assert!(a.paused);
    assert!(a.thread.is_none());
    assert_eq!(a.name, "auto1");
    assert!(a.action.is_none());
    assert!(a.trigger.is_none());
}

#[test]
fn configuring_records_trigger_and_action() {
    let mut a = fresh_auto();
    set_auto_balance_trigger(&mut a, Some(key(300)), 50, true).unwrap();
    assert_eq!(
        a.balance_trigger(),
        Ok(BalanceTrigger { account: key(300), trigger_balance: 50, above: true })
    );
    set_auto_action(&mut a, Some(key(301)), Some(key(302)), 10).unwrap();
    assert_eq!(
        a.transfer_action(),
        Ok(TransferAction { from: key(301), to: key(302), amount: 10 })
    );
}

#[test]
fn configuring_needs_the_accounts() {
    let mut a = fresh_auto();
    assert_eq!(
        set_auto_balance_trigger(&mut a, None, 50, true),
        Err(StacheError::MissingAccount)
    );
    assert!(a.trigger.is_none());
    assert_eq!(
        set_auto_action(&mut a, None, Some(key(302)), 10),
        Err(StacheError::MissingAccount)
    );
    assert_eq!(
        set_auto_action(&mut a, Some(key(301)), None, 10),
        Err(StacheError::MissingAccount)
    );
    assert!(a.action.is_none());
}

#[test]
fn active_automation_is_locked() {
    let mut a = fresh_auto();
    set_auto_balance_trigger(&mut a, Some(key(300)), 50, true).unwrap();
    set_auto_action(&mut a, Some(key(301)), Some(key(302)), 10).unwrap();
    activate_auto(&mut a, false, None).unwrap();
    assert!(a.active);
    assert_eq!(
        set_auto_balance_trigger(&mut a, Some(key(300)), 60, false),
        Err(StacheError::AutomationLocked)
    );
    assert_eq!(
        set_auto_action(&mut a, Some(key(301)), Some(key(302)), 20),
        Err(StacheError::AutomationLocked)
    );
    assert_eq!(
        a.balance_trigger(),
        Ok(BalanceTrigger { account: key(300), trigger_balance: 50, above: true })
    );
    assert_eq!(
        a.transfer_action(),
        Ok(TransferAction { from: key(301), to: key(302), amount: 10 })
    );
}

#[test]
fn activation_with_scheduler_needs_thread() {
    let mut a = fresh_auto();
    assert_eq!(activate_auto(&mut a, true, None), Err(StacheError::MissingAccount));
    assert!(!a.active);
    assert_eq!(activate_auto(&mut a, true, Some(key(400))), Ok(()));
    assert!(a.active);
    assert_eq!(a.thread, Some(key(400)));
}

#[test]
fn fire_above_trigger() {
    // Balance 100 at or above threshold 50: the action executes; balance 30
    // below it: skipped, no error, no state change.
    let a = configured_auto(50, true, 10);
    let r = fire_auto(&a, false, false, bal(301, 100), bal(302, 0), Some(bal(300, 100)));
    assert_eq!(
        r,
        Ok(FireOutcome::Executed(TransferAction { from: key(301), to: key(302), amount: 10 }))
    );
    let r = fire_auto(&a, false, false, bal(301, 100), bal(302, 0), Some(bal(300, 30)));
    assert_eq!(r, Ok(FireOutcome::Skipped));
    assert!(a.active);
}

#[test]
fn fire_below_trigger_scenario() {
    // Trigger below 100, action amount 5: balance 90 executes the transfer
    // of 5; a later evaluation at balance 150 is skipped.
    let a = configured_auto(100, false, 5);
    let r = fire_auto(&a, false, false, bal(301, 40), bal(302, 0), Some(bal(300, 90)));
    assert_eq!(
        r,
        Ok(FireOutcome::Executed(TransferAction { from: key(301), to: key(302), amount: 5 }))
    );
    let r = fire_auto(&a, false, false, bal(301, 40), bal(302, 0), Some(bal(300, 150)));
    assert_eq!(r, Ok(FireOutcome::Skipped));
}

#[test]
fn fire_boundary_values() {
    let a = configured_auto(50, true, 10);
    let at = fire_auto(&a, false, false, bal(301, 100), bal(302, 0), Some(bal(300, 50)));
    assert_eq!(
        at,
        Ok(FireOutcome::Executed(TransferAction { from: key(301), to: key(302), amount: 10 }))
    );
    let under = fire_auto(&a, false, false, bal(301, 100), bal(302, 0), Some(bal(300, 49)));
    assert_eq!(under, Ok(FireOutcome::Skipped));
    let b = configured_auto(50, false, 10);
    let at = fire_auto(&b, false, false, bal(301, 100), bal(302, 0), Some(bal(300, 50)));
    assert_eq!(at, Ok(FireOutcome::Skipped));
    let under = fire_auto(&b, false, false, bal(301, 100), bal(302, 0), Some(bal(300, 49)));
    assert_eq!(
        under,
        Ok(FireOutcome::Executed(TransferAction { from: key(301), to: key(302), amount: 10 }))
    );
}

#[test]
fn fire_without_funds_is_skipped() {
    let a = configured_auto(50, true, 10);
    let r = fire_auto(&a, false, false, bal(301, 9), bal(302, 0), Some(bal(300, 100)));
    assert_eq!(r, Ok(FireOutcome::Skipped));
}

#[test]
fn fire_needs_configuration() {
    let bare = fresh_auto();
    let r = fire_auto(&bare, false, false, bal(301, 100), bal(302, 0), Some(bal(300, 100)));
    assert_eq!(r, Err(StacheError::InvalidAction));
    let mut with_action = fresh_auto();
    set_auto_action(&mut with_action, Some(key(301)), Some(key(302)), 10).unwrap();
    let r = fire_auto(&with_action, false, false, bal(301, 100), bal(302, 0), Some(bal(300, 100)));
    assert_eq!(r, Err(StacheError::InvalidTrigger));
}

#[test]
fn fire_validates_balance_source() {
    let a = configured_auto(50, true, 10);
    let none = fire_auto(&a, false, false, bal(301, 100), bal(302, 0), None);
    assert_eq!(none, Err(StacheError::MissingAccount));
    let wrong = fire_auto(&a, false, false, bal(301, 100), bal(302, 0), Some(bal(299, 100)));
    assert_eq!(wrong, Err(StacheError::InvalidTrigger));
}

#[test]
fn fire_rejects_colliding_accounts() {
    // The watched account doubles as an action account: refused.
    let mut a = fresh_auto();
    set_auto_balance_trigger(&mut a, Some(key(302)), 50, true).unwrap();
    set_auto_action(&mut a, Some(key(301)), Some(key(302)), 10).unwrap();
    activate_auto(&mut a, false, None).unwrap();
    let dupe_to = fire_auto(&a, false, false, bal(301, 100), bal(302, 0), Some(bal(302, 100)));
    assert_eq!(dupe_to, Err(StacheError::DupeAccount));
    let mut b = fresh_auto();
    set_auto_balance_trigger(&mut b, Some(key(301)), 50, true).unwrap();
    set_auto_action(&mut b, Some(key(301)), Some(key(302)), 10).unwrap();
    activate_auto(&mut b, false, None).unwrap();
    let dupe_from = fire_auto(&b, false, false, bal(301, 100), bal(302, 0), Some(bal(301, 100)));
    assert_eq!(dupe_from, Err(StacheError::DupeAccount));
}

#[test]
fn fire_can_watch_an_action_account() {
    // With `use_ref` the watched balance is read off one of the action
    // accounts directly, without a separate balance source.
    let a = configured_auto(50, true, 10);
    let from_side = fire_auto(&a, true, true, bal(301, 100), bal(302, 0), None);
    assert_eq!(
        from_side,
        Ok(FireOutcome::Executed(TransferAction { from: key(301), to: key(302), amount: 10 }))
    );
    let to_side = fire_auto(&a, true, false, bal(301, 100), bal(302, 20), None);
    assert_eq!(to_side, Ok(FireOutcome::Skipped));
}
