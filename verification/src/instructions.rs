use vstd::prelude::*;

use crate::allocator::{advanced_counter, index_counter_in_range, issued_index, swap_removed};
use crate::auto::{Auto, BalanceTrigger};
use crate::constant::{CURRENT_VERSION, MAX_AUTOS, MAX_VAULTS, MAX_VAULT_ACTIONS};
use crate::error::StacheError;
use crate::key::{contains_key, AccountKey};
use crate::treasury::CurrentStache;
use crate::util::{is_valid_name, valid_name};
use crate::vault::{
    action_indices, deferred_action_recorded, vault_config_unchanged, TransferAction, Vault,
    VaultType,
};

verus! {

/// A transfer the caller is to hand to the external transfer primitive:
/// move `amount` from `from` to `to`, and close the emptied source account
/// afterwards when `close_source` is set.
#[derive(Clone, Copy, Debug, PartialEq, Eq, Structural)]
pub struct TransferPlan {
    /// Source token account.
    pub from: AccountKey,
    /// Destination token account.
    pub to: AccountKey,
    /// Amount to move.
    pub amount: u64,
    /// Whether this transfer empties the source, which is then to be closed.
    pub close_source: bool,
}

/// Computes the transfer a vault withdrawal hands to the transfer
/// primitive: fails with `InsufficientFunds` when the source balance does
/// not cover the amount, and marks the source for closing when the transfer
/// empties it exactly.
pub fn transfer_from_vault(
    from_vault_ata: &AccountKey,
    to_token: &AccountKey,
    available: u64,
    amount: u64,
) -> (r: Result<TransferPlan, StacheError>)
    ensures
        available < amount ==> r == Err::<TransferPlan, StacheError>(
            StacheError::InsufficientFunds,
        ),
        available >= amount ==> r == Ok::<TransferPlan, StacheError>(
            TransferPlan {
                from: *from_vault_ata,
                to: *to_token,
                amount,
                close_source: available == amount,
            },
        ),
{
    if available < amount {
        return Err(StacheError::InsufficientFunds);
    }
    Ok(
        TransferPlan {
            from: *from_vault_ata,
            to: *to_token,
            amount,
            close_source: available == amount,
        },
    )
}

/// Creates the treasury record for an authorized caller: identifier and
/// domain are taken over from the authority directory, both index counters
/// start at 1 (0 is reserved), and both identifier sets start empty.  An
/// unauthorized caller is refused with `NotAuthorized`.
pub fn create_stache(
    authorized: bool,
    keychain: AccountKey,
    domain: AccountKey,
    stacheid: String,
    bump: u8,
) -> (r: Result<CurrentStache, StacheError>)
    ensures
        !authorized ==> r == Err::<CurrentStache, StacheError>(StacheError::NotAuthorized),
        authorized ==> {
            &&& r matches Ok(s)
            &&& s.version == CURRENT_VERSION
            &&& s.bump == bump
            &&& s.keychain == keychain
            &&& s.domain == domain
            &&& s.stacheid == stacheid
            &&& s.next_vault_index == 1
            &&& s.next_auto_index == 1
            &&& s.vaults@ == Seq::<u8>::empty()
            &&& s.autos@ == Seq::<u8>::empty()
            &&& s.wf()
        },
{
    if !authorized {
        return Err(StacheError::NotAuthorized);
    }
    Ok(
        CurrentStache {
            version: CURRENT_VERSION,
            bump,
            keychain,
            domain,
            stacheid,
            next_vault_index: 1,
            next_auto_index: 1,
            vaults: Vec::new(),
            autos: Vec::new(),
        },
    )
}

/// Gates treasury destruction on the authority directory: an unauthorized
/// caller is refused with `NotAuthorized`; for an authorized one the caller
/// proceeds to close the record.
pub fn destroy_stache(authorized: bool) -> (r: Result<(), StacheError>)
    ensures
        authorized ==> r == Ok::<(), StacheError>(()),
        !authorized ==> r == Err::<(), StacheError>(StacheError::NotAuthorized),
{
    if !authorized {
        return Err(StacheError::NotAuthorized);
    }
    Ok(())
}

/// Decides a withdrawal of `lamports` from the treasury's own record
/// balance: refused with `InsufficientFunds` when it would take the balance
/// under the rent minimum the record must keep; otherwise returns the
/// record's remaining balance for the caller to commit.
pub fn unstash_sol(stache_lamports: u64, min_rent: u64, lamports: u64) -> (r: Result<
    u64,
    StacheError,
>)
    ensures
        min_rent + lamports <= stache_lamports ==> r == Ok::<u64, StacheError>(
            (stache_lamports - lamports) as u64,
        ),
        min_rent + lamports > stache_lamports ==> r == Err::<u64, StacheError>(
            StacheError::InsufficientFunds,
        ),
{
    if stache_lamports < lamports || stache_lamports - lamports < min_rent {
        return Err(StacheError::InsufficientFunds);
    }
    Ok(stache_lamports - lamports)
}

/// Creates a vault under the treasury: refused with `InvalidName` for an
/// unacceptable display name and with `HitLimit` when the treasury already
/// holds its maximum of vaults, both leaving the treasury as it was;
/// otherwise the vault identifier is issued and recorded as live, and the
/// new vault starts unlocked with no pending actions and its action counter
/// at 1.
pub fn create_vault(
    stache: &mut CurrentStache,
    stache_key: AccountKey,
    name: String,
    vault_type: VaultType,
    bump: u8,
) -> (r: Result<Vault, StacheError>)
    requires
        index_counter_in_range(old(stache).next_vault_index),
    ensures
        !valid_name(name@, false) ==> {
            &&& r == Err::<Vault, StacheError>(StacheError::InvalidName)
            &&& *final(stache) == *old(stache)
        },
        valid_name(name@, false) && old(stache).vaults@.len() >= MAX_VAULTS ==> {
            &&& r == Err::<Vault, StacheError>(StacheError::HitLimit)
            &&& final(stache).vaults@ == old(stache).vaults@
            &&& final(stache).next_vault_index == old(stache).next_vault_index
        },
        valid_name(name@, false) && old(stache).vaults@.len() < MAX_VAULTS ==> {
            &&& r matches Ok(v)
            &&& v.stache == stache_key
            &&& v.index == issued_index(old(stache).next_vault_index)
            &&& v.bump == bump
            &&& v.vault_type == vault_type
            &&& !v.locked
            &&& v.name == name
            &&& v.next_action_index == 1
            &&& v.actions@.len() == 0
            &&& v.wf()
            &&& final(stache).vaults@ == old(stache).vaults@.push(
                issued_index(old(stache).next_vault_index),
            )
            &&& final(stache).next_vault_index == advanced_counter(old(stache).next_vault_index)
        },
        final(stache).version == old(stache).version,
        final(stache).bump == old(stache).bump,
        final(stache).keychain == old(stache).keychain,
        final(stache).domain == old(stache).domain,
        final(stache).stacheid == old(stache).stacheid,
        final(stache).next_auto_index == old(stache).next_auto_index,
        final(stache).autos == old(stache).autos,
        old(stache).wf() && !old(stache).vaults@.contains(
            issued_index(old(stache).next_vault_index),
        ) ==> final(stache).wf(),
        old(stache).wf() && !(valid_name(name@, false) && old(stache).vaults@.len() < MAX_VAULTS)
            ==> final(stache).wf(),
{
    if !is_valid_name(name.as_str(), false) {
        return Err(StacheError::InvalidName);
    }
    let vault_index = match stache.add_vault() {
        Ok(i) => i,
        Err(e) => {
            return Err(e);
        },
    };
    Ok(
        Vault {
            stache: stache_key,
            index: vault_index,
            bump,
            vault_type,
            locked: false,
            name,
            next_action_index: 1,
            actions: Vec::new(),
        },
    )
}

/// Locks the vault: from here on every withdrawal initiation is refused
/// with `VaultLocked`, whatever the vault's type.
pub fn lock_vault(vault: &mut Vault) -> (r: Result<(), StacheError>)
    ensures
        r == Ok::<(), StacheError>(()),
        final(vault).locked,
        final(vault).stache == old(vault).stache,
        final(vault).index == old(vault).index,
        final(vault).bump == old(vault).bump,
        final(vault).vault_type == old(vault).vault_type,
        final(vault).name == old(vault).name,
        final(vault).next_action_index == old(vault).next_action_index,
        final(vault).actions == old(vault).actions,
        old(vault).wf() ==> final(vault).wf(),
{
    vault.locked = true;
    Ok(())
}

/// Denies a pending action: the action with the given identifier is removed
/// from the vault, and an unknown identifier is a no-op.  Denial always
/// succeeds; authorization is the caller's context's concern.
pub fn deny_action(vault: &mut Vault, action_index: u8) -> (r: Result<(), StacheError>)
    ensures
        r == Ok::<(), StacheError>(()),
        !old(vault).spec_has_action(action_index) ==> *final(vault) == *old(vault),
        old(vault).spec_has_action(action_index) ==> exists|i: int|
            {
                &&& 0 <= i < old(vault).actions@.len()
                &&& old(vault).actions@[i].action_index == action_index
                &&& final(vault).actions@ == swap_removed(old(vault).actions@, i)
            },
        vault_config_unchanged(*old(vault), *final(vault)),
        final(vault).next_action_index == old(vault).next_action_index,
        old(vault).wf() ==> final(vault).wf(),
{
    vault.remove_action(action_index);
    Ok(())
}

/// Destroys a vault: its identifier must be live in the treasury, else the
/// operation is refused with `InvalidVault`; on success the identifier is
/// removed from the treasury's live set.
pub fn destroy_vault(stache: &mut CurrentStache, vault_index: u8) -> (r: Result<(), StacheError>)
    ensures
        !old(stache).vaults@.contains(vault_index) ==> {
            &&& r == Err::<(), StacheError>(StacheError::InvalidVault)
            &&& *final(stache) == *old(stache)
        },
        old(stache).vaults@.contains(vault_index) ==> {
            &&& r == Ok::<(), StacheError>(())
            &&& exists|i: int|
                {
                    &&& 0 <= i < old(stache).vaults@.len()
                    &&& old(stache).vaults@[i] == vault_index
                    &&& final(stache).vaults@ == swap_removed(old(stache).vaults@, i)
                }
            &&& final(stache).vaults@.len() == old(stache).vaults@.len() - 1
        },
        final(stache).version == old(stache).version,
        final(stache).bump == old(stache).bump,
        final(stache).keychain == old(stache).keychain,
        final(stache).domain == old(stache).domain,
        final(stache).stacheid == old(stache).stacheid,
        final(stache).next_vault_index == old(stache).next_vault_index,
        final(stache).next_auto_index == old(stache).next_auto_index,
        final(stache).autos == old(stache).autos,
        old(stache).wf() ==> final(stache).wf(),
{
    match stache.is_vault(vault_index) {
        Some(_) => {
            stache.remove_vault(vault_index);
            Ok(())
        },
        None => Err(StacheError::InvalidVault),
    }
}

/// Creates an automation under the treasury: refused with `InvalidName` for
/// an unacceptable display name and with `HitLimit` at capacity, both
/// leaving the treasury as it was; otherwise the automation identifier is
/// issued and recorded as live, and the new automation starts inactive and
/// paused with neither trigger nor action set and no scheduler handle.
pub fn create_automation(
    stache: &mut CurrentStache,
    stache_key: AccountKey,
    name: String,
    bump: u8,
) -> (r: Result<Auto, StacheError>)
    requires
        index_counter_in_range(old(stache).next_auto_index),
    ensures
        !valid_name(name@, false) ==> {
            &&& r == Err::<Auto, StacheError>(StacheError::InvalidName)
            &&& *final(stache) == *old(stache)
        },
        valid_name(name@, false) && old(stache).autos@.len() >= MAX_AUTOS ==> {
            &&& r == Err::<Auto, StacheError>(StacheError::HitLimit)
            &&& final(stache).autos@ == old(stache).autos@
            &&& final(stache).next_auto_index == old(stache).next_auto_index
        },
        valid_name(name@, false) && old(stache).autos@.len() < MAX_AUTOS ==> {
            &&& r matches Ok(a)
            &&& a.stache == stache_key
            &&& a.index == issued_index(old(stache).next_auto_index)
            &&& a.bump == bump
            &&& !a.active
            &&& a.paused
            &&& a.thread is None
            &&& a.name == name
            &&& a.action is None
            &&& a.trigger is None
            &&& final(stache).autos@ == old(stache).autos@.push(
                issued_index(old(stache).next_auto_index),
            )
            &&& final(stache).next_auto_index == advanced_counter(old(stache).next_auto_index)
        },
        final(stache).version == old(stache).version,
        final(stache).bump == old(stache).bump,
        final(stache).keychain == old(stache).keychain,
        final(stache).domain == old(stache).domain,
        final(stache).stacheid == old(stache).stacheid,
        final(stache).next_vault_index == old(stache).next_vault_index,
        final(stache).vaults == old(stache).vaults,
        old(stache).wf() && !old(stache).autos@.contains(
            issued_index(old(stache).next_auto_index),
        ) ==> final(stache).wf(),
        old(stache).wf() && !(valid_name(name@, false) && old(stache).autos@.len() < MAX_AUTOS)
            ==> final(stache).wf(),
{
    if !is_valid_name(name.as_str(), false) {
        return Err(StacheError::InvalidName);
    }
    let auto_index = match stache.add_auto() {
        Ok(i) => i,
        Err(e) => {
            return Err(e);
        },
    };
    Ok(
        Auto {
            stache: stache_key,
            index: auto_index,
            bump,
            active: false,
            paused: true,
            thread: None,
            name,
            action: None,
            trigger: None,
        },
    )
}

/// The fields of an automation that configure neither trigger, action,
/// activity nor scheduler handle are the same in `f` as in `o`.
pub open spec fn auto_identity_unchanged(o: Auto, f: Auto) -> bool {
    &&& f.stache == o.stache
    &&& f.index == o.index
    &&& f.bump == o.bump
    &&& f.paused == o.paused
    &&& f.name == o.name
}

/// Sets the automation's balance trigger: refused with `AutomationLocked`
/// once the automation is active and with `MissingAccount` when no watched
/// token account is supplied, both changing nothing; otherwise the trigger
/// is recorded.
pub fn set_auto_balance_trigger(
    auto: &mut Auto,
    token: Option<AccountKey>,
    trigger_balance: u64,
    above: bool,
) -> (r: Result<(), StacheError>)
    ensures
        old(auto).active ==> {
            &&& r == Err::<(), StacheError>(StacheError::AutomationLocked)
            &&& *final(auto) == *old(auto)
        },
        !old(auto).active && token is None ==> {
            &&& r == Err::<(), StacheError>(StacheError::MissingAccount)
            &&& *final(auto) == *old(auto)
        },
        !old(auto).active ==> (token matches Some(k) ==> {
            &&& r == Ok::<(), StacheError>(())
            &&& final(auto).trigger == Some(
                BalanceTrigger { account: k, trigger_balance, above },
            )
            &&& final(auto).action == old(auto).action
            &&& final(auto).active == old(auto).active
            &&& final(auto).thread == old(auto).thread
            &&& auto_identity_unchanged(*old(auto), *final(auto))
        }),
{
    if auto.active {
        return Err(StacheError::AutomationLocked);
    }
    match token {
        None => Err(StacheError::MissingAccount),
        Some(k) => {
            auto.trigger = Some(BalanceTrigger { account: k, trigger_balance, above });
            Ok(())
        },
    }
}

/// Sets the automation's transfer action: refused with `AutomationLocked`
/// once the automation is active and with `MissingAccount` when either
/// token account is missing, both changing nothing; otherwise the action is
/// recorded.
pub fn set_auto_action(
    auto: &mut Auto,
    from_token: Option<AccountKey>,
    to_token: Option<AccountKey>,
    amount: u64,
) -> (r: Result<(), StacheError>)
    ensures
        old(auto).active ==> {
            &&& r == Err::<(), StacheError>(StacheError::AutomationLocked)
            &&& *final(auto) == *old(auto)
        },
        !old(auto).active && (from_token is None || to_token is None) ==> {
            &&& r == Err::<(), StacheError>(StacheError::MissingAccount)
            &&& *final(auto) == *old(auto)
        },
        !old(auto).active ==> (from_token matches Some(f) ==> (to_token matches Some(t) ==> {
            &&& r == Ok::<(), StacheError>(())
            &&& final(auto).action == Some(TransferAction { from: f, to: t, amount })
            &&& final(auto).trigger == old(auto).trigger
            &&& final(auto).active == old(auto).active
            &&& final(auto).thread == old(auto).thread
            &&& auto_identity_unchanged(*old(auto), *final(auto))
        })),
{
    if auto.active {
        return Err(StacheError::AutomationLocked);
    }
    match (from_token, to_token) {
        (Some(f), Some(t)) => {
            auto.action = Some(TransferAction { from: f, to: t, amount });
            Ok(())
        },
        _ => Err(StacheError::MissingAccount),
    }
}

/// Activates the automation.  With `automated` set, a scheduler thread
/// handle must be supplied — refused with `MissingAccount` otherwise,
/// changing nothing — and is recorded for the external scheduler; without
/// it the automation is simply marked active, to be fired manually.
pub fn activate_auto(auto: &mut Auto, automated: bool, thread: Option<AccountKey>) -> (r: Result<
    (),
    StacheError,
>)
    ensures
        automated && thread is None ==> {
            &&& r == Err::<(), StacheError>(StacheError::MissingAccount)
            &&& *final(auto) == *old(auto)
        },
        !automated ==> {
            &&& r == Ok::<(), StacheError>(())
            &&& final(auto).active
            &&& final(auto).thread == old(auto).thread
            &&& final(auto).trigger == old(auto).trigger
            &&& final(auto).action == old(auto).action
            &&& auto_identity_unchanged(*old(auto), *final(auto))
        },
        automated && thread is Some ==> {
            &&& r == Ok::<(), StacheError>(())
            &&& final(auto).active
            &&& final(auto).thread == thread
            &&& final(auto).trigger == old(auto).trigger
            &&& final(auto).action == old(auto).action
            &&& auto_identity_unchanged(*old(auto), *final(auto))
        },
{
    if automated {
        match thread {
            None => {
                return Err(StacheError::MissingAccount);
            },
            Some(k) => {
                auto.thread = Some(k);
            },
        }
    }
    auto.active = true;
    Ok(())
}

/// Initiates a withdrawal from a vault, with `vault_ata_amount` the balance
/// the caller read from the vault's token account.  Refused with
/// `InsufficientFunds` when that balance does not cover the amount, and
/// with `VaultLocked` on a locked vault.  On an `Easy` vault the transfer
/// executes at once: the returned plan goes to the transfer primitive.  On
/// a `TwoSig` vault no funds move on this call: a pending action is
/// recorded instead (refused with `HitLimit` when the vault's action list
/// is full).  On a `Squads` vault nothing happens at all.
pub fn withdraw_from_vault(
    vault: &mut Vault,
    authority: &AccountKey,
    vault_ata: &AccountKey,
    vault_ata_amount: u64,
    to_token: &AccountKey,
    amount: u64,
) -> (r: Result<Option<TransferPlan>, StacheError>)
    requires
        index_counter_in_range(old(vault).next_action_index),
    ensures
        amount > vault_ata_amount ==> {
            &&& r == Err::<Option<TransferPlan>, StacheError>(StacheError::InsufficientFunds)
            &&& *final(vault) == *old(vault)
        },
        amount <= vault_ata_amount && old(vault).locked ==> {
            &&& r == Err::<Option<TransferPlan>, StacheError>(StacheError::VaultLocked)
            &&& *final(vault) == *old(vault)
        },
        amount <= vault_ata_amount && !old(vault).locked && old(vault).vault_type is Easy ==> {
            &&& r == Ok::<Option<TransferPlan>, StacheError>(
                Some(
                    TransferPlan {
                        from: *vault_ata,
                        to: *to_token,
                        amount,
                        close_source: vault_ata_amount == amount,
                    },
                ),
            )
            &&& *final(vault) == *old(vault)
        },
        amount <= vault_ata_amount && !old(vault).locked && old(vault).vault_type is Squads ==> {
            &&& r == Ok::<Option<TransferPlan>, StacheError>(None)
            &&& *final(vault) == *old(vault)
        },
        amount <= vault_ata_amount && !old(vault).locked && old(vault).vault_type is TwoSig
            && old(vault).actions@.len() >= MAX_VAULT_ACTIONS ==> {
            &&& r == Err::<Option<TransferPlan>, StacheError>(StacheError::HitLimit)
            &&& *final(vault) == *old(vault)
        },
        amount <= vault_ata_amount && !old(vault).locked && old(vault).vault_type is TwoSig
            && old(vault).actions@.len() < MAX_VAULT_ACTIONS ==> {
            &&& r == Ok::<Option<TransferPlan>, StacheError>(None)
            &&& deferred_action_recorded(
                *old(vault),
                *final(vault),
                *authority,
                *vault_ata,
                *to_token,
                amount,
            )
        },
        old(vault).wf() && !action_indices(old(vault).actions@).contains(
            issued_index(old(vault).next_action_index),
        ) ==> final(vault).wf(),
        old(vault).wf() && (amount > vault_ata_amount || old(vault).locked || !(old(
            vault,
        ).vault_type is TwoSig)) ==> final(vault).wf(),
        old(vault).wf() && (r matches Err(_)) ==> final(vault).wf(),
{
    if amount > vault_ata_amount {
        return Err(StacheError::InsufficientFunds);
    }
    let proceed = match vault.withdraw(authority, vault_ata, to_token, amount) {
        Ok(b) => b,
        Err(e) => {
            return Err(e);
        },
    };
    if proceed {
        match transfer_from_vault(vault_ata, to_token, vault_ata_amount, amount) {
            Ok(plan) => Ok(Some(plan)),
            Err(e) => Err(e),
        }
    } else {
        Ok(None)
    }
}

/// Records one approval on a pending action and, at the threshold of
/// exactly two approvals on a `TwoSig` vault, executes it.
///
/// An unknown action identifier is refused with `InvalidAction`; an
/// identity that already approved, with `AlreadyApproved`.  On the
/// threshold path the caller-supplied source and destination must match the
/// recorded ones exactly (`InvalidAction` otherwise) and the source balance
/// `from_amount` must cover the recorded amount (`InsufficientFunds`
/// otherwise); then the recorded transfer is returned as a plan and the
/// action is removed from the vault.  Below the threshold, or on a vault of
/// another type, the approval is recorded and nothing else changes.  Every
/// failure leaves the vault exactly as it was.
pub fn approve_action(
    vault: &mut Vault,
    action_index: u8,
    authority: &AccountKey,
    from: &AccountKey,
    to: &AccountKey,
    from_amount: u64,
) -> (r: Result<Option<TransferPlan>, StacheError>)
    requires
        old(vault).wf(),
    ensures
        !old(vault).spec_has_action(action_index) ==> {
            &&& r == Err::<Option<TransferPlan>, StacheError>(StacheError::InvalidAction)
            &&& *final(vault) == *old(vault)
        },
        forall|i: int|
            old(vault).spec_action_at(action_index, i) ==> {
                let a = old(vault).actions@[i];
                &&& (a.approvers@.contains(*authority) ==> {
                    &&& r == Err::<Option<TransferPlan>, StacheError>(StacheError::AlreadyApproved)
                    &&& *final(vault) == *old(vault)
                })
                &&& (!a.approvers@.contains(*authority) ==> (if old(vault).vault_type is TwoSig
                    && a.approvers@.len() == 1 {
                    if *from != a.action.from || *to != a.action.to {
                        &&& r == Err::<Option<TransferPlan>, StacheError>(
                            StacheError::InvalidAction,
                        )
                        &&& *final(vault) == *old(vault)
                    } else if a.action.amount > from_amount {
                        &&& r == Err::<Option<TransferPlan>, StacheError>(
                            StacheError::InsufficientFunds,
                        )
                        &&& *final(vault) == *old(vault)
                    } else {
                        &&& r == Ok::<Option<TransferPlan>, StacheError>(
                            Some(
                                TransferPlan {
                                    from: a.action.from,
                                    to: a.action.to,
                                    amount: a.action.amount,
                                    close_source: from_amount == a.action.amount,
                                },
                            ),
                        )
                        &&& final(vault).actions@ == swap_removed(old(vault).actions@, i)
                    }
                } else {
                    &&& r == Ok::<Option<TransferPlan>, StacheError>(None)
                    &&& final(vault).actions@.len() == old(vault).actions@.len()
                    &&& (forall|j: int|
                        0 <= j < old(vault).actions@.len() && j != i ==> final(vault).actions@[j]
                            == old(vault).actions@[j])
                    &&& final(vault).actions@[i].action_index == a.action_index
                    &&& final(vault).actions@[i].action_type == a.action_type
                    &&& final(vault).actions@[i].action == a.action
                    &&& final(vault).actions@[i].approvers@ == a.approvers@.push(*authority)
                }))
            },
        vault_config_unchanged(*old(vault), *final(vault)),
        final(vault).next_action_index == old(vault).next_action_index,
        final(vault).wf(),
        // A plan comes back only from a `TwoSig` vault, and only when this
        // call brought a second, distinct approver to the action.
        r matches Ok(Some(_)) ==> old(vault).vault_type is TwoSig && exists|i: int|
            {
                &&& old(vault).spec_action_at(action_index, i)
                &&& old(vault).actions@[i].approvers@.len() == 1
                &&& !old(vault).actions@[i].approvers@.contains(*authority)
            },
{
    let pos = match vault.is_action(action_index) {
        Some(i) => i,
        None => {
            return Err(StacheError::InvalidAction);
        },
    };
    let ghost posi = pos as int;
    let two_sig = vault.is_type(VaultType::TwoSig);
    let n = vault.actions[pos].approvers.len();
    if two_sig && n == 1 {
        // The threshold would be reached: validate everything before any
        // mutation, so that a failure commits nothing.
        if contains_key(&vault.actions[pos].approvers, authority) {
            return Err(StacheError::AlreadyApproved);
        }
        let ta = vault.actions[pos].action;
        if !(*from == ta.from) || !(*to == ta.to) {
            return Err(StacheError::InvalidAction);
        }
        if ta.amount > from_amount {
            return Err(StacheError::InsufficientFunds);
        }
        let plan = match transfer_from_vault(from, to, from_amount, ta.amount) {
            Ok(p) => p,
            Err(e) => {
                return Err(e);
            },
        };
        vault.remove_action(action_index);
        proof {
            assert(old(vault).spec_action_at(action_index, posi) && old(
                vault,
            ).actions@[posi].approvers@.len() == 1 && !old(
                vault,
            ).actions@[posi].approvers@.contains(*authority));
            let j = choose|j: int|
                {
                    &&& 0 <= j < old(vault).actions@.len()
                    &&& old(vault).actions@[j].action_index == action_index
                    &&& final(vault).actions@ == swap_removed(old(vault).actions@, j)
                };
            assert(action_indices(old(vault).actions@)[j] == action_index);
            assert(action_indices(old(vault).actions@)[posi] == action_index);
            assert(j == posi);
            assert forall|i: int|
                old(vault).spec_action_at(action_index, i) implies i == posi by {
                if i < posi {
                    assert(old(vault).actions@[i].action_index != action_index);
                } else if i > posi {
                    assert(old(vault).actions@[posi].action_index != action_index);
                }
            }
        }
        Ok(Some(plan))
    } else {
        if contains_key(&vault.actions[pos].approvers, authority) {
            return Err(StacheError::AlreadyApproved);
        }
        let a = &mut vault.actions[pos];
        // The duplicate was ruled out above, so this call can only record
        // the approval.
        match a.approve(authority) {
            Ok(_) => {},
            Err(_) => {},
        }
        proof {
            assert forall|i: int|
                old(vault).spec_action_at(action_index, i) implies i == posi by {
                if i < posi {
                    assert(old(vault).actions@[i].action_index != action_index);
                } else if i > posi {
                    assert(old(vault).actions@[posi].action_index != action_index);
                }
            }
            assert(action_indices(vault.actions@) =~= action_indices(old(vault).actions@));
        }
        Ok(None)
    }
}

/// A token account's key together with the balance the caller read from it.
#[derive(Clone, Copy, Debug, PartialEq, Eq, Structural)]
pub struct BalanceSource {
    /// The token account.
    pub account: AccountKey,
    /// Its balance at the time of the call.
    pub amount: u64,
}

/// What the caller is to do after one evaluation of an automation.
#[derive(Clone, Copy, Debug, PartialEq, Eq, Structural)]
pub enum FireOutcome {
    /// The trigger condition held and the source funds the action: hand
    /// this transfer, authorized by the treasury, to the transfer primitive.
    Executed(TransferAction),
    /// The condition did not hold, or the source cannot fund the action:
    /// nothing happens, and the automation may fire on a later evaluation.
    Skipped,
}

/// Whether the watched balance satisfies the trigger's condition: at or
/// above the threshold for an `above` trigger, strictly below it otherwise.
pub open spec fn trigger_met(balance: u64, trigger: BalanceTrigger) -> bool {
    ||| balance >= trigger.trigger_balance && trigger.above
    ||| balance < trigger.trigger_balance && !trigger.above
}

/// The outcome of one evaluation: the recorded amount moves between the
/// supplied action accounts only when the trigger condition is met and the
/// source balance covers the amount; a source that cannot fund the action
/// silently skips the evaluation rather than failing it.
pub open spec fn fire_decision(
    balance: u64,
    trigger: BalanceTrigger,
    action: TransferAction,
    from_token: BalanceSource,
    to_token: BalanceSource,
) -> FireOutcome {
    if trigger_met(balance, trigger) && from_token.amount >= action.amount {
        FireOutcome::Executed(
            TransferAction { from: from_token.account, to: to_token.account, amount: action.amount },
        )
    } else {
        FireOutcome::Skipped
    }
}

/// Evaluates an automation once and says whether its transfer is to run.
///
/// The automation must have its action and trigger set, else the call is
/// refused with `InvalidAction` or `InvalidTrigger`.  With `use_ref` set
/// the watched balance is read off one of the two action accounts
/// (`use_from` picks which); otherwise a separate balance source must be
/// supplied (`MissingAccount` when it is not), must be the trigger's
/// configured account (`InvalidTrigger` otherwise) and must not collide
/// with either action account (`DupeAccount` otherwise).  The automation
/// itself never changes: it can fire repeatedly.
pub fn fire_auto(
    auto: &Auto,
    use_ref: bool,
    use_from: bool,
    from_token: BalanceSource,
    to_token: BalanceSource,
    check: Option<BalanceSource>,
) -> (r: Result<FireOutcome, StacheError>)
    ensures
        auto.action is None ==> r == Err::<FireOutcome, StacheError>(StacheError::InvalidAction),
        auto.action is Some && auto.trigger is None ==> r == Err::<FireOutcome, StacheError>(
            StacheError::InvalidTrigger,
        ),
        auto.action matches Some(action) ==> (auto.trigger matches Some(trigger) ==> {
            if use_ref {
                r == Ok::<FireOutcome, StacheError>(
                    fire_decision(
                        if use_from {
                            from_token.amount
                        } else {
                            to_token.amount
                        },
                        trigger,
                        action,
                        from_token,
                        to_token,
                    ),
                )
            } else {
                match check {
                    None => r == Err::<FireOutcome, StacheError>(StacheError::MissingAccount),
                    Some(c) => {
                        if c.account != trigger.account {
                            r == Err::<FireOutcome, StacheError>(StacheError::InvalidTrigger)
                        } else if c.account == to_token.account || c.account
                            == from_token.account {
                            r == Err::<FireOutcome, StacheError>(StacheError::DupeAccount)
                        } else {
                            r == Ok::<FireOutcome, StacheError>(
                                fire_decision(c.amount, trigger, action, from_token, to_token),
                            )
                        }
                    },
                }
            }
        }),
{
    let action = match auto.transfer_action() {
        Ok(a) => a,
        Err(e) => {
            return Err(e);
        },
    };
    let trigger = match auto.balance_trigger() {
        Ok(t) => t,
        Err(e) => {
            return Err(e);
        },
    };
    let balance: u64;
    if use_ref {
        balance = if use_from {
            from_token.amount
        } else {
            to_token.amount
        };
    } else {
        let c = match check {
            Some(c) => c,
            None => {
                return Err(StacheError::MissingAccount);
            },
        };
        if c.account != trigger.account {
            return Err(StacheError::InvalidTrigger);
        }
        if c.account == to_token.account {
            return Err(StacheError::DupeAccount);
        }
        if c.account == from_token.account {
            return Err(StacheError::DupeAccount);
        }
        balance = c.amount;
    }
    let mut should_trigger = false;
    if balance >= trigger.trigger_balance && trigger.above {
        should_trigger = true;
    } else if balance < trigger.trigger_balance && !trigger.above {
        should_trigger = true;
    }
    if from_token.amount < action.amount {
        // Insufficient funds silently cancel the evaluation: skipping, not
        // failing, so the automation stays armed for a later balance.
        should_trigger = false;
    }
    if should_trigger {
        Ok(
            FireOutcome::Executed(
                TransferAction {
                    from: from_token.account,
                    to: to_token.account,
                    amount: action.amount,
                },
            ),
        )
    } else {
        Ok(FireOutcome::Skipped)
    }
}

} // verus!
