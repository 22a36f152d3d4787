use vstd::prelude::*;

use crate::allocator::{
    advanced_counter, distinct_indices, index_counter_in_range, issued_index,
    lemma_allocate_keeps_distinct, lemma_release_keeps_distinct, swap_removed,
};
use crate::constant::MAX_VAULT_ACTIONS;
use crate::error::StacheError;
use crate::key::{contains_key, AccountKey};

verus! {

/// Withdrawal policy of a vault.
#[derive(Clone, Copy, Debug, PartialEq, Eq, Structural)]
pub enum VaultType {
    /// No signatures required: a withdrawal executes immediately.
    Easy,
    /// Exactly two distinct approvals move funds.
    TwoSig,
    /// Delegated to an external multisig with its own threshold; withdrawals
    /// through this core are a deliberate no-op for such vaults.
    Squads { multisig: AccountKey, sigs: u8 },
}

/// Kind tag of a pending vault action.
#[derive(Clone, Copy, Debug, PartialEq, Eq, Structural)]
pub enum ActionType {
    Transfer,
}

/// Parameters of a transfer: source account, destination account, amount.
#[derive(Clone, Copy, Debug, PartialEq, Eq, Structural)]
pub struct TransferAction {
    pub from: AccountKey,
    pub to: AccountKey,
    pub amount: u64,
}

/// No key occurs twice in the list.
pub open spec fn distinct_keys(s: Seq<AccountKey>) -> bool {
    forall|i: int, j: int| 0 <= i < j < s.len() ==> s[i] != s[j]
}

/// A pending withdrawal awaiting approvals.
///
/// The kind-specific parameters are held decoded, as [`TransferAction`],
/// rather than as a type-tagged byte blob: with `Transfer` the only kind,
/// the tag and the decoded parameters together carry exactly the recorded
/// request.
pub struct VaultAction {
    /// Identifier of this action, unique within its vault at any time.
    pub action_index: u8,
    /// What kind of action is pending.
    pub action_type: ActionType,
    /// Identities that have signed off so far; never holds a duplicate.
    pub approvers: Vec<AccountKey>,
    /// The recorded transfer parameters.
    pub action: TransferAction,
}

impl VaultAction {
    /// The approver list never holds the same identity twice.
    pub open spec fn wf(&self) -> bool {
        distinct_keys(self.approvers@)
    }

    /// The transfer parameters recorded for this action.
    pub fn transfer_action(&self) -> (r: Result<TransferAction, StacheError>)
        ensures
            r == Ok::<TransferAction, StacheError>(self.action),
    {
        match self.action_type {
            ActionType::Transfer => Ok(self.action),
        }
    }

    /// Records one approval: fails with `AlreadyApproved`, changing nothing,
    /// when the identity has already signed off; otherwise appends it.
    pub fn approve(&mut self, approver: &AccountKey) -> (r: Result<(), StacheError>)
        ensures
            old(self).approvers@.contains(*approver) ==> {
                &&& r == Err::<(), StacheError>(StacheError::AlreadyApproved)
                &&& *final(self) == *old(self)
            },
            !old(self).approvers@.contains(*approver) ==> {
                &&& r == Ok::<(), StacheError>(())
                &&& final(self).approvers@ == old(self).approvers@.push(*approver)
                &&& final(self).action_index == old(self).action_index
                &&& final(self).action_type == old(self).action_type
                &&& final(self).action == old(self).action
            },
            old(self).wf() ==> final(self).wf(),
    {
        if contains_key(&self.approvers, approver) {
            return Err(StacheError::AlreadyApproved);
        }
        self.approvers.push(*approver);
        proof {
            if old(self).wf() {
                assert forall|p: int, q: int|
                    0 <= p < q < self.approvers@.len() implies self.approvers@[p]
                    != self.approvers@[q] by {
                    if q == self.approvers@.len() - 1 {
                        assert(self.approvers@[p] == old(self).approvers@[p]);
                    }
                }
            }
        }
        Ok(())
    }

    /// How many identities have signed off so far.
    pub fn count_approvers(&self) -> (r: usize)
        ensures
            r == self.approvers@.len(),
    {
        self.approvers.len()
    }
}

/// The action identifiers of a list of pending actions, in order.
pub open spec fn action_indices(s: Seq<VaultAction>) -> Seq<u8> {
    s.map_values(|a: VaultAction| a.action_index)
}

/// A sub-custody record with a withdrawal policy and its pending actions.
pub struct Vault {
    /// Key of the treasury that owns this vault.
    pub stache: AccountKey,
    /// Identifier of this vault within its treasury.
    pub index: u8,
    /// Seed bump of the record's address.
    pub bump: u8,
    /// Withdrawal policy.
    pub vault_type: VaultType,
    /// A locked vault blocks all withdrawal initiation, whatever its type.
    pub locked: bool,
    /// Display name.
    pub name: String,
    /// Counter for the next action identifier; wraps within 1 to 254.
    pub next_action_index: u8,
    /// Pending actions, at most [`MAX_VAULT_ACTIONS`], with distinct
    /// identifiers.
    pub actions: Vec<VaultAction>,
}

/// The non-action configuration of the vault is the same in `f` as in `o`.
pub open spec fn vault_config_unchanged(o: Vault, f: Vault) -> bool {
    &&& f.stache == o.stache
    &&& f.index == o.index
    &&& f.bump == o.bump
    &&& f.vault_type == o.vault_type
    &&& f.locked == o.locked
    &&& f.name == o.name
}

/// What recording a deferred withdrawal leaves: one new pending action at
/// the end of the list, carrying the issued action identifier, the transfer
/// parameters and the initiator's approval, with the action counter advanced
/// past the issued identifier and everything else as it was.
pub open spec fn deferred_action_recorded(
    o: Vault,
    f: Vault,
    initiator: AccountKey,
    from: AccountKey,
    to: AccountKey,
    amount: u64,
) -> bool {
    &&& f.actions@.len() == o.actions@.len() + 1
    &&& f.actions@.drop_last() == o.actions@
    &&& ({
        let a = f.actions@.last();
        &&& a.action_index == issued_index(o.next_action_index)
        &&& a.action_type is Transfer
        &&& a.approvers@ == seq![initiator]
        &&& a.action == (TransferAction { from, to, amount })
    })
    &&& f.next_action_index == advanced_counter(o.next_action_index)
    &&& vault_config_unchanged(o, f)
}

impl Vault {
    /// The pending-action list stays within its bound, action identifiers
    /// are unique within the vault, every action is well formed, and the
    /// action counter stays in the identifier domain.
    pub open spec fn wf(&self) -> bool {
        &&& self.actions@.len() <= MAX_VAULT_ACTIONS
        &&& distinct_indices(action_indices(self.actions@))
        &&& (forall|i: int| 0 <= i < self.actions@.len() ==> self.actions@[i].wf())
        &&& index_counter_in_range(self.next_action_index)
    }

    /// Whether some pending action carries the given identifier.
    pub open spec fn spec_has_action(&self, action_index: u8) -> bool {
        exists|i: int|
            0 <= i < self.actions@.len() && self.actions@[i].action_index == action_index
    }

    /// Whether position `i` holds the first pending action carrying the
    /// given identifier.
    pub open spec fn spec_action_at(&self, action_index: u8, i: int) -> bool {
        &&& 0 <= i < self.actions@.len()
        &&& self.actions@[i].action_index == action_index
        &&& forall|j: int| 0 <= j < i ==> self.actions@[j].action_index != action_index
    }

    /// Position of the pending action with the given identifier, if any.
    pub fn is_action(&self, action_index: u8) -> (r: Option<usize>)
        ensures
            match r {
                Some(i) => {
                    &&& i < self.actions@.len()
                    &&& self.actions@[i as int].action_index == action_index
                    &&& forall|j: int| 0 <= j < i ==> self.actions@[j].action_index != action_index
                },
                None => !self.spec_has_action(action_index),
            },
    {
        let mut i: usize = 0;
        let n = self.actions.len();
        while i < n
            invariant
                i <= n,
                n == self.actions@.len(),
                forall|j: int| 0 <= j < i ==> self.actions@[j].action_index != action_index,
            decreases n - i,
        {
            if self.actions[i].action_index == action_index {
                return Some(i);
            }
            i += 1;
        }
        None
    }

    /// The pending action with the given identifier, if any.
    pub fn get_action(&self, action_index: u8) -> (r: Option<&VaultAction>)
        ensures
            match r {
                Some(a) => {
                    &&& a.action_index == action_index
                    &&& exists|i: int|
                        0 <= i < self.actions@.len() && self.actions@[i] == *a
                },
                None => !self.spec_has_action(action_index),
            },
    {
        match self.is_action(action_index) {
            Some(i) => Some(&self.actions[i]),
            None => None,
        }
    }

    /// Removes the pending action with the given identifier by swapping it
    /// with the last one; a no-op when the identifier is absent.
    pub fn remove_action(&mut self, index: u8)
        ensures
            !old(self).spec_has_action(index) ==> *final(self) == *old(self),
            old(self).spec_has_action(index) ==> exists|i: int|
                {
                    &&& 0 <= i < old(self).actions@.len()
                    &&& old(self).actions@[i].action_index == index
                    &&& final(self).actions@ == swap_removed(old(self).actions@, i)
                },
            final(self).stache == old(self).stache,
            final(self).index == old(self).index,
            final(self).bump == old(self).bump,
            final(self).vault_type == old(self).vault_type,
            final(self).locked == old(self).locked,
            final(self).name == old(self).name,
            final(self).next_action_index == old(self).next_action_index,
            old(self).wf() ==> final(self).wf(),
    {
        match self.is_action(index) {
            Some(i) => {
                let ghost pos = i as int;
                self.actions.swap_remove(i);
                proof {
                    assert(old(self).actions@[pos].action_index == index && final(self).actions@
                        == swap_removed(old(self).actions@, pos));
                    if old(self).wf() {
                        lemma_release_keeps_distinct(action_indices(old(self).actions@), pos);
                        assert(action_indices(self.actions@) =~= swap_removed(
                            action_indices(old(self).actions@),
                            pos,
                        ));
                    }
                }
            },
            None => {},
        }
    }

    /// Decides a withdrawal request against the vault's policy.
    ///
    /// A locked vault refuses with `VaultLocked`.  An `Easy` vault returns
    /// `Ok(true)`: the caller proceeds to the transfer primitive at once.  A
    /// `TwoSig` vault records a pending action carrying the transfer
    /// parameters, already approved by the initiator, and returns
    /// `Ok(false)`: no funds move on the initiating call.  A `Squads` vault
    /// returns `Ok(false)` with nothing recorded: delegated multisig
    /// withdrawals are not supported here.
    pub fn withdraw(
        &mut self,
        initiator: &AccountKey,
        from: &AccountKey,
        to: &AccountKey,
        amount: u64,
    ) -> (r: Result<bool, StacheError>)
        requires
            index_counter_in_range(old(self).next_action_index),
        ensures
            old(self).locked ==> {
                &&& r == Err::<bool, StacheError>(StacheError::VaultLocked)
                &&& *final(self) == *old(self)
            },
            !old(self).locked && old(self).vault_type is Easy ==> {
                &&& r == Ok::<bool, StacheError>(true)
                &&& *final(self) == *old(self)
            },
            !old(self).locked && old(self).vault_type is Squads ==> {
                &&& r == Ok::<bool, StacheError>(false)
                &&& *final(self) == *old(self)
            },
            !old(self).locked && old(self).vault_type is TwoSig && old(self).actions@.len()
                >= MAX_VAULT_ACTIONS ==> {
                &&& r == Err::<bool, StacheError>(StacheError::HitLimit)
                &&& *final(self) == *old(self)
            },
            !old(self).locked && old(self).vault_type is TwoSig && old(self).actions@.len()
                < MAX_VAULT_ACTIONS ==> {
                &&& r == Ok::<bool, StacheError>(false)
                &&& deferred_action_recorded(
                    *old(self),
                    *final(self),
                    *initiator,
                    *from,
                    *to,
                    amount,
                )
            },
            old(self).wf() && !action_indices(old(self).actions@).contains(
                issued_index(old(self).next_action_index),
            ) ==> final(self).wf(),
            old(self).wf() && (old(self).locked || !(old(self).vault_type is TwoSig))
                ==> final(self).wf(),
            old(self).wf() && (r matches Err(_)) ==> final(self).wf(),
    {
        if self.locked {
            return Err(StacheError::VaultLocked);
        }
        match self.vault_type {
            VaultType::Easy => Ok(true),
            VaultType::TwoSig => {
                if self.actions.len() >= MAX_VAULT_ACTIONS {
                    return Err(StacheError::HitLimit);
                }
                let issued: u8;
                if self.next_action_index + 1 == 255 {
                    issued = 1;
                    self.next_action_index = 2;
                } else {
                    issued = self.next_action_index;
                    self.next_action_index = self.next_action_index + 1;
                }
                let mut approvers: Vec<AccountKey> = Vec::new();
                approvers.push(*initiator);
                let action = VaultAction {
                    action_index: issued,
                    action_type: ActionType::Transfer,
                    approvers,
                    action: TransferAction { from: *from, to: *to, amount },
                };
                self.actions.push(action);
                proof {
                    assert(self.actions@.drop_last() =~= old(self).actions@);
                    if old(self).wf() && !action_indices(old(self).actions@).contains(
                        issued_index(old(self).next_action_index),
                    ) {
                        lemma_allocate_keeps_distinct(
                            action_indices(old(self).actions@),
                            old(self).next_action_index,
                        );
                        assert(action_indices(self.actions@) =~= action_indices(
                            old(self).actions@,
                        ).push(issued_index(old(self).next_action_index)));
                    }
                }
                Ok(false)
            },
            VaultType::Squads { .. } => Ok(false),
        }
    }

    /// Whether the vault carries exactly the given policy.
    pub fn is_type(&self, vault_type: VaultType) -> (r: bool)
        ensures
            r == (self.vault_type == vault_type),
    {
        self.vault_type == vault_type
    }
}

} // verus!
