use vstd::prelude::*;

use crate::allocator::{
    advanced_counter, allocate, distinct_indices, find_index, index_counter_in_range, issued_index,
    lemma_allocate_keeps_distinct, lemma_release_keeps_distinct, release, swap_removed,
};
use crate::constant::{MAX_AUTOS, MAX_VAULTS};
use crate::error::StacheError;
use crate::key::AccountKey;

verus! {

/// The root custodial record: it owns the sets of live vault and automation
/// identifiers and the counters that assign new ones.
pub struct CurrentStache {
    /// Record-layout version tag.
    pub version: u8,
    /// Seed bump of the record's address.
    pub bump: u8,
    /// Key of the linked authority directory.
    pub keychain: AccountKey,
    /// Domain tag inherited from the authority directory.
    pub domain: AccountKey,
    /// Human identifier, shared with the authority directory.
    pub stacheid: String,
    /// Counter for the next vault identifier; wraps within 1 to 254.
    pub next_vault_index: u8,
    /// Counter for the next automation identifier; wraps within 1 to 254.
    pub next_auto_index: u8,
    /// Identifiers of the currently live vaults.
    pub vaults: Vec<u8>,
    /// Identifiers of the currently live automations.
    pub autos: Vec<u8>,
}

impl CurrentStache {
    /// Each identifier set stays within its bound and free of duplicates,
    /// and each counter stays in the identifier domain.
    pub open spec fn wf(&self) -> bool {
        &&& self.vaults@.len() <= MAX_VAULTS
        &&& self.autos@.len() <= MAX_AUTOS
        &&& distinct_indices(self.vaults@)
        &&& distinct_indices(self.autos@)
        &&& index_counter_in_range(self.next_vault_index)
        &&& index_counter_in_range(self.next_auto_index)
    }

    /// Position of the first occurrence of `index` in `list`, if any.
    fn is_index(&self, index: u8, list: &Vec<u8>) -> (r: Option<usize>)
        ensures
            match r {
                Some(i) => {
                    &&& i < list@.len()
                    &&& list@[i as int] == index
                    &&& forall|j: int| 0 <= j < i ==> list@[j] != index
                },
                None => !list@.contains(index),
            },
    {
        find_index(list, index)
    }

    /// Position of `index` among the live vault identifiers, if present.
    pub fn is_vault(&self, index: u8) -> (r: Option<usize>)
        ensures
            match r {
                Some(i) => {
                    &&& i < self.vaults@.len()
                    &&& self.vaults@[i as int] == index
                    &&& forall|j: int| 0 <= j < i ==> self.vaults@[j] != index
                },
                None => !self.vaults@.contains(index),
            },
    {
        self.is_index(index, &self.vaults)
    }

    /// Position of `index` among the live automation identifiers, if present.
    pub fn is_auto(&self, index: u8) -> (r: Option<usize>)
        ensures
            match r {
                Some(i) => {
                    &&& i < self.autos@.len()
                    &&& self.autos@[i as int] == index
                    &&& forall|j: int| 0 <= j < i ==> self.autos@[j] != index
                },
                None => !self.autos@.contains(index),
            },
    {
        self.is_index(index, &self.autos)
    }

    /// Adds a vault identifier: fails with `HitLimit` at capacity, otherwise
    /// returns the issued identifier and advances the vault counter.
    pub fn add_vault(&mut self) -> (r: Result<u8, StacheError>)
        requires
            index_counter_in_range(old(self).next_vault_index),
        ensures
            old(self).vaults@.len() >= MAX_VAULTS ==> {
                &&& r == Err::<u8, StacheError>(StacheError::HitLimit)
                &&& final(self).vaults@ == old(self).vaults@
                &&& final(self).next_vault_index == old(self).next_vault_index
            },
            old(self).vaults@.len() < MAX_VAULTS ==> {
                &&& r == Ok::<u8, StacheError>(issued_index(old(self).next_vault_index))
                &&& final(self).vaults@ == old(self).vaults@.push(
                    issued_index(old(self).next_vault_index),
                )
                &&& final(self).next_vault_index == advanced_counter(old(self).next_vault_index)
            },
            final(self).version == old(self).version,
            final(self).bump == old(self).bump,
            final(self).keychain == old(self).keychain,
            final(self).domain == old(self).domain,
            final(self).stacheid == old(self).stacheid,
            final(self).next_auto_index == old(self).next_auto_index,
            final(self).autos == old(self).autos,
            old(self).wf() && !old(self).vaults@.contains(
                issued_index(old(self).next_vault_index),
            ) ==> final(self).wf(),
            old(self).wf() && old(self).vaults@.len() >= MAX_VAULTS ==> final(self).wf(),
    {
        let r = allocate(&mut self.vaults, MAX_VAULTS, &mut self.next_vault_index);
        proof {
            if old(self).wf() && !old(self).vaults@.contains(
                issued_index(old(self).next_vault_index),
            ) {
                lemma_allocate_keeps_distinct(
                    old(self).vaults@,
                    old(self).next_vault_index,
                );
            }
        }
        r
    }

    /// Adds an automation identifier: fails with `HitLimit` at capacity,
    /// otherwise returns the issued identifier and advances the automation
    /// counter.
    pub fn add_auto(&mut self) -> (r: Result<u8, StacheError>)
        requires
            index_counter_in_range(old(self).next_auto_index),
        ensures
            old(self).autos@.len() >= MAX_AUTOS ==> {
                &&& r == Err::<u8, StacheError>(StacheError::HitLimit)
                &&& final(self).autos@ == old(self).autos@
                &&& final(self).next_auto_index == old(self).next_auto_index
            },
            old(self).autos@.len() < MAX_AUTOS ==> {
                &&& r == Ok::<u8, StacheError>(issued_index(old(self).next_auto_index))
                &&& final(self).autos@ == old(self).autos@.push(
                    issued_index(old(self).next_auto_index),
                )
                &&& final(self).next_auto_index == advanced_counter(old(self).next_auto_index)
            },
            final(self).version == old(self).version,
            final(self).bump == old(self).bump,
            final(self).keychain == old(self).keychain,
            final(self).domain == old(self).domain,
            final(self).stacheid == old(self).stacheid,
            final(self).next_vault_index == old(self).next_vault_index,
            final(self).vaults == old(self).vaults,
            old(self).wf() && !old(self).autos@.contains(
                issued_index(old(self).next_auto_index),
            ) ==> final(self).wf(),
            old(self).wf() && old(self).autos@.len() >= MAX_AUTOS ==> final(self).wf(),
    {
        let r = allocate(&mut self.autos, MAX_AUTOS, &mut self.next_auto_index);
        proof {
            if old(self).wf() && !old(self).autos@.contains(
                issued_index(old(self).next_auto_index),
            ) {
                lemma_allocate_keeps_distinct(
                    old(self).autos@,
                    old(self).next_auto_index,
                );
            }
        }
        r
    }

    /// Removes a live vault identifier by swapping it with the last one.
    /// The identifier must be live; [`crate::instructions::destroy_vault`]
    /// checks that and turns an unknown identifier into `InvalidVault`.
    pub fn remove_vault(&mut self, index: u8)
        requires
            old(self).vaults@.contains(index),
        ensures
            exists|i: int|
                {
                    &&& 0 <= i < old(self).vaults@.len()
                    &&& old(self).vaults@[i] == index
                    &&& final(self).vaults@ == swap_removed(old(self).vaults@, i)
                },
            final(self).version == old(self).version,
            final(self).bump == old(self).bump,
            final(self).keychain == old(self).keychain,
            final(self).domain == old(self).domain,
            final(self).stacheid == old(self).stacheid,
            final(self).next_vault_index == old(self).next_vault_index,
            final(self).next_auto_index == old(self).next_auto_index,
            final(self).autos == old(self).autos,
            final(self).vaults@.len() == old(self).vaults@.len() - 1,
            old(self).wf() ==> final(self).wf(),
    {
        let found = release(&mut self.vaults, index);
        proof {
            let i = choose|i: int|
                {
                    &&& 0 <= i < old(self).vaults@.len()
                    &&& old(self).vaults@[i] == index
                    &&& (forall|j: int| 0 <= j < i ==> old(self).vaults@[j] != index)
                    &&& final(self).vaults@ == swap_removed(old(self).vaults@, i)
                };
            if old(self).wf() {
                lemma_release_keeps_distinct(old(self).vaults@, i);
            }
        }
    }
}

} // verus!
