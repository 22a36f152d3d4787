use vstd::prelude::*;

verus! {

/// A 32-byte account or identity key, held as two 128-bit halves so that
/// equality in contracts is plain structural equality on integers.
///
/// The core never inspects a key beyond comparing it for equality: keys name
/// treasuries, vaults, token accounts, approver identities, external
/// multisigs and scheduler handles.
#[derive(Clone, Copy, Debug, PartialEq, Eq, Structural)]
pub struct AccountKey {
    /// The first 16 bytes of the key, as a big-endian integer.
    pub hi: u128,
    /// The last 16 bytes of the key, as a big-endian integer.
    pub lo: u128,
}

impl AccountKey {
    /// Builds a key from its two 128-bit halves.
    pub fn new(hi: u128, lo: u128) -> (r: AccountKey)
        ensures
            r == (AccountKey { hi, lo }),
    {
        AccountKey { hi, lo }
    }
}

/// Whether the list holds the given key.
pub fn contains_key(list: &Vec<AccountKey>, key: &AccountKey) -> (r: bool)
    ensures
        r == list@.contains(*key),
{
    let mut i: usize = 0;
    while i < list.len()
        invariant
            i <= list@.len(),
            forall|j: int| 0 <= j < i ==> list@[j] != *key,
        decreases list@.len() - i,
    {
        if list[i] == *key {
            proof {
                assert(list@[i as int] == *key);
            }
            return true;
        }
        i += 1;
    }
    false
}

} // verus!
