use vstd::prelude::*;

verus! {

/// Most vault identifiers a treasury may hold live at once.
pub const MAX_VAULTS: usize = 5;

/// Most automation identifiers a treasury may hold live at once.
pub const MAX_AUTOS: usize = 5;

/// Most pending actions a single vault may hold at once.
pub const MAX_VAULT_ACTIONS: usize = 5;

/// Record-layout version written into newly created treasuries.
pub const CURRENT_VERSION: u8 = 1;

} // verus!
