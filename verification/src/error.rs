use vstd::prelude::*;

verus! {

/// Typed failure reason surfaced to the caller of an operation.
///
/// Every failure is recoverable and aborts the single operation without
/// committing any state change: on an `Err` result the record handed in
/// through `&mut` is left as it was.
#[derive(Clone, Copy, Debug, PartialEq, Eq, Structural)]
pub enum StacheError {
    /// The caller is not on the treasury's authority directory.
    NotAuthorized,
    /// The treasury identifier string is not acceptable.
    InvalidStacheId,
    /// The display name is not 2 to 32 ASCII letters or digits.
    InvalidName,
    /// The treasury already holds the maximum number of vaults.
    MaxVaults,
    /// The vault index is not live in the treasury.
    InvalidVault,
    /// A balance does not cover the requested amount.
    InsufficientFunds,
    /// The vault is locked; withdrawal initiation is blocked.
    VaultLocked,
    /// No pending action with the given index, or the caller-supplied
    /// accounts do not match the recorded action.
    InvalidAction,
    /// The automation's trigger is unset, or the supplied balance source is
    /// not the trigger's configured account.
    InvalidTrigger,
    /// The approver already signed off on this action.
    AlreadyApproved,
    /// Caller-supplied token accounts are inconsistent with each other.
    NonMatchingTokenAccounts,
    /// The treasury already holds the maximum number of automations.
    MaxAutos,
    /// A bounded collection is full.
    HitLimit,
    /// The automation is active and can no longer be reconfigured.
    AutomationLocked,
    /// An account the operation needs was not supplied.
    MissingAccount,
    /// Caller-supplied token accounts do not match the recorded ones.
    TokenAccountsMismatch,
    /// The same account was supplied in two roles that must differ.
    DupeAccount,
    /// The trigger account must be one of the action's accounts.
    AutomationTriggerAccountMismatch,
}

} // verus!
