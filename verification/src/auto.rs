use vstd::prelude::*;

use crate::error::StacheError;
use crate::key::AccountKey;
use crate::vault::TransferAction;

verus! {

/// A balance condition watched by an automation.
#[derive(Clone, Copy, Debug, PartialEq, Eq, Structural)]
pub struct BalanceTrigger {
    /// The account whose balance is watched.
    pub account: AccountKey,
    /// The balance that arms the action.
    pub trigger_balance: u64,
    /// When true the action fires while the balance is at or above the
    /// threshold; when false, while it is below.
    pub above: bool,
}

/// A conditional automation: a stored trigger and action, owned by a
/// treasury and evaluated repeatedly once activated.
///
/// Trigger and action are held decoded rather than as type-tagged byte
/// blobs; each is `None` until set, and `Balance` and `Transfer` are the
/// only kinds, so an `Option` carries exactly the tag and the payload.
pub struct Auto {
    /// Key of the treasury that owns this automation.
    pub stache: AccountKey,
    /// Identifier of this automation within its treasury.
    pub index: u8,
    /// Seed bump of the record's address.
    pub bump: u8,
    /// Set once on activation; an active automation can no longer be
    /// reconfigured.
    pub active: bool,
    /// Created paused; evaluation is driven from outside.
    pub paused: bool,
    /// Handle of the external scheduler registration, once provisioned.
    pub thread: Option<AccountKey>,
    /// Display name.
    pub name: String,
    /// The configured transfer action, once set.
    pub action: Option<TransferAction>,
    /// The configured balance trigger, once set.
    pub trigger: Option<BalanceTrigger>,
}

impl Auto {
    /// The configured transfer action; fails with `InvalidAction` while no
    /// action of kind `Transfer` is set.
    pub fn transfer_action(&self) -> (r: Result<TransferAction, StacheError>)
        ensures
            match self.action {
                Some(a) => r == Ok::<TransferAction, StacheError>(a),
                None => r == Err::<TransferAction, StacheError>(StacheError::InvalidAction),
            },
    {
        match self.action {
            Some(a) => Ok(a),
            None => Err(StacheError::InvalidAction),
        }
    }

    /// The configured balance trigger; fails with `InvalidTrigger` while no
    /// trigger of kind `Balance` is set.
    pub fn balance_trigger(&self) -> (r: Result<BalanceTrigger, StacheError>)
        ensures
            match self.trigger {
                Some(t) => r == Ok::<BalanceTrigger, StacheError>(t),
                None => r == Err::<BalanceTrigger, StacheError>(StacheError::InvalidTrigger),
            },
    {
        match self.trigger {
            Some(t) => Ok(t),
            None => Err(StacheError::InvalidTrigger),
        }
    }
}

} // verus!
