//! Identities, roles, asset standards and errors.
use vstd::prelude::*;

verus! {

/// The identity of an account: an asset's mint, its owner, or a delegate.
#[derive(Clone, Copy, Debug, PartialEq, Eq, Structural)]
pub struct Key {
    pub id: u64,
}

/// The asset variant, which decides whether a token record is kept.
#[derive(Clone, Copy, Debug, PartialEq, Eq, Structural)]
pub enum TokenStandard {
    NonFungible,
    ProgrammableNonFungible,
}

/// Whether the asset is locked (its holding account frozen) or not.
#[derive(Clone, Copy, Debug, PartialEq, Eq, Structural)]
pub enum TokenState {
    Unlocked,
    Locked,
}

/// The capability a delegate is granted over an asset.
#[derive(Clone, Copy, Debug, PartialEq, Eq, Structural)]
pub enum DelegateRole {
    /// May move the asset to another owner.
    Transfer,
    /// May lock and unlock the asset for an application's use.
    Utility,
    /// May lock and unlock the asset while it is staked.
    Staking,
}

/// A delegate identity together with its role.
#[derive(Clone, Copy, Debug, PartialEq, Eq, Structural)]
pub struct Delegate {
    pub key: Key,
    pub role: DelegateRole,
}

/// The requests that the authority rules distinguish.
#[derive(Clone, Copy, Debug, PartialEq, Eq, Structural)]
pub enum Action {
    Lock,
    Unlock,
    Delegate,
    Revoke,
}

/// Who a caller turned out to be for a request.
#[derive(Clone, Copy, Debug, PartialEq, Eq, Structural)]
pub enum AuthorityKind {
    Owner,
    Delegate(DelegateRole),
}

/// The answer of the holding-account controller to a freeze or thaw.
#[derive(Clone, Copy, Debug, PartialEq, Eq, Structural)]
pub enum ControllerReply {
    Applied,
    Failed,
}

/// Every way in which a request can be refused.
#[derive(Clone, Copy, Debug, PartialEq, Eq, Structural)]
pub enum LockError {
    /// The caller is neither the owner (where the owner may act) nor the
    /// matching delegate with a role that allows the action.
    InvalidAuthorityType,
    /// A lock was asked for an asset that is already locked.
    AlreadyLocked,
    /// An unlock was asked for an asset that is not locked.
    AlreadyUnlocked,
    /// A change of delegation was asked while the asset is locked.
    LockedToken,
    /// The state seen when the request was planned is no longer current.
    Conflict,
    /// The holding-account controller did not apply the freeze or thaw.
    ControllerFailure,
}

/// The value of the frozen flag that goes with lock state `s`.
pub open spec fn frozen_for(s: TokenState) -> bool {
    s == TokenState::Locked
}

} // verus!
