//! The delegation engine: the owner grants or revokes the single active
//! delegate, and no delegation changes while the asset is locked.
use vstd::prelude::*;
use crate::authority::{resolve, resolve_spec};
use crate::engine::follows;
use crate::record::Asset;
use crate::types::{Action, Delegate, DelegateRole, Key, LockError, TokenState};

verus! {

/// Granting: only the owner may, never while locked; the new delegate
/// replaces whichever one was active.
pub open spec fn grant_spec(a: Asset, caller: Key, delegate: Key, role: DelegateRole) -> Result<Asset, LockError> {
    match resolve_spec(a.spec_standard(), a.owner, a.spec_delegate(), caller, Action::Delegate) {
        Err(e) => Err(e),
        Ok(_) => if a.spec_state() == TokenState::Locked {
            Err(LockError::LockedToken)
        } else {
            Ok(a.with_delegate(Some(Delegate { key: delegate, role })))
        },
    }
}

/// Revoking: only the owner may, never while locked; clears the active
/// delegate, and succeeds with no change where there is none.
pub open spec fn revoke_spec(a: Asset, caller: Key) -> Result<Asset, LockError> {
    match resolve_spec(a.spec_standard(), a.owner, a.spec_delegate(), caller, Action::Revoke) {
        Err(e) => Err(e),
        Ok(_) => if a.spec_state() == TokenState::Locked {
            Err(LockError::LockedToken)
        } else {
            Ok(a.with_delegate(None))
        },
    }
}

/// Grants `delegate` the role `role` over the asset on behalf of `caller`.
pub fn grant(a: &mut Asset, caller: Key, delegate: Key, role: DelegateRole) -> (r: Result<(), LockError>)
    requires
        old(a).wf(),
    ensures
        follows(r, *old(a), *final(a), grant_spec(*old(a), caller, delegate, role)),
        final(a).wf(),
{
    if let Err(e) = resolve(a.standard(), a.owner, a.active_delegate(), caller, Action::Delegate) {
        return Err(e);
    }
    if a.state() == TokenState::Locked {
        return Err(LockError::LockedToken);
    }
    a.set_delegate(Some(Delegate { key: delegate, role }));
    Ok(())
}

/// Revokes the active delegate on behalf of `caller`.
pub fn revoke(a: &mut Asset, caller: Key) -> (r: Result<(), LockError>)
    requires
        old(a).wf(),
    ensures
        follows(r, *old(a), *final(a), revoke_spec(*old(a), caller)),
        final(a).wf(),
{
    if let Err(e) = resolve(a.standard(), a.owner, a.active_delegate(), caller, Action::Revoke) {
        return Err(e);
    }
    if a.state() == TokenState::Locked {
        return Err(LockError::LockedToken);
    }
    a.set_delegate(None);
    Ok(())
}

} // verus!
