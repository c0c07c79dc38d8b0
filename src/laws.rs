//! Laws of the lock and delegation engines, stated over the outcomes that
//! the operations' contracts follow.
use vstd::prelude::*;
use crate::delegation::grant_spec;
use crate::engine::{commit_spec, lock_spec, plan_spec, unlock_spec, Transition};
use crate::record::Asset;
use crate::types::{ControllerReply, Delegate, DelegateRole, Key, LockError, TokenState};

verus! {

/// The owner acting directly can never lock, on either standard, whether
/// or not a delegate is set.
pub proof fn owner_lock_rejected(a: Asset, reply: ControllerReply)
    requires
        a.wf(),
    ensures
        lock_spec(a, a.owner, reply) == Err::<Asset, LockError>(LockError::InvalidAuthorityType),
{
}

/// On an unlocked asset, the owner granting a Utility role to another key
/// and that key then locking both succeed: the asset ends locked, its
/// holding account frozen, with that key as its delegate.
pub proof fn utility_delegate_locks(a: Asset, d: Key)
    requires
        a.wf(),
        a.spec_state() == TokenState::Unlocked,
        d != a.owner,
    ensures
        grant_spec(a, a.owner, d, DelegateRole::Utility) is Ok,
        lock_spec(grant_spec(a, a.owner, d, DelegateRole::Utility)->Ok_0, d, ControllerReply::Applied) is Ok,
        ({
            let l = lock_spec(grant_spec(a, a.owner, d, DelegateRole::Utility)->Ok_0, d, ControllerReply::Applied)->Ok_0;
            &&& l.spec_state() == TokenState::Locked
            &&& l.frozen
            &&& l.spec_delegate() == Some(Delegate { key: d, role: DelegateRole::Utility })
        }),
{
}

/// Once a lock succeeds, every grant fails, for any role: with
/// `LockedToken` when the owner asks, and the locked asset keeps its state
/// and its delegate.
pub proof fn locked_refuses_grant(a: Asset, locker: Key, reply: ControllerReply, caller: Key, d: Key, role: DelegateRole)
    requires
        a.wf(),
        lock_spec(a, locker, reply) is Ok,
    ensures
        ({
            let l = lock_spec(a, locker, reply)->Ok_0;
            &&& grant_spec(l, caller, d, role) is Err
            &&& caller == l.owner ==> grant_spec(l, caller, d, role) == Err::<Asset, LockError>(LockError::LockedToken)
            &&& l.spec_state() == TokenState::Locked
            &&& l.frozen
            &&& l.spec_delegate() == a.spec_delegate()
        }),
{
}

/// An unlock followed by a lock by the same delegate brings the asset back
/// to exactly where it was: locked and frozen.
pub proof fn unlock_then_lock(a: Asset, caller: Key)
    requires
        a.wf(),
        unlock_spec(a, caller, ControllerReply::Applied) is Ok,
    ensures
        lock_spec(unlock_spec(a, caller, ControllerReply::Applied)->Ok_0, caller, ControllerReply::Applied) is Ok,
        ({
            let l = lock_spec(unlock_spec(a, caller, ControllerReply::Applied)->Ok_0, caller, ControllerReply::Applied)->Ok_0;
            &&& l.spec_state() == TokenState::Locked
            &&& l.frozen
            &&& l == a
        }),
{
}

/// Two lock requests planned against the same state: the one committed
/// first wins, and the other then meets a conflict at commit, or
/// `AlreadyLocked` were it planned anew; the asset stays locked with the
/// winner as its delegate.
pub proof fn racing_locks(a: Asset, first: Key, second: Key, reply: ControllerReply)
    requires
        a.wf(),
        plan_spec(a, first, Transition::Lock) is Ok,
        plan_spec(a, second, Transition::Lock) is Ok,
    ensures
        commit_spec(a, first, Transition::Lock, ControllerReply::Applied) is Ok,
        ({
            let w = commit_spec(a, first, Transition::Lock, ControllerReply::Applied)->Ok_0;
            &&& commit_spec(w, second, Transition::Lock, reply) == Err::<Asset, LockError>(LockError::Conflict)
            &&& lock_spec(w, second, reply) == Err::<Asset, LockError>(LockError::AlreadyLocked)
            &&& w.spec_state() == TokenState::Locked
            &&& w.frozen
            &&& w.spec_delegate() is Some
            &&& w.spec_delegate()->Some_0.key == first
        }),
{
}

/// A lock followed by an unlock by the same delegate returns the asset to
/// exactly its state before the lock: same state and delegate, thawed.
pub proof fn lock_unlock_round_trip(a: Asset, caller: Key, reply: ControllerReply)
    requires
        a.wf(),
        lock_spec(a, caller, reply) is Ok,
    ensures
        unlock_spec(lock_spec(a, caller, reply)->Ok_0, caller, ControllerReply::Applied) is Ok,
        ({
            let u = unlock_spec(lock_spec(a, caller, reply)->Ok_0, caller, ControllerReply::Applied)->Ok_0;
            &&& u.spec_state() == a.spec_state()
            &&& u.spec_delegate() == a.spec_delegate()
            &&& !u.frozen
            &&& u == a
        }),
{
}

} // verus!
