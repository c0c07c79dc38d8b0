//! The lock/unlock engine: plans a transition against the state observed,
//! then commits it, conditioned on that state still holding, together with
//! the freeze or thaw of the holding account.
use vstd::prelude::*;
use crate::authority::{resolve, resolve_spec};
use crate::record::{Asset, RecordSlot};
use crate::types::{Action, ControllerReply, Key, LockError, TokenState};

verus! {

/// A planned change of lock state.
#[derive(Clone, Copy, Debug, PartialEq, Eq, Structural)]
pub enum Transition {
    /// From unlocked to locked, freezing the holding account.
    Lock,
    /// From locked to unlocked, thawing the holding account.
    Unlock,
}

pub open spec fn action_of(t: Transition) -> Action {
    match t {
        Transition::Lock => Action::Lock,
        Transition::Unlock => Action::Unlock,
    }
}

/// The state a transition starts from.
pub open spec fn expected_of(t: Transition) -> TokenState {
    match t {
        Transition::Lock => TokenState::Unlocked,
        Transition::Unlock => TokenState::Locked,
    }
}

/// The state a transition ends in.
pub open spec fn next_of(t: Transition) -> TokenState {
    match t {
        Transition::Lock => TokenState::Locked,
        Transition::Unlock => TokenState::Unlocked,
    }
}

/// The error for a transition whose end state already holds.
pub open spec fn already_of(t: Transition) -> LockError {
    match t {
        Transition::Lock => LockError::AlreadyLocked,
        Transition::Unlock => LockError::AlreadyUnlocked,
    }
}

/// Planning: the caller must hold authority for the transition, and the
/// asset must not already be in its end state.
pub open spec fn plan_spec(a: Asset, caller: Key, t: Transition) -> Result<Transition, LockError> {
    match resolve_spec(a.spec_standard(), a.owner, a.spec_delegate(), caller, action_of(t)) {
        Err(e) => Err(e),
        Ok(_) => if a.spec_state() == next_of(t) {
            Err(already_of(t))
        } else {
            Ok(t)
        },
    }
}

/// Committing: the state observed when planning must still hold, the
/// caller must still hold authority, and the controller must have applied
/// the freeze or thaw. The result is the asset after the commit.
pub open spec fn commit_spec(a: Asset, caller: Key, t: Transition, reply: ControllerReply) -> Result<Asset, LockError> {
    if a.spec_state() != expected_of(t) {
        Err(LockError::Conflict)
    } else {
        match resolve_spec(a.spec_standard(), a.owner, a.spec_delegate(), caller, action_of(t)) {
            Err(e) => Err(e),
            Ok(_) => if reply == ControllerReply::Failed {
                Err(LockError::ControllerFailure)
            } else {
                Ok(a.with_state(next_of(t)))
            },
        }
    }
}

/// A whole request: plan against `a`, then commit against the same `a`.
pub open spec fn request_spec(a: Asset, caller: Key, t: Transition, reply: ControllerReply) -> Result<Asset, LockError> {
    match plan_spec(a, caller, t) {
        Err(e) => Err(e),
        Ok(t2) => commit_spec(a, caller, t2, reply),
    }
}

pub open spec fn lock_spec(a: Asset, caller: Key, reply: ControllerReply) -> Result<Asset, LockError> {
    request_spec(a, caller, Transition::Lock, reply)
}

pub open spec fn unlock_spec(a: Asset, caller: Key, reply: ControllerReply) -> Result<Asset, LockError> {
    request_spec(a, caller, Transition::Unlock, reply)
}

/// How an operation that mutates `before` into `after` and returns `r`
/// follows the outcome `o`: on success the asset becomes what `o` holds;
/// on failure the error is `o`'s and the asset is left as it was.
pub open spec fn follows(r: Result<(), LockError>, before: Asset, after: Asset, o: Result<Asset, LockError>) -> bool {
    match o {
        Ok(n) => r == Ok::<(), LockError>(()) && after == n,
        Err(e) => r == Err::<(), LockError>(e) && after == before,
    }
}

/// Checks a lock or unlock request against the asset as it is now and
/// returns the transition to commit.
pub fn plan(a: &Asset, caller: Key, t: Transition) -> (r: Result<Transition, LockError>)
    ensures
        r == plan_spec(*a, caller, t),
{
    let action = match t {
        Transition::Lock => Action::Lock,
        Transition::Unlock => Action::Unlock,
    };
    match resolve(a.standard(), a.owner, a.active_delegate(), caller, action) {
        Err(e) => Err(e),
        Ok(_) => {
            let next = match t {
                Transition::Lock => TokenState::Locked,
                Transition::Unlock => TokenState::Unlocked,
            };
            if a.state() == next {
                match t {
                    Transition::Lock => Err(LockError::AlreadyLocked),
                    Transition::Unlock => Err(LockError::AlreadyUnlocked),
                }
            } else {
                Ok(t)
            }
        },
    }
}

/// Commits a planned transition. The record is changed by compare-and-swap
/// on the state the plan expected, and the change is kept only where the
/// controller applied the freeze or thaw; on any failure the asset is left
/// exactly as it was.
pub fn commit(a: &mut Asset, caller: Key, t: Transition, reply: ControllerReply) -> (r: Result<(), LockError>)
    requires
        old(a).wf(),
    ensures
        follows(r, *old(a), *final(a), commit_spec(*old(a), caller, t, reply)),
        final(a).wf(),
{
    let (expected, next, action) = match t {
        Transition::Lock => (TokenState::Unlocked, TokenState::Locked, Action::Lock),
        Transition::Unlock => (TokenState::Locked, TokenState::Unlocked, Action::Unlock),
    };
    let staged_slot = match a.slot {
        RecordSlot::Programmable(rec) => {
            let mut staged = rec;
            let swapped = staged.compare_and_swap(expected, next, rec.active_delegate);
            if swapped.is_err() {
                return Err(LockError::Conflict);
            }
            RecordSlot::Programmable(staged)
        },
        RecordSlot::Simple(d) => {
            if a.state() != expected {
                return Err(LockError::Conflict);
            }
            RecordSlot::Simple(d)
        },
    };
    if let Err(e) = resolve(a.standard(), a.owner, a.active_delegate(), caller, action) {
        return Err(e);
    }
    if reply == ControllerReply::Failed {
        return Err(LockError::ControllerFailure);
    }
    a.slot = staged_slot;
    a.frozen = next == TokenState::Locked;
    Ok(())
}

/// Locks the asset on behalf of `caller`, freezing its holding account.
pub fn lock(a: &mut Asset, caller: Key, reply: ControllerReply) -> (r: Result<(), LockError>)
    requires
        old(a).wf(),
    ensures
        follows(r, *old(a), *final(a), lock_spec(*old(a), caller, reply)),
        final(a).wf(),
{
    match plan(a, caller, Transition::Lock) {
        Err(e) => Err(e),
        Ok(t) => commit(a, caller, t, reply),
    }
}

/// Unlocks the asset on behalf of `caller`, thawing its holding account.
pub fn unlock(a: &mut Asset, caller: Key, reply: ControllerReply) -> (r: Result<(), LockError>)
    requires
        old(a).wf(),
    ensures
        follows(r, *old(a), *final(a), unlock_spec(*old(a), caller, reply)),
        final(a).wf(),
{
    match plan(a, caller, Transition::Unlock) {
        Err(e) => Err(e),
        Ok(t) => commit(a, caller, t, reply),
    }
}

} // verus!
