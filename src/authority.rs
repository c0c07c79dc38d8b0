//! The authority matrix and the resolver that consults it.
use vstd::prelude::*;
use crate::types::{Action, AuthorityKind, Delegate, DelegateRole, Key, LockError, TokenStandard};

verus! {

/// Whether a delegate of `role` may perform `action` on an asset of
/// `standard`. Only lock and unlock are ever done by a delegate; changes of
/// delegation belong to the owner alone. Both standards follow the same
/// rules today; the standard stays a dimension of the matrix.
pub open spec fn role_permits(standard: TokenStandard, role: DelegateRole, action: Action) -> bool {
    match action {
        Action::Lock | Action::Unlock => match role {
            DelegateRole::Utility | DelegateRole::Staking => true,
            DelegateRole::Transfer => false,
        },
        Action::Delegate | Action::Revoke => false,
    }
}

/// Whether a role may be used to lock an asset, on any standard.
pub open spec fn lock_capable(role: DelegateRole) -> bool {
    role_permits(TokenStandard::NonFungible, role, Action::Lock)
        && role_permits(TokenStandard::ProgrammableNonFungible, role, Action::Lock)
}

/// The authority a caller holds for `action` on an asset owned by `owner`
/// whose active delegate is `delegate`.
pub open spec fn resolve_spec(
    standard: TokenStandard,
    owner: Key,
    delegate: Option<Delegate>,
    caller: Key,
    action: Action,
) -> Result<AuthorityKind, LockError> {
    match action {
        Action::Lock | Action::Unlock => match delegate {
            Some(d) => if caller != owner && caller == d.key && role_permits(standard, d.role, action) {
                Ok(AuthorityKind::Delegate(d.role))
            } else {
                Err(LockError::InvalidAuthorityType)
            },
            None => Err(LockError::InvalidAuthorityType),
        },
        Action::Delegate | Action::Revoke => if caller == owner {
            Ok(AuthorityKind::Owner)
        } else {
            Err(LockError::InvalidAuthorityType)
        },
    }
}

/// The authority matrix: may a delegate of `role` perform `action` on an
/// asset of `standard`?
pub fn role_allows(standard: TokenStandard, role: DelegateRole, action: Action) -> (r: bool)
    ensures
        r == role_permits(standard, role, action),
{
    match action {
        Action::Lock | Action::Unlock => match role {
            DelegateRole::Utility | DelegateRole::Staking => true,
            DelegateRole::Transfer => false,
        },
        Action::Delegate | Action::Revoke => false,
    }
}

/// Decides who `caller` is for `action`. The owner acting directly may
/// never lock or unlock; only the active delegate, with a role that the
/// matrix allows, may. Only the owner may grant or revoke a delegate.
pub fn resolve(
    standard: TokenStandard,
    owner: Key,
    delegate: Option<Delegate>,
    caller: Key,
    action: Action,
) -> (r: Result<AuthorityKind, LockError>)
    ensures
        r == resolve_spec(standard, owner, delegate, caller, action),
{
    match action {
        Action::Lock | Action::Unlock => match delegate {
            Some(d) => {
                if caller != owner && caller == d.key && role_allows(standard, d.role, action) {
                    Ok(AuthorityKind::Delegate(d.role))
                } else {
                    Err(LockError::InvalidAuthorityType)
                }
            },
            None => Err(LockError::InvalidAuthorityType),
        },
        Action::Delegate | Action::Revoke => {
            if caller == owner {
                Ok(AuthorityKind::Owner)
            } else {
                Err(LockError::InvalidAuthorityType)
            }
        },
    }
}

} // verus!
