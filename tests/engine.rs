use token_lock::authority::{resolve, role_allows};
use token_lock::delegation::{grant, revoke};
use token_lock::engine::{commit, lock, plan, unlock, Transition};
use token_lock::record::{Asset, TokenRecord};
use token_lock::store::{AssetStore, Request};
use token_lock::types::{
    Action, AuthorityKind, ControllerReply, Delegate, DelegateRole, Key, LockError, TokenStandard,
    TokenState,
};

const MINT: Key = Key { id: 100 };
const OWNER: Key = Key { id: 1 };
const HELPER: Key = Key { id: 2 };
const STRANGER: Key = Key { id: 3 };

const STANDARDS: [TokenStandard; 2] =
    [TokenStandard::NonFungible, TokenStandard::ProgrammableNonFungible];

fn locked_by_helper(standard: TokenStandard, role: DelegateRole) -> Asset {
    let mut a = Asset::new(MINT, OWNER, standard);
    grant(&mut a, OWNER, HELPER, role).unwrap();
    lock(&mut a, HELPER, ControllerReply::Applied).unwrap();
    a
}

#[test]
fn fresh_asset_is_unlocked_and_thawed() {
    for standard in STANDARDS {
        let a = Asset::new(MINT, OWNER, standard);
        assert_eq!(a.standard(), standard);
        assert_eq!(a.state(), TokenState::Unlocked);
        assert_eq!(a.active_delegate(), None);
        assert!(!a.is_frozen());
    }
    assert!(Asset::new(MINT, OWNER, TokenStandard::NonFungible).token_record().is_none());
    let rec = Asset::new(MINT, OWNER, TokenStandard::ProgrammableNonFungible)
        .token_record()
        .unwrap();
    assert_eq!(rec.mint, MINT);
    assert_eq!(rec.owner, OWNER);
}

#[test]
fn owner_lock_rejected_with_delegate_present() {
    for standard in STANDARDS {
        let mut a = Asset::new(MINT, OWNER, standard);
        grant(&mut a, OWNER, HELPER, DelegateRole::Utility).unwrap();
        let before = a;
        assert_eq!(
            lock(&mut a, OWNER, ControllerReply::Applied),
            Err(LockError::InvalidAuthorityType)
        );
        assert_eq!(a, before);
    }
}

#[test]
fn owner_as_own_delegate_cannot_lock() {
    let mut a = Asset::new(MINT, OWNER, TokenStandard::ProgrammableNonFungible);
    grant(&mut a, OWNER, OWNER, DelegateRole::Utility).unwrap();
    assert_eq!(
        lock(&mut a, OWNER, ControllerReply::Applied),
        Err(LockError::InvalidAuthorityType)
    );
    assert!(!a.is_frozen());
}

#[test]
fn stranger_and_transfer_delegate_cannot_lock() {
    for standard in STANDARDS {
        let mut a = Asset::new(MINT, OWNER, standard);
        assert_eq!(
            lock(&mut a, HELPER, ControllerReply::Applied),
            Err(LockError::InvalidAuthorityType)
        );
        grant(&mut a, OWNER, HELPER, DelegateRole::Utility).unwrap();
        assert_eq!(
            lock(&mut a, STRANGER, ControllerReply::Applied),
            Err(LockError::InvalidAuthorityType)
        );
        grant(&mut a, OWNER, HELPER, DelegateRole::Transfer).unwrap();
        assert_eq!(
            lock(&mut a, HELPER, ControllerReply::Applied),
            Err(LockError::InvalidAuthorityType)
        );
        assert_eq!(a.state(), TokenState::Unlocked);
    }
}

#[test]
fn staking_delegate_locks_both_standards() {
    for standard in STANDARDS {
        let a = locked_by_helper(standard, DelegateRole::Staking);
        assert_eq!(a.state(), TokenState::Locked);
        assert!(a.is_frozen());
        assert_eq!(
            a.active_delegate(),
            Some(Delegate { key: HELPER, role: DelegateRole::Staking })
        );
    }
}

#[test]
fn lock_twice_is_already_locked() {
    for standard in STANDARDS {
        let mut a = locked_by_helper(standard, DelegateRole::Utility);
        assert_eq!(
            lock(&mut a, HELPER, ControllerReply::Applied),
            Err(LockError::AlreadyLocked)
        );
        assert_eq!(a.state(), TokenState::Locked);
    }
}

#[test]
fn unlock_when_unlocked_is_already_unlocked() {
    let mut a = Asset::new(MINT, OWNER, TokenStandard::ProgrammableNonFungible);
    grant(&mut a, OWNER, HELPER, DelegateRole::Utility).unwrap();
    assert_eq!(
        unlock(&mut a, HELPER, ControllerReply::Applied),
        Err(LockError::AlreadyUnlocked)
    );
}

#[test]
fn owner_cannot_unlock() {
    let mut a = locked_by_helper(TokenStandard::NonFungible, DelegateRole::Utility);
    assert_eq!(
        unlock(&mut a, OWNER, ControllerReply::Applied),
        Err(LockError::InvalidAuthorityType)
    );
    assert!(a.is_frozen());
}

#[test]
fn controller_failure_leaves_asset_unchanged() {
    for standard in STANDARDS {
        let mut a = Asset::new(MINT, OWNER, standard);
        grant(&mut a, OWNER, HELPER, DelegateRole::Utility).unwrap();
        let before = a;
        assert_eq!(
            lock(&mut a, HELPER, ControllerReply::Failed),
            Err(LockError::ControllerFailure)
        );
        assert_eq!(a, before);

        let mut l = locked_by_helper(standard, DelegateRole::Utility);
        let before = l;
        assert_eq!(
            unlock(&mut l, HELPER, ControllerReply::Failed),
            Err(LockError::ControllerFailure)
        );
        assert_eq!(l, before);
    }
}

#[test]
fn lock_then_unlock_restores_asset() {
    for standard in STANDARDS {
        let mut a = Asset::new(MINT, OWNER, standard);
        grant(&mut a, OWNER, HELPER, DelegateRole::Utility).unwrap();
        let before = a;
        lock(&mut a, HELPER, ControllerReply::Applied).unwrap();
        assert!(a.is_frozen());
        unlock(&mut a, HELPER, ControllerReply::Applied).unwrap();
        assert_eq!(a, before);
        assert_eq!(a.state(), TokenState::Unlocked);
        assert_eq!(a.active_delegate(), before.active_delegate());
        assert!(!a.is_frozen());
    }
}

#[test]
fn unlock_then_lock_ends_locked() {
    for standard in STANDARDS {
        let mut a = locked_by_helper(standard, DelegateRole::Utility);
        let before = a;
        unlock(&mut a, HELPER, ControllerReply::Applied).unwrap();
        assert!(!a.is_frozen());
        lock(&mut a, HELPER, ControllerReply::Applied).unwrap();
        assert_eq!(a.state(), TokenState::Locked);
        assert!(a.is_frozen());
        assert_eq!(a, before);
    }
}

#[test]
fn locked_asset_refuses_every_grant_and_revoke() {
    for standard in STANDARDS {
        let mut a = locked_by_helper(standard, DelegateRole::Utility);
        let before = a;
        for role in [DelegateRole::Transfer, DelegateRole::Utility, DelegateRole::Staking] {
            assert_eq!(grant(&mut a, OWNER, STRANGER, role), Err(LockError::LockedToken));
        }
        assert_eq!(revoke(&mut a, OWNER), Err(LockError::LockedToken));
        assert_eq!(
            grant(&mut a, STRANGER, STRANGER, DelegateRole::Transfer),
            Err(LockError::InvalidAuthorityType)
        );
        assert_eq!(a, before);
        assert_eq!(a.state(), TokenState::Locked);
    }
}

#[test]
fn grant_replaces_previous_delegate() {
    let mut a = Asset::new(MINT, OWNER, TokenStandard::ProgrammableNonFungible);
    grant(&mut a, OWNER, HELPER, DelegateRole::Utility).unwrap();
    grant(&mut a, OWNER, STRANGER, DelegateRole::Transfer).unwrap();
    assert_eq!(
        a.active_delegate(),
        Some(Delegate { key: STRANGER, role: DelegateRole::Transfer })
    );
    assert_eq!(
        lock(&mut a, HELPER, ControllerReply::Applied),
        Err(LockError::InvalidAuthorityType)
    );
}

#[test]
fn delegate_cannot_grant_or_revoke() {
    let mut a = Asset::new(MINT, OWNER, TokenStandard::NonFungible);
    grant(&mut a, OWNER, HELPER, DelegateRole::Utility).unwrap();
    assert_eq!(
        grant(&mut a, HELPER, STRANGER, DelegateRole::Utility),
        Err(LockError::InvalidAuthorityType)
    );
    assert_eq!(revoke(&mut a, HELPER), Err(LockError::InvalidAuthorityType));
    assert_eq!(a.active_delegate().unwrap().key, HELPER);
}

#[test]
fn revoke_clears_delegate_and_is_noop_without_one() {
    for standard in STANDARDS {
        let mut a = Asset::new(MINT, OWNER, standard);
        assert_eq!(revoke(&mut a, OWNER), Ok(()));
        assert_eq!(a, Asset::new(MINT, OWNER, standard));
        grant(&mut a, OWNER, HELPER, DelegateRole::Utility).unwrap();
        assert_eq!(revoke(&mut a, OWNER), Ok(()));
        assert_eq!(a.active_delegate(), None);
        assert_eq!(
            lock(&mut a, HELPER, ControllerReply::Applied),
            Err(LockError::InvalidAuthorityType)
        );
    }
}

#[test]
fn stale_plan_meets_conflict() {
    let mut a = Asset::new(MINT, OWNER, TokenStandard::NonFungible);
    grant(&mut a, OWNER, HELPER, DelegateRole::Utility).unwrap();
    let stale = plan(&a, HELPER, Transition::Lock).unwrap();
    lock(&mut a, HELPER, ControllerReply::Applied).unwrap();
    let before = a;
    assert_eq!(
        commit(&mut a, HELPER, stale, ControllerReply::Applied),
        Err(LockError::Conflict)
    );
    assert_eq!(a, before);
    assert_eq!(plan(&a, HELPER, Transition::Lock), Err(LockError::AlreadyLocked));
    assert_eq!(plan(&a, HELPER, Transition::Unlock), Ok(Transition::Unlock));
}

#[test]
fn compare_and_swap_checks_expected_state() {
    let mut rec = TokenRecord {
        mint: MINT,
        owner: OWNER,
        state: TokenState::Unlocked,
        active_delegate: None,
    };
    let d = Some(Delegate { key: HELPER, role: DelegateRole::Utility });
    assert_eq!(
        rec.compare_and_swap(TokenState::Locked, TokenState::Unlocked, d),
        Err(LockError::Conflict)
    );
    assert_eq!(rec.active_delegate, None);
    assert_eq!(rec.compare_and_swap(TokenState::Unlocked, TokenState::Locked, d), Ok(()));
    assert_eq!(rec.state, TokenState::Locked);
    assert_eq!(rec.active_delegate, d);
}

#[test]
fn authority_matrix() {
    for standard in STANDARDS {
        for action in [Action::Lock, Action::Unlock] {
            assert!(!role_allows(standard, DelegateRole::Transfer, action));
            assert!(role_allows(standard, DelegateRole::Utility, action));
            assert!(role_allows(standard, DelegateRole::Staking, action));
        }
        for action in [Action::Delegate, Action::Revoke] {
            assert!(!role_allows(standard, DelegateRole::Utility, action));
        }
    }
    let d = Some(Delegate { key: HELPER, role: DelegateRole::Staking });
    let std = TokenStandard::ProgrammableNonFungible;
    assert_eq!(
        resolve(std, OWNER, d, HELPER, Action::Unlock),
        Ok(AuthorityKind::Delegate(DelegateRole::Staking))
    );
    assert_eq!(resolve(std, OWNER, d, OWNER, Action::Delegate), Ok(AuthorityKind::Owner));
    assert_eq!(
        resolve(std, OWNER, d, HELPER, Action::Revoke),
        Err(LockError::InvalidAuthorityType)
    );
    assert_eq!(
        resolve(std, OWNER, None, OWNER, Action::Lock),
        Err(LockError::InvalidAuthorityType)
    );
}

#[test]
fn store_routes_requests_by_mint_and_owner() {
    let mut store = AssetStore::new();
    let other_owner = Key { id: 9 };
    assert!(store.create(MINT, OWNER, TokenStandard::ProgrammableNonFungible));
    assert!(store.create(MINT, other_owner, TokenStandard::NonFungible));
    assert!(!store.create(MINT, OWNER, TokenStandard::NonFungible));
    assert_eq!(store.assets.len(), 2);

    let grant_req = Request::Grant { caller: OWNER, delegate: HELPER, role: DelegateRole::Utility };
    assert_eq!(store.submit(MINT, OWNER, grant_req), Some(Ok(())));
    let lock_req = Request::Lock { caller: HELPER, reply: ControllerReply::Applied };
    assert_eq!(store.submit(MINT, OWNER, lock_req), Some(Ok(())));
    assert_eq!(store.submit(MINT, OWNER, lock_req), Some(Err(LockError::AlreadyLocked)));
    assert_eq!(
        store.submit(MINT, other_owner, lock_req),
        Some(Err(LockError::InvalidAuthorityType))
    );
    assert_eq!(store.submit(Key { id: 5 }, OWNER, lock_req), None);

    let locked = store.read(MINT, OWNER).unwrap();
    assert_eq!(locked.state(), TokenState::Locked);
    assert!(locked.is_frozen());
    assert!(!store.read(MINT, other_owner).unwrap().is_frozen());
    assert!(store.read(Key { id: 5 }, OWNER).is_none());

    let unlock_req = Request::Unlock { caller: HELPER, reply: ControllerReply::Applied };
    assert_eq!(store.submit(MINT, OWNER, unlock_req), Some(Ok(())));
    assert_eq!(store.submit(MINT, OWNER, Request::Revoke { caller: OWNER }), Some(Ok(())));
    assert_eq!(store.read(MINT, OWNER).unwrap().active_delegate(), None);
}
