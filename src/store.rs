//! The store of assets, each addressed by its mint and owner, through
//! which requests reach the lock and delegation engines.
use vstd::prelude::*;
use crate::delegation::{grant, grant_spec, revoke, revoke_spec};
use crate::engine::{follows, lock, lock_spec, unlock, unlock_spec};
use crate::record::Asset;
use crate::types::{ControllerReply, DelegateRole, Key, LockError, TokenStandard};

verus! {

/// A request on one asset, with the identity of the caller.
#[derive(Clone, Copy, Debug, PartialEq, Eq, Structural)]
pub enum Request {
    Lock { caller: Key, reply: ControllerReply },
    Unlock { caller: Key, reply: ControllerReply },
    Grant { caller: Key, delegate: Key, role: DelegateRole },
    Revoke { caller: Key },
}

/// What a request makes of an asset, or the error it meets.
pub open spec fn request_outcome(a: Asset, req: Request) -> Result<Asset, LockError> {
    match req {
        Request::Lock { caller, reply } => lock_spec(a, caller, reply),
        Request::Unlock { caller, reply } => unlock_spec(a, caller, reply),
        Request::Grant { caller, delegate, role } => grant_spec(a, caller, delegate, role),
        Request::Revoke { caller } => revoke_spec(a, caller),
    }
}

/// Whether `a` is the asset addressed by `mint` and `owner`.
pub open spec fn addressed(a: Asset, mint: Key, owner: Key) -> bool {
    a.mint == mint && a.owner == owner
}

/// Assets, at most one for each mint and owner.
pub struct AssetStore {
    pub assets: Vec<Asset>,
}

impl AssetStore {
    /// Every asset is well formed and no two share a mint and owner.
    pub open spec fn wf(&self) -> bool {
        &&& forall|i: int| 0 <= i < self.assets@.len() ==> (#[trigger] self.assets@[i]).wf()
        &&& forall|i: int, j: int|
            0 <= i < j < self.assets@.len() ==> !addressed(
                #[trigger] self.assets@[i],
                (#[trigger] self.assets@[j]).mint,
                self.assets@[j].owner,
            )
    }

    /// Whether the store holds an asset for `mint` and `owner`.
    pub open spec fn holds(&self, mint: Key, owner: Key) -> bool {
        exists|i: int| 0 <= i < self.assets@.len() && addressed(#[trigger] self.assets@[i], mint, owner)
    }

    pub fn new() -> (r: AssetStore)
        ensures
            r.wf(),
            r.assets@.len() == 0,
    {
        AssetStore { assets: Vec::new() }
    }

    fn position(&self, mint: Key, owner: Key) -> (r: Option<usize>)
        ensures
            match r {
                Some(i) => i < self.assets@.len() && addressed(self.assets@[i as int], mint, owner),
                None => !self.holds(mint, owner),
            },
    {
        let mut i: usize = 0;
        while i < self.assets.len()
            invariant
                i <= self.assets@.len(),
                forall|k: int| 0 <= k < i ==> !addressed(#[trigger] self.assets@[k], mint, owner),
            decreases self.assets@.len() - i,
        {
            let a = &self.assets[i];
            if a.mint == mint && a.owner == owner {
                return Some(i);
            }
            i = i + 1;
        }
        None
    }

    /// Records a freshly minted asset. Returns false, changing nothing,
    /// where one is already held for the same mint and owner.
    pub fn create(&mut self, mint: Key, owner: Key, standard: TokenStandard) -> (r: bool)
        requires
            old(self).wf(),
        ensures
            final(self).wf(),
            r == !old(self).holds(mint, owner),
            r ==> final(self).assets@.len() == old(self).assets@.len() + 1
                && final(self).assets@.drop_last() == old(self).assets@
                && final(self).assets@.last() == Asset::spec_new(mint, owner, standard),
            !r ==> final(self).assets@ == old(self).assets@,
    {
        if self.position(mint, owner).is_some() {
            return false;
        }
        let a = Asset::new(mint, owner, standard);
        self.assets.push(a);
        assert(final(self).assets@.drop_last() == old(self).assets@);
        true
    }

    /// The asset held for `mint` and `owner`, if any.
    pub fn read(&self, mint: Key, owner: Key) -> (r: Option<Asset>)
        requires
            self.wf(),
        ensures
            r is Some <==> self.holds(mint, owner),
            r is Some ==> addressed(r->Some_0, mint, owner) && self.assets@.contains(r->Some_0),
    {
        match self.position(mint, owner) {
            Some(i) => Some(self.assets[i]),
            None => None,
        }
    }

    /// Carries out `req` on the asset held for `mint` and `owner`: `None`
    /// where there is no such asset, else the request's own result, that
    /// asset alone changed as the request's outcome says.
    pub fn submit(&mut self, mint: Key, owner: Key, req: Request) -> (r: Option<Result<(), LockError>>)
        requires
            old(self).wf(),
        ensures
            final(self).wf(),
            r is None <==> !old(self).holds(mint, owner),
            r is None ==> final(self).assets@ == old(self).assets@,
            r is Some ==> exists|i: int|
                0 <= i < old(self).assets@.len() && addressed(#[trigger] old(self).assets@[i], mint, owner)
                && final(self).assets@ == old(self).assets@.update(i, final(self).assets@[i])
                && follows(r->Some_0, old(self).assets@[i], final(self).assets@[i],
                    request_outcome(old(self).assets@[i], req)),
    {
        let i = match self.position(mint, owner) {
            Some(i) => i,
            None => return None,
        };
        let mut a = self.assets[i];
        let res = match req {
            Request::Lock { caller, reply } => lock(&mut a, caller, reply),
            Request::Unlock { caller, reply } => unlock(&mut a, caller, reply),
            Request::Grant { caller, delegate, role } => grant(&mut a, caller, delegate, role),
            Request::Revoke { caller } => revoke(&mut a, caller),
        };
        self.assets.set(i, a);
        assert(final(self).assets@[i as int] == a);
        Some(res)
    }
}

} // verus!
