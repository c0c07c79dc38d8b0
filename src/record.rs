//! The token record, the asset it belongs to, and their invariant.
use vstd::prelude::*;
use crate::authority::lock_capable;
use crate::types::{frozen_for, Delegate, Key, LockError, TokenStandard, TokenState};

verus! {

/// The persisted lock state and delegate of a programmable asset, keyed by
/// its mint and owner.
#[derive(Clone, Copy, Debug, PartialEq, Eq, Structural)]
pub struct TokenRecord {
    pub mint: Key,
    pub owner: Key,
    pub state: TokenState,
    pub active_delegate: Option<Delegate>,
}

impl TokenRecord {
    /// Replaces state and delegate together, but only where the state is
    /// still `expected`; otherwise reports a conflict and changes nothing.
    pub fn compare_and_swap(
        &mut self,
        expected: TokenState,
        new_state: TokenState,
        new_delegate: Option<Delegate>,
    ) -> (r: Result<(), LockError>)
        ensures
            old(self).state == expected ==> r == Ok::<(), LockError>(())
                && *final(self) == (TokenRecord { state: new_state, active_delegate: new_delegate, ..*old(self) }),
            old(self).state != expected ==> r == Err::<(), LockError>(LockError::Conflict)
                && *final(self) == *old(self),
    {
        if self.state != expected {
            return Err(LockError::Conflict);
        }
        self.state = new_state;
        self.active_delegate = new_delegate;
        Ok(())
    }
}

/// Where an asset keeps its lock state: a token record for the programmable
/// standard, nothing but the holding account's flag (and the delegate it
/// names) for the plain one.
#[derive(Clone, Copy, Debug, PartialEq, Eq, Structural)]
pub enum RecordSlot {
    Programmable(TokenRecord),
    Simple(Option<Delegate>),
}

/// One asset instance: its mint, its owner, its record and the frozen flag
/// of the holding account that custodies it.
#[derive(Clone, Copy, Debug, PartialEq, Eq, Structural)]
pub struct Asset {
    pub mint: Key,
    pub owner: Key,
    pub slot: RecordSlot,
    pub frozen: bool,
}

impl Asset {
    pub open spec fn spec_standard(self) -> TokenStandard {
        match self.slot {
            RecordSlot::Programmable(_) => TokenStandard::ProgrammableNonFungible,
            RecordSlot::Simple(_) => TokenStandard::NonFungible,
        }
    }

    /// The lock state: the record's for a programmable asset, the frozen
    /// flag's for a plain one.
    pub open spec fn spec_state(self) -> TokenState {
        match self.slot {
            RecordSlot::Programmable(r) => r.state,
            RecordSlot::Simple(_) => if self.frozen {
                TokenState::Locked
            } else {
                TokenState::Unlocked
            },
        }
    }

    pub open spec fn spec_delegate(self) -> Option<Delegate> {
        match self.slot {
            RecordSlot::Programmable(r) => r.active_delegate,
            RecordSlot::Simple(d) => d,
        }
    }

    /// The invariant: the record belongs to this mint and owner, the frozen
    /// flag matches the lock state, and a locked asset has a delegate,
    /// other than the owner, whose role can lock.
    pub open spec fn wf(self) -> bool {
        &&& match self.slot {
            RecordSlot::Programmable(r) => r.mint == self.mint && r.owner == self.owner,
            RecordSlot::Simple(_) => true,
        }
        &&& self.frozen == frozen_for(self.spec_state())
        &&& self.spec_state() == TokenState::Locked ==> match self.spec_delegate() {
            Some(d) => d.key != self.owner && lock_capable(d.role),
            None => false,
        }
    }

    /// This asset with lock state `s`, its frozen flag set to match.
    pub open spec fn with_state(self, s: TokenState) -> Asset {
        match self.slot {
            RecordSlot::Programmable(r) => Asset {
                slot: RecordSlot::Programmable(TokenRecord { state: s, ..r }),
                frozen: frozen_for(s),
                ..self
            },
            RecordSlot::Simple(_) => Asset { frozen: frozen_for(s), ..self },
        }
    }

    /// This asset with `d` as its active delegate.
    pub open spec fn with_delegate(self, d: Option<Delegate>) -> Asset {
        match self.slot {
            RecordSlot::Programmable(r) => Asset {
                slot: RecordSlot::Programmable(TokenRecord { active_delegate: d, ..r }),
                ..self
            },
            RecordSlot::Simple(_) => Asset { slot: RecordSlot::Simple(d), ..self },
        }
    }

    /// A freshly minted asset: unlocked, thawed, with no delegate.
    pub open spec fn spec_new(mint: Key, owner: Key, standard: TokenStandard) -> Asset {
        Asset {
            mint,
            owner,
            slot: match standard {
                TokenStandard::ProgrammableNonFungible => RecordSlot::Programmable(
                    TokenRecord { mint, owner, state: TokenState::Unlocked, active_delegate: None },
                ),
                TokenStandard::NonFungible => RecordSlot::Simple(None),
            },
            frozen: false,
        }
    }

    pub fn new(mint: Key, owner: Key, standard: TokenStandard) -> (r: Asset)
        ensures
            r == Asset::spec_new(mint, owner, standard),
            r.wf(),
            r.mint == mint,
            r.owner == owner,
            r.spec_standard() == standard,
            r.spec_state() == TokenState::Unlocked,
            r.spec_delegate() == None::<Delegate>,
            !r.frozen,
    {
        let slot = match standard {
            TokenStandard::ProgrammableNonFungible => RecordSlot::Programmable(
                TokenRecord { mint, owner, state: TokenState::Unlocked, active_delegate: None },
            ),
            TokenStandard::NonFungible => RecordSlot::Simple(None),
        };
        Asset { mint, owner, slot, frozen: false }
    }

    /// Replaces the active delegate, wherever this asset keeps it.
    pub(crate) fn set_delegate(&mut self, d: Option<Delegate>)
        ensures
            *final(self) == old(self).with_delegate(d),
    {
        self.slot = match self.slot {
            RecordSlot::Programmable(r) => RecordSlot::Programmable(TokenRecord { active_delegate: d, ..r }),
            RecordSlot::Simple(_) => RecordSlot::Simple(d),
        };
    }

    pub fn standard(&self) -> (r: TokenStandard)
        ensures
            r == self.spec_standard(),
    {
        match self.slot {
            RecordSlot::Programmable(_) => TokenStandard::ProgrammableNonFungible,
            RecordSlot::Simple(_) => TokenStandard::NonFungible,
        }
    }

    pub fn state(&self) -> (r: TokenState)
        ensures
            r == self.spec_state(),
    {
        match self.slot {
            RecordSlot::Programmable(r) => r.state,
            RecordSlot::Simple(_) => if self.frozen {
                TokenState::Locked
            } else {
                TokenState::Unlocked
            },
        }
    }

    pub fn active_delegate(&self) -> (r: Option<Delegate>)
        ensures
            r == self.spec_delegate(),
    {
        match self.slot {
            RecordSlot::Programmable(r) => r.active_delegate,
            RecordSlot::Simple(d) => d,
        }
    }

    pub fn is_frozen(&self) -> (r: bool)
        ensures
            r == self.frozen,
    {
        self.frozen
    }

    /// The token record, for the programmable standard; `None` for the
    /// plain one, which keeps none.
    pub fn token_record(&self) -> (r: Option<TokenRecord>)
        ensures
            r == (match self.slot {
                RecordSlot::Programmable(rec) => Some(rec),
                RecordSlot::Simple(_) => None::<TokenRecord>,
            }),
    {
        match self.slot {
            RecordSlot::Programmable(rec) => Some(rec),
            RecordSlot::Simple(_) => None,
        }
    }
}

} // verus!
