//! The session registry boundary: maps match identifiers to sessions.
//! A packet handler takes the addressed session out, mutates it as the
//! sole owner, and puts it back — the take/put discipline is the
//! serialization point that keeps one writer per match. Packets for an
//! unknown identifier are rejected, not fatal.

use vstd::prelude::*;
use crate::session::MatchSession;

verus! {

/// A registry lookup miss: the match identifier is unknown (or its
/// session is currently checked out by another handler).
#[derive(Clone, Copy, Debug, PartialEq, Eq, Structural)]
pub enum RegistryError {
    UnknownMatch,
    DuplicateMatch,
}

pub struct SessionRegistry {
    pub entries: Vec<(u64, MatchSession)>,
}

pub open spec fn has_id(s: Seq<(u64, MatchSession)>, id: u64) -> bool {
    exists|i: int| 0 <= i < s.len() && s[i].0 == id
}

impl SessionRegistry {
    /// Identifiers are unique and every stored session satisfies its
    /// own invariant.
    pub open spec fn inv(self) -> bool {
        &&& forall|i: int, j: int|
            0 <= i < j < self.entries@.len() ==> self.entries@[i].0 != self.entries@[j].0
        &&& forall|i: int| 0 <= i < self.entries@.len() ==> (#[trigger] self.entries@[i].1).inv()
    }

    pub fn new() -> (r: SessionRegistry)
        ensures
            r.inv(),
            r.entries@.len() == 0,
    {
        SessionRegistry { entries: Vec::new() }
    }

    /// Whether a match with this identifier is registered.
    pub fn contains(&self, id: u64) -> (r: bool)
        ensures
            r == has_id(self.entries@, id),
    {
        let mut i: usize = 0;
        while i < self.entries.len()
            invariant
                i <= self.entries@.len(),
                forall|j: int| 0 <= j < i ==> self.entries@[j].0 != id,
            decreases self.entries@.len() - i,
        {
            if self.entries[i].0 == id {
                return true;
            }
            i = i + 1;
        }
        false
    }

    /// Registers a new match; a duplicate identifier is rejected and
    /// nothing changes.
    pub fn insert(&mut self, id: u64, session: MatchSession) -> (r: Result<(), RegistryError>)
        requires
            old(self).inv(),
            session.inv(),
        ensures
            final (self).inv(),
            has_id(old(self).entries@, id) ==> r == Err::<(), RegistryError>(
                RegistryError::DuplicateMatch,
            ) && final (self).entries@ == old(self).entries@,
            !has_id(old(self).entries@, id) ==> r == Ok::<(), RegistryError>(()) && final (self).entries@ == old(self).entries@.push((id, session)),
    {
        if self.contains(id) {
            return Err(RegistryError::DuplicateMatch);
        }
        self.entries.push((id, session));
        proof {
            assert forall|i: int, j: int|
                0 <= i < j < self.entries@.len() implies self.entries@[i].0
                != self.entries@[j].0 by {
                if j == self.entries@.len() - 1 {
                    assert(!has_id(old(self).entries@, id));
                }
            }
        }
        Ok(())
    }

    /// Takes the addressed session out of the registry, making the
    /// caller its only writer; an unknown identifier is a reported
    /// miss. The remaining entries keep their relative order.
    pub fn take(&mut self, id: u64) -> (r: Result<MatchSession, RegistryError>)
        requires
            old(self).inv(),
        ensures
            final (self).inv(),
            !has_id(old(self).entries@, id) ==> r == Err::<MatchSession, RegistryError>(
                RegistryError::UnknownMatch,
            ) && final (self).entries@ == old(self).entries@,
            has_id(old(self).entries@, id) ==> (r matches Ok(s) && s.inv() && exists|i: int|
                0 <= i < old(self).entries@.len() && old(self).entries@[i] == (id, s) && final (self).entries@ == old(self).entries@.remove(i)),
            !has_id(final (self).entries@, id),
    {
        let mut i: usize = 0;
        while i < self.entries.len()
            invariant
                old(self).inv(),
                i <= self.entries@.len(),
                forall|j: int| 0 <= j < i ==> self.entries@[j].0 != id,
                *self == *old(self),
            decreases self.entries@.len() - i,
        {
            if self.entries[i].0 == id {
                let (_, s) = self.entries.remove(i);
                proof {
                    assert(old(self).entries@[i as int] == (id, s));
                    assert(self.entries@ == old(self).entries@.remove(i as int));
                    old(self).entries@.remove_ensures(i as int);
                    assert forall|p: int, q: int|
                        0 <= p < q < self.entries@.len() implies self.entries@[p].0
                        != self.entries@[q].0 by {
                        let op: int = if p < i {
                            p
                        } else {
                            p + 1
                        };
                        let oq: int = if q < i {
                            q
                        } else {
                            q + 1
                        };
                        assert(self.entries@[p] == old(self).entries@[op]);
                        assert(self.entries@[q] == old(self).entries@[oq]);
                    }
                    assert forall|j: int|
                        0 <= j < self.entries@.len() implies (#[trigger] self.entries@[j].1).inv()
                        && self.entries@[j].0 != id by {
                        let oj: int = if j < i {
                            j
                        } else {
                            j + 1
                        };
                        assert(self.entries@[j] == old(self).entries@[oj]);
                        assert(old(self).entries@[oj].0 != old(self).entries@[i as int].0);
                    }
                }
                return Ok(s);
            }
            i = i + 1;
        }
        Err(RegistryError::UnknownMatch)
    }

    /// Puts a session back under its identifier after handling a
    /// packet; rejected if the identifier is meanwhile occupied.
    pub fn put(&mut self, id: u64, session: MatchSession) -> (r: Result<(), RegistryError>)
        requires
            old(self).inv(),
            session.inv(),
        ensures
            final (self).inv(),
            has_id(old(self).entries@, id) ==> r == Err::<(), RegistryError>(
                RegistryError::DuplicateMatch,
            ) && final (self).entries@ == old(self).entries@,
            !has_id(old(self).entries@, id) ==> r == Ok::<(), RegistryError>(()) && final (self).entries@ == old(self).entries@.push((id, session)),
    {
        self.insert(id, session)
    }
}

} // verus!
