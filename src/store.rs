use std::collections::HashMap;
use vstd::prelude::*;

use crate::session::{session_in, Session, SessionView, State};

verus! {

broadcast use vstd::std_specs::hash::group_hash_axioms;

/// Why a compare-and-swap was refused.
#[derive(Clone, Copy, Debug, PartialEq, Eq, Structural)]
pub enum Conflict {
    /// The stored version is not the one the update was computed from, or it
    /// can no longer be incremented.
    Stale,
}

/// Per-conversation sessions, each updated only by compare-and-swap on its
/// version counter.
pub struct SessionStore {
    sessions: HashMap<i64, Session>,
}

impl View for SessionStore {
    type V = Map<i64, SessionView>;

    closed spec fn view(&self) -> Map<i64, SessionView> {
        self.sessions@.map_values(|s: Session| s@)
    }
}

impl SessionStore {
    /// The session stored under `key`, or a fresh one where nothing is stored.
    pub open spec fn session_at(self, key: i64) -> SessionView {
        session_in(self@, key)
    }

    /// Every stored session is well formed.
    pub open spec fn well_formed(self) -> bool {
        forall|k: i64| #[trigger] self@.contains_key(k) ==> self@[k].well_formed()
    }

    /// A store that holds no session.
    pub fn new() -> (r: SessionStore)
        ensures
            r@ == Map::<i64, SessionView>::empty(),
            r.well_formed(),
    {
        let r = SessionStore { sessions: HashMap::new() };
        assert(r@ =~= Map::<i64, SessionView>::empty());
        r
    }

    /// A copy of the session under `key`; a fresh idle session with version 0
    /// where none is stored.
    pub fn get(&self, key: i64) -> (r: Session)
        ensures
            r@ == self.session_at(key),
    {
        assert(vstd::std_specs::hash::obeys_key_model::<i64>());
        match self.sessions.get(&key) {
            Some(s) => s.duplicate(),
            None => Session::fresh(),
        }
    }

    /// Stores `state` under `key` with the version one past `expected`, if
    /// the stored version is `expected` and can still be incremented; else
    /// changes nothing.
    pub fn compare_and_swap(&mut self, key: i64, expected: u64, state: State) -> (r: Result<(), Conflict>)
        ensures
            r is Ok <==> (old(self).session_at(key).version == expected && expected < u64::MAX),
            r is Ok ==> final(self)@ == old(self)@.insert(
                key,
                (Session { state, version: (expected + 1) as u64 })@,
            ),
            r is Err ==> final(self)@ == old(self)@,
    {
        assert(vstd::std_specs::hash::obeys_key_model::<i64>());
        let current: u64 = match self.sessions.get(&key) {
            Some(s) => s.version,
            None => 0,
        };
        if current != expected || expected == u64::MAX {
            return Err(Conflict::Stale);
        }
        let s = Session { state, version: expected + 1 };
        let ghost sv = s@;
        self.sessions.insert(key, s);
        assert(self@ =~= old(self)@.insert(key, sv));
        Ok(())
    }
}

} // verus!
