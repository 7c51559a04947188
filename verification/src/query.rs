use vstd::prelude::*;
use crate::session::Session;

verus! {

/// The one error kind that the data fetches surface to the rendering layer.
#[derive(Clone, Copy, PartialEq, Eq, Structural, Debug)]
pub enum FetchError {
    /// The producer short-circuited before the remote call: no authenticated
    /// session was available.
    Unauthenticated,
    /// The remote call itself failed; its code is carried through unchanged.
    Remote(u64),
}

/// The resolution state of one derived query: nothing yet, or exactly one
/// settled value. Queries whose producer can fail instantiate `T` with a
/// `Result` carrying a `FetchError`.
pub enum QueryState<T> {
    /// The fetch has not settled; renderers show their fallback view.
    Pending,
    /// The fetch settled, once, with this value.
    Resolved(T),
}

/// A derived async query's cell, cached by session identity. At any time the
/// cell belongs to at most one session epoch; it is reset to pending when the
/// session changes, settled at most once per epoch, and results arriving for
/// a superseded session are discarded.
pub struct CachedQuery<T> {
    /// The session the current cell belongs to; `None` before the first poll.
    epoch: Option<Session>,
    /// The cell itself.
    cell: QueryState<T>,
    /// How many fetches have been started over the cell's lifetime.
    started: Ghost<nat>,
}

impl<T> CachedQuery<T> {
    /// The session the current cell belongs to.
    pub closed spec fn spec_epoch(&self) -> Option<Session> {
        self.epoch
    }

    /// The current resolution state.
    pub closed spec fn spec_state(&self) -> QueryState<T> {
        self.cell
    }

    /// How many fetches have been started so far.
    pub closed spec fn spec_started(&self) -> nat {
        self.started@
    }

    /// Whether a poll under session `s` would start a fetch: only when the
    /// cell is not already keyed to `s`.
    pub closed spec fn polls_fetch(&self, s: Session) -> bool {
        self.epoch != Some(s)
    }

    /// A fresh query: no epoch, pending, nothing fetched yet.
    pub fn new() -> (q: Self)
        ensures
            q.spec_epoch() is None,
            q.spec_state() is Pending,
            q.spec_started() == 0,
    {
        CachedQuery { epoch: None, cell: QueryState::Pending, started: Ghost(0) }
    }

    /// One render pass's poll under session `s`. If the cell already belongs
    /// to `s`, nothing changes and no fetch starts; otherwise the cell is
    /// rekeyed to `s`, reset to pending, and exactly one fetch starts (the
    /// caller performs it and hands the outcome to `resolve`).
    pub fn poll(&mut self, s: Session) -> (fetch: bool)
        ensures
            fetch == old(self).polls_fetch(s),
            final(self).spec_epoch() == Some(s),
            !fetch ==> *final(self) == *old(self),
            fetch ==> final(self).spec_state() is Pending,
            final(self).spec_started() == old(self).spec_started() + (if fetch {
                1nat
            } else {
                0nat
            }),
    {
        let same = match &self.epoch {
            Some(k) => *k == s,
            None => false,
        };
        if same {
            false
        } else {
            self.epoch = Some(s);
            self.cell = QueryState::Pending;
            self.started = Ghost(self.started@ + 1);
            true
        }
    }

    /// Delivers a fetch outcome for session `s`. It lands only in the epoch
    /// that asked for it, and only once: if the cell belongs to another
    /// session, or already settled, the outcome is discarded unchanged.
    pub fn resolve(&mut self, s: Session, value: T)
        ensures
            final(self).spec_epoch() == old(self).spec_epoch(),
            final(self).spec_started() == old(self).spec_started(),
            old(self).spec_epoch() == Some(s) && old(self).spec_state() is Pending
                ==> final(self).spec_state() == QueryState::Resolved(value),
            !(old(self).spec_epoch() == Some(s) && old(self).spec_state() is Pending)
                ==> *final(self) == *old(self),
    {
        let here = match &self.epoch {
            Some(k) => *k == s,
            None => false,
        };
        let pending = match &self.cell {
            QueryState::Pending => true,
            QueryState::Resolved(_) => false,
        };
        if here && pending {
            self.cell = QueryState::Resolved(value);
        }
    }

    /// Reads the current resolution state.
    pub fn state(&self) -> (st: &QueryState<T>)
        ensures
            *st == self.spec_state(),
    {
        &self.cell
    }
}

/// Re-rendering under an unchanged session is idempotent: once a poll has
/// keyed the cell to session `s` — which every poll under `s` does — a further
/// poll under `s` starts no fetch and leaves the cell exactly as it was.
pub proof fn lemma_unchanged_session_no_refetch<T>(q: CachedQuery<T>, s: Session)
    requires
        q.spec_epoch() == Some(s),
    ensures
        !q.polls_fetch(s),
{
}

} // verus!
