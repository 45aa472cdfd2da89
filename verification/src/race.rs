//! The connection-race bookkeeping.
//!
//! The coordinator starts one connection attempt per supported backend and
//! commits to the first one that completes: the winner keeps its transport,
//! every other attempt is cancelled on the spot and its partial resources are
//! released.  `Race` is that decision state: who is still in flight, who won,
//! who has been released.  The asynchronous plumbing that performs the
//! attempts feeds completions into `attempt_completed` and acts on its
//! verdict.

use vstd::prelude::*;

verus! {

/// The state of one backend's connection attempt within a race.
#[derive(Clone, Copy, Debug, PartialEq, Eq, Structural)]
pub enum AttemptState {
    /// Still trying to connect; holds its partial transport resources.
    Pending,
    /// Completed first: its transport is owned by the returned session.
    Won,
    /// Cancelled; all its resources have been released.
    Cancelled,
}

/// A winner-take-all race among one connection attempt per backend.
pub struct Race {
    statuses: Vec<AttemptState>,
    winner: Option<usize>,
}

impl Race {
    /// How many backends take part.
    pub closed spec fn backend_count(self) -> nat {
        self.statuses@.len()
    }

    pub closed spec fn status(self, i: int) -> AttemptState {
        self.statuses@[i]
    }

    /// True once some attempt has won.
    pub closed spec fn resolved(self) -> bool {
        self.winner is Some
    }

    pub closed spec fn is_winner(self, i: int) -> bool {
        match self.winner {
            Some(w) => w as int == i,
            None => false,
        }
    }

    /// Attempt `i` still holds resources and keeps trying.
    pub open spec fn in_flight(self, i: int) -> bool {
        self.status(i) == AttemptState::Pending
    }

    /// Attempt `i` has been cancelled and its resources released.
    pub open spec fn released(self, i: int) -> bool {
        self.status(i) == AttemptState::Cancelled
    }

    /// The race invariant: a winner, if any, is a real backend marked `Won`
    /// while every other attempt is already cancelled; without a winner, no
    /// attempt is marked `Won`.
    pub closed spec fn well_formed(self) -> bool {
        match self.winner {
            Some(w) => {
                &&& (w as int) < self.backend_count()
                &&& self.status(w as int) == AttemptState::Won
                &&& forall|j: int|
                    0 <= j < self.backend_count() && j != w as int ==> self.released(j)
            },
            None => forall|j: int|
                0 <= j < self.backend_count() ==> self.status(j) != AttemptState::Won,
        }
    }

    /// A fresh race: every backend's attempt is in flight, nobody has won.
    pub fn new(backend_count: usize) -> (r: Race)
        ensures
            r.well_formed(),
            !r.resolved(),
            r.backend_count() == backend_count,
            forall|j: int| 0 <= j < backend_count ==> r.in_flight(j),
    {
        let mut statuses: Vec<AttemptState> = Vec::new();
        let mut k: usize = 0;
        while k < backend_count
            invariant
                k <= backend_count,
                statuses@.len() == k,
                forall|j: int| 0 <= j < k ==> statuses@[j] == AttemptState::Pending,
            decreases backend_count - k,
        {
            statuses.push(AttemptState::Pending);
            k += 1;
        }
        Race { statuses, winner: None }
    }

    /// Attempt `i` has just produced a connected session.
    ///
    /// The first completion wins unconditionally: the attempt is marked as
    /// the winner and every other attempt is cancelled on the spot.  A
    /// completion that arrives after the race is already resolved is
    /// discarded and changes nothing.
    pub fn attempt_completed(&mut self, i: usize) -> (won: bool)
        requires
            old(self).well_formed(),
            i < old(self).backend_count(),
            old(self).resolved() || old(self).in_flight(i as int),
        ensures
            final(self).well_formed(),
            final(self).resolved(),
            final(self).backend_count() == old(self).backend_count(),
            won == !old(self).resolved(),
            won ==> final(self).is_winner(i as int) && forall|j: int|
                0 <= j < old(self).backend_count() && j != i as int ==> final(self).released(j),
            !won ==> *final(self) == *old(self),
    {
        match self.winner {
            Some(_) => false,
            None => {
                let n = self.statuses.len();
                proof {
                    assert forall|k: int| 0 <= k < n implies self.statuses@[k]
                        != AttemptState::Won by {
                        assert(self.status(k) != AttemptState::Won);
                    }
                }
                let mut j: usize = 0;
                while j < n
                    invariant
                        n == self.statuses@.len(),
                        i < n,
                        j <= n,
                        self.winner is None,
                        forall|k: int|
                            0 <= k < j && k != i as int ==> self.statuses@[k]
                                == AttemptState::Cancelled,
                        forall|k: int|
                            0 <= k < n ==> self.statuses@[k] != AttemptState::Won,
                    decreases n - j,
                {
                    if j != i {
                        self.statuses[j] = AttemptState::Cancelled;
                    }
                    j += 1;
                }
                self.statuses[i] = AttemptState::Won;
                self.winner = Some(i);
                true
            },
        }
    }

    /// The backend that won, or `None` while the race is unresolved.
    pub fn winning_backend(&self) -> (r: Option<usize>)
        ensures
            match r {
                Some(w) => self.is_winner(w as int),
                None => !self.resolved(),
            },
    {
        self.winner
    }

    /// The state of one backend's attempt.
    pub fn attempt_state(&self, i: usize) -> (r: AttemptState)
        requires
            i < self.backend_count(),
        ensures
            r == self.status(i as int),
    {
        self.statuses[i]
    }

    /// The caller has abandoned the race while it was still pending: every
    /// in-flight attempt is cancelled and its resources released.
    pub fn abandon(&mut self)
        requires
            old(self).well_formed(),
            !old(self).resolved(),
        ensures
            final(self).well_formed(),
            !final(self).resolved(),
            final(self).backend_count() == old(self).backend_count(),
            forall|j: int| 0 <= j < old(self).backend_count() ==> final(self).released(j),
    {
        let n = self.statuses.len();
        let mut j: usize = 0;
        while j < n
            invariant
                n == self.statuses@.len(),
                j <= n,
                self.winner is None,
                forall|k: int| 0 <= k < j ==> self.statuses@[k] == AttemptState::Cancelled,
            decreases n - j,
        {
            self.statuses[j] = AttemptState::Cancelled;
            j += 1;
        }
    }
}

/// Winner-take-all: a resolved race has committed to exactly one backend —
/// two distinct backends are never both winners — and every backend that did
/// not win has had its resources released.
pub proof fn lemma_exactly_one_winner(r: Race, i: int, j: int)
    requires
        r.well_formed(),
        r.resolved(),
        0 <= i < r.backend_count(),
        0 <= j < r.backend_count(),
        i != j,
    ensures
        !(r.is_winner(i) && r.is_winner(j)),
        r.is_winner(i) ==> r.released(j),
{
}

/// A resolved race does have a winner: the race never ends without a
/// session.
pub proof fn lemma_resolved_race_has_winner(r: Race)
    requires
        r.well_formed(),
        r.resolved(),
    ensures
        exists|i: int| 0 <= i < r.backend_count() && r.is_winner(i),
{
    match r.winner {
        Some(w) => {
            assert(0 <= (w as int) < r.backend_count() && r.is_winner(w as int));
        },
        None => {},
    }
}

/// An abandoned race leaks nothing: once every attempt is released, the race
/// holds no winner and nothing in flight, so a fresh race over the same
/// configuration starts from nothing.
pub proof fn lemma_released_race_holds_nothing(r: Race)
    requires
        r.well_formed(),
        forall|j: int| 0 <= j < r.backend_count() ==> r.released(j),
    ensures
        !r.resolved(),
        forall|j: int| 0 <= j < r.backend_count() ==> !r.in_flight(j),
{
    match r.winner {
        Some(w) => {
            assert(r.released(w as int));
        },
        None => {},
    }
    assert forall|j: int| 0 <= j < r.backend_count() implies !r.in_flight(j) by {
        assert(r.released(j));
    }
}

} // verus!
