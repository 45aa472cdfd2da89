//! The session contract.
//!
//! A session is one established connection to a simulator: it has a stable
//! name and yields a non-restartable sequence of snapshots, one per tick.
//! The terminal absent value signals that the connection is permanently done;
//! it is a normal end-of-sequence, not an error, and it is idempotent — once
//! a session has reported the end, it keeps reporting it.

use vstd::prelude::*;

use crate::moment::{GenericMoment, Moment, MomentData};

verus! {

/// Sim that we can connect to via the connection race.
///
/// `upcoming()` is the sequence of snapshots the session will still yield, in
/// order; it is finite in the model, and empty exactly when the connection is
/// done.
pub trait Simetry {
    type M: Moment;

    spec fn spec_name(&self) -> Seq<char>;

    spec fn upcoming(&self) -> Seq<MomentData>;

    /// Name of the sim we are connected to, stable for the session's
    /// lifetime.
    fn name(&self) -> (r: &str)
        ensures
            r@ == self.spec_name(),
    ;

    /// Waits for the next reading of data from the sim and returns it.
    ///
    /// A `None` value means that the connection is done, similar to an
    /// iterator; snapshots come in the exact order they arrive, and once the
    /// sequence has ended every further call returns `None` again.
    fn next_moment(&mut self) -> (r: Option<Self::M>)
        ensures
            final(self).spec_name() == old(self).spec_name(),
            old(self).upcoming().len() == 0 ==> r is None && final(self).upcoming().len() == 0,
            old(self).upcoming().len() > 0 ==> (match r {
                Some(m) => m.snapshot() == old(self).upcoming()[0] && final(self).upcoming()
                    == old(self).upcoming().drop_first(),
                None => false,
            }),
    ;
}

/// A session over a fixed, already-normalized script of snapshots: it yields
/// them in order and then reports the end of the connection.  This is the
/// reference implementer of the session contract and the shape a backend
/// takes once its transport has been read.
pub struct ScriptedSession {
    name: String,
    script: Vec<GenericMoment>,
}

impl ScriptedSession {
    pub fn new(name: String, script: Vec<GenericMoment>) -> (r: ScriptedSession)
        ensures
            r.spec_name() == name@,
            r.upcoming() == script@.map_values(|m: GenericMoment| m.resolved()),
    {
        ScriptedSession { name, script }
    }
}

impl Simetry for ScriptedSession {
    type M = GenericMoment;

    closed spec fn spec_name(&self) -> Seq<char> {
        self.name@
    }

    closed spec fn upcoming(&self) -> Seq<MomentData> {
        self.script@.map_values(|m: GenericMoment| m.resolved())
    }

    fn name(&self) -> (r: &str) {
        self.name.as_str()
    }

    fn next_moment(&mut self) -> (r: Option<GenericMoment>) {
        if self.script.len() == 0 {
            None
        } else {
            let m = self.script.remove(0);
            proof {
                assert(self.script@ == old(self).script@.drop_first());
                assert(self.upcoming() =~~= old(self).upcoming().drop_first());
            }
            Some(m)
        }
    }
}

} // verus!
