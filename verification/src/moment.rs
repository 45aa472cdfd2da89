//! The snapshot contract and its degradation policy.
//!
//! A `Moment` is one instant of telemetry, queried through a fixed menu of
//! capabilities.  Not every simulator supplies every datum, so each query has
//! a documented default that must be returned when the datum is unsupported:
//! boolean physical states default to their normal-driving value (ignition
//! on, starter off, no adjacent vehicle, no flags), while data-bearing
//! queries (telemetry, shift point, vehicle identifier) default to an
//! explicit absent value, never to a fabricated zero.
//!
//! `GenericMoment` is the canonical implementer: it records, per query, what
//! the simulator supplied — absent where unsupported — and resolves every
//! query through the one default policy.

use vstd::prelude::*;
use vstd::string::StringExecFns;

use crate::flags::RacingFlags;
use crate::telemetry::BasicTelemetry;
use crate::units::AngularVelocity;

verus! {

/// The resolved answers of one snapshot, as a mathematical value.
pub struct MomentData {
    pub vehicle_left: bool,
    pub vehicle_right: bool,
    pub basic_telemetry: Option<BasicTelemetry>,
    pub shift_point: Option<AngularVelocity>,
    pub flags: RacingFlags,
    pub vehicle_unique_id: Option<Seq<char>>,
    pub ignition_on: bool,
    pub starter_on: bool,
}

impl MomentData {
    /// The documented default for every query at once: what a snapshot
    /// answers when the simulator supports none of the optional queries.
    pub open spec fn unsupported() -> MomentData {
        MomentData {
            vehicle_left: false,
            vehicle_right: false,
            basic_telemetry: None,
            shift_point: None,
            flags: RacingFlags::spec_empty(),
            vehicle_unique_id: None,
            ignition_on: true,
            starter_on: false,
        }
    }
}

/// Generic support for any sim by providing processed data for the most
/// common data-points.
///
/// If a sim does not support certain data, a suitable default value is used;
/// the documentation of every method explains why certain defaults are
/// chosen.  `snapshot()` is the resolved answer set every query is specified
/// against.
pub trait Moment {
    spec fn snapshot(&self) -> MomentData;

    /// Check if there is a vehicle to the left of the driver.
    ///
    /// If not supported by the sim, always returns `false`: absence of
    /// adjacency data implies no blind-spot hazard is assumed.
    fn vehicle_left(&self) -> (r: bool)
        ensures
            r == self.snapshot().vehicle_left,
    ;

    /// Check if there is a vehicle to the right of the driver.
    ///
    /// If not supported by the sim, always returns `false`.
    fn vehicle_right(&self) -> (r: bool)
        ensures
            r == self.snapshot().vehicle_right,
    ;

    /// The normalized telemetry record, or `None` when the sim supplies no
    /// telemetry at all: entirely-unsupported telemetry is absent, not
    /// zeroed.
    fn basic_telemetry(&self) -> (r: Option<BasicTelemetry>)
        ensures
            r == self.snapshot().basic_telemetry,
    ;

    /// The rotation speed at which to shift up, or `None` when unknown: an
    /// unknown optimum shift point must not be faked as zero.
    fn shift_point(&self) -> (r: Option<AngularVelocity>)
        ensures
            r == self.snapshot().shift_point,
    ;

    /// The race-control flags currently waved; the empty set when the sim
    /// does not model flags, since no active flags is a safe neutral state.
    fn flags(&self) -> (r: RacingFlags)
        ensures
            r == self.snapshot().flags,
    ;

    /// ID that uniquely identifies the current vehicle make and model, or
    /// `None` when the sim cannot tell: an unknown identity must not be
    /// defaulted to an empty string.
    fn vehicle_unique_id(&self) -> (r: Option<String>)
        ensures
            match r {
                Some(id) => self.snapshot().vehicle_unique_id == Some(id@),
                None => self.snapshot().vehicle_unique_id is None,
            },
    ;

    /// Check if the ignition is on.
    ///
    /// If not supported by the sim, always returns `true`: most simulators
    /// without ignition modeling behave as if the engine is always running.
    fn ignition_on(&self) -> (r: bool)
        ensures
            r == self.snapshot().ignition_on,
    ;

    /// Check if the starter motor is engaged.
    ///
    /// If not supported by the sim, always returns `false`: absence of
    /// starter modeling implies never starting.
    fn starter_on(&self) -> (r: bool)
        ensures
            r == self.snapshot().starter_on,
    ;
}

/// A snapshot that records, per query, what the simulator supplied: `None`
/// where the query is unsupported.  Its `Moment` implementation resolves
/// every query through the documented default policy.
pub struct GenericMoment {
    pub vehicle_left: Option<bool>,
    pub vehicle_right: Option<bool>,
    pub basic_telemetry: Option<BasicTelemetry>,
    pub shift_point: Option<AngularVelocity>,
    pub flags: Option<RacingFlags>,
    pub vehicle_unique_id: Option<String>,
    pub ignition_on: Option<bool>,
    pub starter_on: Option<bool>,
}

impl GenericMoment {
    /// True when the simulator supplied none of the optional queries.
    pub open spec fn supplies_nothing(self) -> bool {
        &&& self.vehicle_left is None
        &&& self.vehicle_right is None
        &&& self.basic_telemetry is None
        &&& self.shift_point is None
        &&& self.flags is None
        &&& self.vehicle_unique_id is None
        &&& self.ignition_on is None
        &&& self.starter_on is None
    }

    /// The default policy, applied to every query at once.
    pub open spec fn resolved(self) -> MomentData {
        MomentData {
            vehicle_left: match self.vehicle_left {
                Some(b) => b,
                None => false,
            },
            vehicle_right: match self.vehicle_right {
                Some(b) => b,
                None => false,
            },
            basic_telemetry: self.basic_telemetry,
            shift_point: self.shift_point,
            flags: match self.flags {
                Some(f) => f,
                None => RacingFlags::spec_empty(),
            },
            vehicle_unique_id: match self.vehicle_unique_id {
                Some(id) => Some(id@),
                None => None,
            },
            ignition_on: match self.ignition_on {
                Some(b) => b,
                None => true,
            },
            starter_on: match self.starter_on {
                Some(b) => b,
                None => false,
            },
        }
    }

    /// A snapshot from a simulator that supports none of the optional
    /// queries.
    pub fn unsupported() -> (r: GenericMoment)
        ensures
            r.supplies_nothing(),
            r.resolved() == MomentData::unsupported(),
    {
        GenericMoment {
            vehicle_left: None,
            vehicle_right: None,
            basic_telemetry: None,
            shift_point: None,
            flags: None,
            vehicle_unique_id: None,
            ignition_on: None,
            starter_on: None,
        }
    }
}

impl Moment for GenericMoment {
    open spec fn snapshot(&self) -> MomentData {
        self.resolved()
    }

    fn vehicle_left(&self) -> (r: bool) {
        match self.vehicle_left {
            Some(b) => b,
            None => false,
        }
    }

    fn vehicle_right(&self) -> (r: bool) {
        match self.vehicle_right {
            Some(b) => b,
            None => false,
        }
    }

    fn basic_telemetry(&self) -> (r: Option<BasicTelemetry>) {
        self.basic_telemetry
    }

    fn shift_point(&self) -> (r: Option<AngularVelocity>) {
        self.shift_point
    }

    fn flags(&self) -> (r: RacingFlags) {
        match self.flags {
            Some(f) => f,
            None => RacingFlags::empty(),
        }
    }

    fn vehicle_unique_id(&self) -> (r: Option<String>) {
        match &self.vehicle_unique_id {
            Some(id) => Some(String::from_str(id.as_str())),
            None => None,
        }
    }

    fn ignition_on(&self) -> (r: bool) {
        match self.ignition_on {
            Some(b) => b,
            None => true,
        }
    }

    fn starter_on(&self) -> (r: bool) {
        match self.starter_on {
            Some(b) => b,
            None => false,
        }
    }
}

/// The degradation policy in one statement: a snapshot whose simulator
/// supplies none of the optional queries answers every query with exactly its
/// documented default — no adjacent vehicles, absent telemetry, absent shift
/// point, no flags, absent identifier, ignition on, starter off.
pub proof fn lemma_unsupported_queries_default(m: GenericMoment)
    requires
        m.supplies_nothing(),
    ensures
        m.resolved() == MomentData::unsupported(),
{
}

} // verus!
