//! Unit-typed physical quantities.
//!
//! Every physical magnitude the library carries is wrapped in a dedicated
//! type, so that confusing a speed with an engine rotation speed is a type
//! error rather than a runtime bug.  Magnitudes are exact integer counts of a
//! fixed small unit (a thousandth of the customary unit), which keeps the
//! values precise and the reasoning about them simple.

use vstd::prelude::*;

verus! {

/// A linear speed, stored as an exact count of millimetres per second.
///
/// `45.0 m/s` is represented as `45_000`.
#[derive(Clone, Copy, Debug, PartialEq, Eq, Structural)]
pub struct Velocity {
    pub millimeters_per_second: i64,
}

impl Velocity {
    pub fn from_millimeters_per_second(value: i64) -> (r: Velocity)
        ensures
            r.millimeters_per_second == value,
    {
        Velocity { millimeters_per_second: value }
    }

    pub open spec fn spec_is_zero(self) -> bool {
        self.millimeters_per_second == 0
    }
}

impl Default for Velocity {
    /// The zero speed.
    fn default() -> (r: Velocity)
        ensures
            r.spec_is_zero(),
    {
        Velocity { millimeters_per_second: 0 }
    }
}

/// A rotation speed, stored as an exact count of thousandths of a revolution
/// per minute.
///
/// `6000 rpm` is represented as `6_000_000`.
#[derive(Clone, Copy, Debug, PartialEq, Eq, Structural)]
pub struct AngularVelocity {
    pub milli_revolutions_per_minute: i64,
}

impl AngularVelocity {
    pub fn from_milli_revolutions_per_minute(value: i64) -> (r: AngularVelocity)
        ensures
            r.milli_revolutions_per_minute == value,
    {
        AngularVelocity { milli_revolutions_per_minute: value }
    }

    pub open spec fn spec_is_zero(self) -> bool {
        self.milli_revolutions_per_minute == 0
    }
}

impl Default for AngularVelocity {
    /// The zero rotation speed.
    fn default() -> (r: AngularVelocity)
        ensures
            r.spec_is_zero(),
    {
        AngularVelocity { milli_revolutions_per_minute: 0 }
    }
}

} // verus!
