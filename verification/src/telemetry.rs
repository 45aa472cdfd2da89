//! The normalized telemetry record.
//!
//! `BasicTelemetry` is the plain value record every backend normalizes its
//! data into: gear, speed, engine rotation speed and its maximum, and two
//! pit-related booleans.  The numeric fields carry their unit in the type
//! system (see `units`).
//!
//! The record also has a wire form: a fixed sequence of six integers, with
//! `encode` and `decode` proved to round-trip exactly.

use vstd::prelude::*;

use crate::units::{AngularVelocity, Velocity};

verus! {

/// One normalized reading of the most common telemetry data-points.
#[derive(Clone, Copy, Debug, PartialEq, Eq, Structural)]
pub struct BasicTelemetry {
    /// Selected gear: negative for reverse, `0` for neutral.
    pub gear: i8,
    pub speed: Velocity,
    pub engine_rotation_speed: AngularVelocity,
    pub max_engine_rotation_speed: AngularVelocity,
    pub pit_limiter_engaged: bool,
    pub in_pit_lane: bool,
}

impl BasicTelemetry {
    /// The wire form: gear, speed, engine speed, maximum engine speed, and
    /// the two booleans as `0`/`1`, in that order.
    pub open spec fn spec_encode(self) -> Seq<i64> {
        seq![
            self.gear as i64,
            self.speed.millimeters_per_second,
            self.engine_rotation_speed.milli_revolutions_per_minute,
            self.max_engine_rotation_speed.milli_revolutions_per_minute,
            if self.pit_limiter_engaged { 1 } else { 0 },
            if self.in_pit_lane { 1 } else { 0 },
        ]
    }

    /// Which integer sequences are a well-formed wire form.
    pub open spec fn spec_decode(s: Seq<i64>) -> Option<BasicTelemetry> {
        if s.len() == 6 && -128 <= s[0] && s[0] <= 127 && (s[4] == 0 || s[4] == 1) && (s[5] == 0
            || s[5] == 1) {
            Some(
                BasicTelemetry {
                    gear: s[0] as i8,
                    speed: Velocity { millimeters_per_second: s[1] },
                    engine_rotation_speed: AngularVelocity { milli_revolutions_per_minute: s[2] },
                    max_engine_rotation_speed: AngularVelocity {
                        milli_revolutions_per_minute: s[3],
                    },
                    pit_limiter_engaged: s[4] == 1,
                    in_pit_lane: s[5] == 1,
                },
            )
        } else {
            None
        }
    }

    pub fn encode(&self) -> (r: Vec<i64>)
        ensures
            r@ == self.spec_encode(),
    {
        let mut out: Vec<i64> = Vec::new();
        out.push(self.gear as i64);
        out.push(self.speed.millimeters_per_second);
        out.push(self.engine_rotation_speed.milli_revolutions_per_minute);
        out.push(self.max_engine_rotation_speed.milli_revolutions_per_minute);
        out.push(if self.pit_limiter_engaged { 1 } else { 0 });
        out.push(if self.in_pit_lane { 1 } else { 0 });
        proof {
            assert(out@ =~= self.spec_encode());
        }
        out
    }

    pub fn decode(fields: &Vec<i64>) -> (r: Option<BasicTelemetry>)
        ensures
            r == Self::spec_decode(fields@),
    {
        if fields.len() != 6 {
            return None;
        }
        let gear_wide: i64 = fields[0];
        if gear_wide < -128 || gear_wide > 127 {
            return None;
        }
        let pit_limiter: i64 = fields[4];
        let in_pit: i64 = fields[5];
        if (pit_limiter != 0 && pit_limiter != 1) || (in_pit != 0 && in_pit != 1) {
            return None;
        }
        Some(
            BasicTelemetry {
                gear: gear_wide as i8,
                speed: Velocity { millimeters_per_second: fields[1] },
                engine_rotation_speed: AngularVelocity {
                    milli_revolutions_per_minute: fields[2],
                },
                max_engine_rotation_speed: AngularVelocity {
                    milli_revolutions_per_minute: fields[3],
                },
                pit_limiter_engaged: pit_limiter == 1,
                in_pit_lane: in_pit == 1,
            },
        )
    }
}

impl Default for BasicTelemetry {
    /// Zero or `false` in every field.
    fn default() -> (r: BasicTelemetry)
        ensures
            r.gear == 0,
            r.speed.spec_is_zero(),
            r.engine_rotation_speed.spec_is_zero(),
            r.max_engine_rotation_speed.spec_is_zero(),
            !r.pit_limiter_engaged,
            !r.in_pit_lane,
    {
        BasicTelemetry {
            gear: 0,
            speed: Velocity::from_millimeters_per_second(0),
            engine_rotation_speed: AngularVelocity::from_milli_revolutions_per_minute(0),
            max_engine_rotation_speed: AngularVelocity::from_milli_revolutions_per_minute(0),
            pit_limiter_engaged: false,
            in_pit_lane: false,
        }
    }
}

/// Decoding an encoded record gives the record back, for every record: the
/// wire form loses nothing.
pub proof fn lemma_telemetry_round_trip(t: BasicTelemetry)
    ensures
        BasicTelemetry::spec_decode(t.spec_encode()) == Some(t),
{
    let s = t.spec_encode();
    assert(s.len() == 6);
    assert(s[0] == t.gear as i64);
    assert(-128 <= s[0] && s[0] <= 127);
    assert(BasicTelemetry::spec_decode(s) == Some(t));
}

} // verus!
