//! The normalized telemetry record round-trips through its wire form without
//! loss, and defaults to zero/false in every field.

use simetry::{AngularVelocity, BasicTelemetry, Velocity};

#[test]
fn round_trip_preserves_every_field() {
    // gear 3, 45.0 m/s, 6000 rpm out of 8000 rpm, both pit fields false.
    let t = BasicTelemetry {
        gear: 3,
        speed: Velocity::from_millimeters_per_second(45_000),
        engine_rotation_speed: AngularVelocity::from_milli_revolutions_per_minute(6_000_000),
        max_engine_rotation_speed: AngularVelocity::from_milli_revolutions_per_minute(8_000_000),
        pit_limiter_engaged: false,
        in_pit_lane: false,
    };
    let encoded = t.encode();
    let decoded = BasicTelemetry::decode(&encoded).expect("a well-formed wire record");
    assert_eq!(decoded.gear, 3);
    assert_eq!(decoded.speed.millimeters_per_second, 45_000);
    assert_eq!(decoded.engine_rotation_speed.milli_revolutions_per_minute, 6_000_000);
    assert_eq!(decoded.max_engine_rotation_speed.milli_revolutions_per_minute, 8_000_000);
    assert_eq!(decoded.pit_limiter_engaged, false);
    assert_eq!(decoded.in_pit_lane, false);
    assert_eq!(decoded, t);
}

#[test]
fn round_trip_preserves_reverse_gear_and_pit_state() {
    let t = BasicTelemetry {
        gear: -1,
        speed: Velocity::from_millimeters_per_second(-2_500),
        engine_rotation_speed: AngularVelocity::from_milli_revolutions_per_minute(900_000),
        max_engine_rotation_speed: AngularVelocity::from_milli_revolutions_per_minute(7_000_000),
        pit_limiter_engaged: true,
        in_pit_lane: true,
    };
    let decoded = BasicTelemetry::decode(&t.encode()).expect("a well-formed wire record");
    assert_eq!(decoded, t);
}

#[test]
fn encode_layout_is_the_documented_six_integers() {
    let t = BasicTelemetry {
        gear: 3,
        speed: Velocity::from_millimeters_per_second(45_000),
        engine_rotation_speed: AngularVelocity::from_milli_revolutions_per_minute(6_000_000),
        max_engine_rotation_speed: AngularVelocity::from_milli_revolutions_per_minute(8_000_000),
        pit_limiter_engaged: true,
        in_pit_lane: false,
    };
    assert_eq!(t.encode(), vec![3, 45_000, 6_000_000, 8_000_000, 1, 0]);
}

#[test]
fn decode_rejects_malformed_records() {
    // Wrong length.
    assert!(BasicTelemetry::decode(&vec![1, 2, 3]).is_none());
    // Gear out of the signed-small-integer range.
    assert!(BasicTelemetry::decode(&vec![128, 0, 0, 0, 0, 0]).is_none());
    assert!(BasicTelemetry::decode(&vec![-129, 0, 0, 0, 0, 0]).is_none());
    // Booleans that are neither 0 nor 1.
    assert!(BasicTelemetry::decode(&vec![0, 0, 0, 0, 2, 0]).is_none());
    assert!(BasicTelemetry::decode(&vec![0, 0, 0, 0, 0, -1]).is_none());
}

#[test]
fn default_telemetry_is_zero_in_every_field() {
    let t = BasicTelemetry::default();
    assert_eq!(t.gear, 0);
    assert_eq!(t.speed.millimeters_per_second, 0);
    assert_eq!(t.engine_rotation_speed.milli_revolutions_per_minute, 0);
    assert_eq!(t.max_engine_rotation_speed.milli_revolutions_per_minute, 0);
    assert_eq!(t.pit_limiter_engaged, false);
    assert_eq!(t.in_pit_lane, false);
}

#[test]
fn default_units_are_zero() {
    assert_eq!(Velocity::default().millimeters_per_second, 0);
    assert_eq!(AngularVelocity::default().milli_revolutions_per_minute, 0);
}
