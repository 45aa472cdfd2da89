//! A snapshot whose simulator supports none of the optional queries answers
//! every query with exactly its documented default.

use simetry::{GenericMoment, Moment};

#[test]
fn unsupported_moment_vehicle_left_defaults_to_false() {
    let m = GenericMoment::unsupported();
    assert_eq!(m.vehicle_left(), false);
}

#[test]
fn unsupported_moment_vehicle_right_defaults_to_false() {
    let m = GenericMoment::unsupported();
    assert_eq!(m.vehicle_right(), false);
}

#[test]
fn unsupported_moment_basic_telemetry_is_absent() {
    let m = GenericMoment::unsupported();
    assert!(m.basic_telemetry().is_none());
}

#[test]
fn unsupported_moment_shift_point_is_absent() {
    let m = GenericMoment::unsupported();
    assert!(m.shift_point().is_none());
}

#[test]
fn unsupported_moment_flags_are_empty() {
    let m = GenericMoment::unsupported();
    let flags = m.flags();
    assert!(flags.is_empty());
    assert!(!flags.green);
    assert!(!flags.yellow);
    assert!(!flags.blue);
    assert!(!flags.white);
    assert!(!flags.red);
    assert!(!flags.black);
    assert!(!flags.checkered);
}

#[test]
fn unsupported_moment_vehicle_unique_id_is_absent() {
    let m = GenericMoment::unsupported();
    assert!(m.vehicle_unique_id().is_none());
}

#[test]
fn unsupported_moment_ignition_defaults_to_on() {
    let m = GenericMoment::unsupported();
    assert_eq!(m.ignition_on(), true);
}

#[test]
fn unsupported_moment_starter_defaults_to_off() {
    let m = GenericMoment::unsupported();
    assert_eq!(m.starter_on(), false);
}

#[test]
fn supplied_values_are_passed_through() {
    let mut m = GenericMoment::unsupported();
    m.vehicle_left = Some(true);
    m.ignition_on = Some(false);
    m.starter_on = Some(true);
    m.vehicle_unique_id = Some(String::from("gt3_demo_car"));
    assert_eq!(m.vehicle_left(), true);
    assert_eq!(m.ignition_on(), false);
    assert_eq!(m.starter_on(), true);
    assert_eq!(m.vehicle_unique_id().as_deref(), Some("gt3_demo_car"));
}
