//! The connection configuration and the race's fan-out plan.

use simetry::{Backend, SimetryConnectionBuilder};

#[test]
fn default_configuration_is_the_documented_one() {
    let b = SimetryConnectionBuilder::default();
    assert_eq!(b.generic_http_uri, "http://localhost:8000/telemetry");
    assert_eq!(b.truck_simulator_uri, "http://127.0.0.1:25555/api/ets2/telemetry");
    assert_eq!(b.dirt_rally_2_uri, "127.0.0.1:20777");
    assert_eq!(b.retry_delay_ms, 5_000);
}

#[test]
fn plan_has_one_attempt_per_backend_with_its_endpoint() {
    let b = SimetryConnectionBuilder {
        generic_http_uri: String::from("http://example:1/t"),
        truck_simulator_uri: String::from("http://example:2/t"),
        dirt_rally_2_uri: String::from("example:3"),
        retry_delay_ms: 250,
    };
    let plan = b.attempts();
    assert_eq!(plan.len(), 7);

    assert_eq!(plan[0].backend, Backend::IRacing);
    assert!(plan[0].endpoint.is_none());
    assert_eq!(plan[1].backend, Backend::AssettoCorsa);
    assert!(plan[1].endpoint.is_none());
    assert_eq!(plan[2].backend, Backend::AssettoCorsaCompetizione);
    assert!(plan[2].endpoint.is_none());
    assert_eq!(plan[3].backend, Backend::RFactor2);
    assert!(plan[3].endpoint.is_none());

    assert_eq!(plan[4].backend, Backend::DirtRally2);
    assert_eq!(plan[4].endpoint.as_deref(), Some("example:3"));
    assert_eq!(plan[5].backend, Backend::GenericHttp);
    assert_eq!(plan[5].endpoint.as_deref(), Some("http://example:1/t"));
    assert_eq!(plan[6].backend, Backend::TruckSimulator);
    assert_eq!(plan[6].endpoint.as_deref(), Some("http://example:2/t"));

    for attempt in plan.iter() {
        assert_eq!(attempt.retry_delay_ms, 250);
    }
}

#[test]
fn unhandled_marks_a_value_and_returns_it() {
    assert_eq!(simetry::unhandled(42u32), 42);
    assert_eq!(simetry::unhandled(true), true);
}
