//! Connection configuration and the race's fan-out plan.
//!
//! `SimetryConnectionBuilder` holds the per-backend endpoint addresses and the
//! one shared retry interval.  It is created once (or defaulted), never
//! mutated, and consumed by the connection race: `attempts` turns it into the
//! plan of one connection attempt per supported backend.

use vstd::prelude::*;
use vstd::string::StringExecFns;

verus! {

/// The retry interval used when none is configured, in milliseconds.
pub const DEFAULT_RETRY_DELAY_MS: u64 = 5000;

/// The closed set of supported simulator backends.
#[derive(Clone, Copy, Debug, PartialEq, Eq, Structural)]
pub enum Backend {
    IRacing,
    AssettoCorsa,
    AssettoCorsaCompetizione,
    RFactor2,
    DirtRally2,
    GenericHttp,
    TruckSimulator,
}

/// One backend's entry in the race: which backend to try, the endpoint to
/// reach it at where it is network-reachable, and the shared retry interval
/// the attempt waits between its internal retries.
pub struct ConnectionAttempt {
    pub backend: Backend,
    pub endpoint: Option<String>,
    pub retry_delay_ms: u64,
}

/// Per-backend connection configuration: endpoint addresses for the
/// network-reachable backends and one shared retry interval.
pub struct SimetryConnectionBuilder {
    pub generic_http_uri: String,
    pub truck_simulator_uri: String,
    pub dirt_rally_2_uri: String,
    pub retry_delay_ms: u64,
}

impl Default for SimetryConnectionBuilder {
    /// The documented out-of-the-box configuration: one local default
    /// endpoint per network-reachable backend and a five-second retry
    /// interval.
    fn default() -> (r: SimetryConnectionBuilder)
        ensures
            r.generic_http_uri@ == "http://localhost:8000/telemetry"@,
            r.truck_simulator_uri@ == "http://127.0.0.1:25555/api/ets2/telemetry"@,
            r.dirt_rally_2_uri@ == "127.0.0.1:20777"@,
            r.retry_delay_ms == DEFAULT_RETRY_DELAY_MS,
    {
        SimetryConnectionBuilder {
            generic_http_uri: String::from_str("http://localhost:8000/telemetry"),
            truck_simulator_uri: String::from_str("http://127.0.0.1:25555/api/ets2/telemetry"),
            dirt_rally_2_uri: String::from_str("127.0.0.1:20777"),
            retry_delay_ms: DEFAULT_RETRY_DELAY_MS,
        }
    }
}

impl SimetryConnectionBuilder {
    /// The fan-out plan of the connection race: exactly one attempt per
    /// supported backend, each network-reachable backend carrying its
    /// configured endpoint and every attempt sharing the one retry interval.
    /// The order is fixed but carries no priority — the race is decided by
    /// real-time completion alone.
    pub fn attempts(self) -> (r: Vec<ConnectionAttempt>)
        ensures
            r@.len() == 7,
            r@[0].backend == Backend::IRacing && r@[0].endpoint is None,
            r@[1].backend == Backend::AssettoCorsa && r@[1].endpoint is None,
            r@[2].backend == Backend::AssettoCorsaCompetizione && r@[2].endpoint is None,
            r@[3].backend == Backend::RFactor2 && r@[3].endpoint is None,
            r@[4].backend == Backend::DirtRally2 && (match r@[4].endpoint {
                Some(uri) => uri@ == self.dirt_rally_2_uri@,
                None => false,
            }),
            r@[5].backend == Backend::GenericHttp && (match r@[5].endpoint {
                Some(uri) => uri@ == self.generic_http_uri@,
                None => false,
            }),
            r@[6].backend == Backend::TruckSimulator && (match r@[6].endpoint {
                Some(uri) => uri@ == self.truck_simulator_uri@,
                None => false,
            }),
            forall|k: int| 0 <= k < 7 ==> r@[k].retry_delay_ms == self.retry_delay_ms,
    {
        let SimetryConnectionBuilder {
            generic_http_uri,
            truck_simulator_uri,
            dirt_rally_2_uri,
            retry_delay_ms,
        } = self;
        let mut plan: Vec<ConnectionAttempt> = Vec::new();
        plan.push(
            ConnectionAttempt { backend: Backend::IRacing, endpoint: None, retry_delay_ms },
        );
        plan.push(
            ConnectionAttempt { backend: Backend::AssettoCorsa, endpoint: None, retry_delay_ms },
        );
        plan.push(
            ConnectionAttempt {
                backend: Backend::AssettoCorsaCompetizione,
                endpoint: None,
                retry_delay_ms,
            },
        );
        plan.push(
            ConnectionAttempt { backend: Backend::RFactor2, endpoint: None, retry_delay_ms },
        );
        plan.push(
            ConnectionAttempt {
                backend: Backend::DirtRally2,
                endpoint: Some(dirt_rally_2_uri),
                retry_delay_ms,
            },
        );
        plan.push(
            ConnectionAttempt {
                backend: Backend::GenericHttp,
                endpoint: Some(generic_http_uri),
                retry_delay_ms,
            },
        );
        plan.push(
            ConnectionAttempt {
                backend: Backend::TruckSimulator,
                endpoint: Some(truck_simulator_uri),
                retry_delay_ms,
            },
        );
        plan
    }
}

} // verus!
