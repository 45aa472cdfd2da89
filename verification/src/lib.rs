//! A uniform interface for reading live telemetry from racing simulators.
//!
//! The library defines the session and snapshot contracts that every backend
//! adapter satisfies, the normalized telemetry value record, and the
//! connection-race bookkeeping: one connection attempt per supported backend
//! runs concurrently, the first to succeed wins, and every other attempt is
//! cancelled and its resources released.

use vstd::prelude::*;

pub mod builder;
pub mod flags;
pub mod moment;
pub mod race;
pub mod retry;
pub mod session;
pub mod telemetry;
pub mod units;

pub use builder::Backend;
pub use builder::ConnectionAttempt;
pub use builder::SimetryConnectionBuilder;
pub use flags::RacingFlags;
pub use moment::GenericMoment;
pub use moment::Moment;
pub use moment::MomentData;
pub use race::AttemptState;
pub use race::Race;
pub use retry::RetryTimer;
pub use session::ScriptedSession;
pub use session::Simetry;
pub use telemetry::BasicTelemetry;
pub use units::AngularVelocity;
pub use units::Velocity;

verus! {

/// Explicitly marks each hardcoded value in the code that is not handled by
/// the specific sim.
#[inline]
pub fn unhandled<T>(value: T) -> (r: T)
    ensures
        r == value,
{
    value
}

} // verus!
