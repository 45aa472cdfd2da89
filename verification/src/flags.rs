//! The race-control flag set.
//!
//! A snapshot reports which race-control flags are currently being waved.
//! The neutral value — no flag active — is the documented default whenever a
//! simulator does not expose flag data.

use vstd::prelude::*;

verus! {

/// The set of race-control flags active at one instant.
#[derive(Clone, Copy, Debug, PartialEq, Eq, Structural)]
pub struct RacingFlags {
    pub green: bool,
    pub yellow: bool,
    pub blue: bool,
    pub white: bool,
    pub red: bool,
    pub black: bool,
    pub checkered: bool,
}

impl RacingFlags {
    /// True when no flag at all is being waved.
    pub open spec fn spec_is_empty(self) -> bool {
        &&& !self.green
        &&& !self.yellow
        &&& !self.blue
        &&& !self.white
        &&& !self.red
        &&& !self.black
        &&& !self.checkered
    }

    /// The flag set with no flag active, as a mathematical value.
    pub open spec fn spec_empty() -> RacingFlags {
        RacingFlags {
            green: false,
            yellow: false,
            blue: false,
            white: false,
            red: false,
            black: false,
            checkered: false,
        }
    }

    /// The flag set with no flag active.
    pub fn empty() -> (r: RacingFlags)
        ensures
            r == RacingFlags::spec_empty(),
            r.spec_is_empty(),
    {
        RacingFlags {
            green: false,
            yellow: false,
            blue: false,
            white: false,
            red: false,
            black: false,
            checkered: false,
        }
    }

    pub fn is_empty(&self) -> (r: bool)
        ensures
            r == self.spec_is_empty(),
    {
        !self.green && !self.yellow && !self.blue && !self.white && !self.red && !self.black
            && !self.checkered
    }
}

impl Default for RacingFlags {
    /// No flags active: the safe neutral state.
    fn default() -> (r: RacingFlags)
        ensures
            r == RacingFlags::spec_empty(),
            r.spec_is_empty(),
    {
        RacingFlags::empty()
    }
}

} // verus!
