//! The state of the bypass valve. The valve takes multiple seconds to change
//! state, so the transient `Opening` and `Closing` states let the control
//! system avoid rapidly reversing a change that has not finished settling.
use vstd::prelude::*;

verus! {

/// The state of the bypass valve, as sensed or as commanded.
#[derive(Debug, Clone, Copy, PartialEq, Eq, Structural)]
pub enum ValveState {
    /// Valve is fully open.
    Open,
    /// Valve is fully closed.
    Closed,
    /// Valve is opening but not fully open.
    Opening,
    /// Valve is closing but not fully closed.
    Closing,
    /// Valve is in an unknown state, such as an invalid combination of
    /// high/low on the two sense pins.
    Unknown,
}

/// The valve state that a pair of sense-pin levels `(open_hi, close_hi)`
/// denotes: `Open` for `(true, false)`, `Closed` for `(false, true)`, and
/// `Unknown` for every other combination.
pub open spec fn valve_state_of_pins(value: (bool, bool)) -> ValveState {
    if value == (true, false) {
        ValveState::Open
    } else if value == (false, true) {
        ValveState::Closed
    } else {
        ValveState::Unknown
    }
}

impl From<(bool, bool)> for ValveState {
    /// Derive a valve state from the two sense-pin levels
    /// `(open_hi, close_hi)`.
    fn from(value: (bool, bool)) -> (r: Self) {
        if value.0 && !value.1 {
            Self::Open
        } else if !value.0 && value.1 {
            Self::Closed
        } else {
            Self::Unknown
        }
    }
}

impl vstd::std_specs::convert::FromSpecImpl<(bool, bool)> for ValveState {
    open spec fn obeys_from_spec() -> bool {
        true
    }

    open spec fn from_spec(value: (bool, bool)) -> Self {
        valve_state_of_pins(value)
    }
}

impl ValveState {
    /// The pin drive levels `(open, close)` that command this state, with the
    /// transient states collapsed onto their targets. An unknown state
    /// fail-safes to open, diverting coolant through the loop.
    pub open spec fn spec_pins(self) -> (bool, bool) {
        match self {
            ValveState::Open | ValveState::Opening => (true, false),
            ValveState::Closed | ValveState::Closing => (false, true),
            ValveState::Unknown => (true, false),
        }
    }

    /// The settled state this value collapses to when written back to
    /// hardware: `Opening` to `Open`, `Closing` to `Closed`, and `Unknown`
    /// fail-safe to `Open`.
    pub open spec fn spec_collapsed(self) -> ValveState {
        match self {
            ValveState::Open | ValveState::Opening => ValveState::Open,
            ValveState::Closed | ValveState::Closing => ValveState::Closed,
            ValveState::Unknown => ValveState::Open,
        }
    }

    /// The pin drive levels `(open, close)` that command this state.
    pub fn into_pins(self) -> (r: (bool, bool))
        ensures
            r == self.spec_pins(),
    {
        match self {
            ValveState::Open | ValveState::Opening => (true, false),
            ValveState::Closed | ValveState::Closing => (false, true),
            ValveState::Unknown => (true, false),
        }
    }

    /// Collapse a commanded state to the settled state it drives toward.
    pub fn collapsed(self) -> (r: ValveState)
        ensures
            r == self.spec_collapsed(),
    {
        match self {
            ValveState::Open | ValveState::Opening => ValveState::Open,
            ValveState::Closed | ValveState::Closing => ValveState::Closed,
            ValveState::Unknown => ValveState::Open,
        }
    }
}

} // verus!
