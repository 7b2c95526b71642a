//! Verified core of a closed-loop thermal controller for a liquid-cooling
//! loop: the wire-format packet codec shared by the host and the
//! microcontroller, the physical-unit value types carried on the wire, the
//! piecewise-linear curve evaluator and control fuser on the host side, and
//! the microcontroller application core.
use vstd::prelude::*;

pub mod percentage;
pub mod rpm;
pub mod valve;
pub mod temperature;
pub mod packet;
pub mod codec;
pub mod curve;
pub mod client_sensor_data;
pub mod host_sensor_data;
pub mod host_sensors;
pub mod control_event;
pub mod controls;
pub mod system;
pub mod application;
pub mod session;
pub mod models;
pub mod ports;
pub mod hardware;
pub mod event_logging;
pub mod reporting_tool;

verus! {

/// Sum of two machine words; the caller guarantees the sum fits.
pub fn add(left: usize, right: usize) -> (r: usize)
    requires
        left + right <= usize::MAX,
    ensures
        r == left + right,
{
    left + right
}

} // verus!
