//! The host's view of the most recent sensor snapshot reported by the
//! embedded hardware.
use vstd::prelude::*;
use crate::packet::ReportSensorsPacket;
use crate::rpm::Rpm;
use crate::valve::ValveState;

verus! {

/// A snapshot of the sensors visible to the embedded hardware.
#[derive(Debug, Clone, Copy, PartialEq, Eq)]
pub struct ClientSensorData {
    pub pump_speed: Rpm,
    pub fan_speed: Rpm,
    pub valve_state: ValveState,
}

/// Errors in converting a sensor report into `ClientSensorData`.
#[derive(Debug, Clone, Copy, PartialEq, Eq, Structural)]
pub enum ClientSensorDataError {
    /// Generic catch-all error.
    Invalid,
}

impl ClientSensorData {
    /// Convert a sensor report packet into a sensor snapshot. Every report
    /// converts; the error is reserved for future validation.
    pub fn try_from_packet(value: &ReportSensorsPacket) -> (r: Result<
        Self,
        ClientSensorDataError,
    >)
        ensures
            r matches Ok(c) && c.pump_speed == value.pump_speed_rpm && c.fan_speed
                == value.fan_speed_rpm && c.valve_state == value.valve_state,
    {
        Ok(ClientSensorData {
            pump_speed: value.pump_speed_rpm,
            fan_speed: value.fan_speed_rpm,
            valve_state: value.valve_state,
        })
    }
}

} // verus!
