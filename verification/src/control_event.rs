//! The control frame the host issues: the actuations and the valve command
//! that the embedded hardware should apply.
use vstd::prelude::*;
use crate::packet::{Packet, PacketModel, ReportControlTargetsPacket};
use crate::percentage::Percentage;
use crate::valve::ValveState;

verus! {

/// A control frame: fan and pump actuation percentages and a commanded valve
/// state.
#[derive(Debug, Clone, Copy, PartialEq, Eq)]
pub struct ControlEvent {
    pub fan_activation: Percentage,
    pub pump_activation: Percentage,
    pub valve_state: ValveState,
}

/// The mathematical value of a control frame.
pub struct ControlEventModel {
    pub fan: int,
    pub pump: int,
    pub valve: ValveState,
}

impl View for ControlEvent {
    type V = ControlEventModel;

    open spec fn view(&self) -> ControlEventModel {
        ControlEventModel {
            fan: self.fan_activation@,
            pump: self.pump_activation@,
            valve: self.valve_state,
        }
    }
}

/// Errors in converting a control frame into a packet.
#[derive(Debug, Clone, Copy, PartialEq, Eq, Structural)]
pub enum ControlEventError {
    /// A field lay outside its valid range.
    InvalidRange,
}

impl ControlEvent {
    /// Render a control frame as the packet that ships it to the embedded
    /// hardware. Every control frame converts; the error is reserved for
    /// future validation.
    pub fn to_packet(&self) -> (r: Result<Packet, ControlEventError>)
        ensures
            r matches Ok(p) && p@ == (PacketModel::ReportControlTargets {
                fan: self.fan_activation@,
                pump: self.pump_activation@,
                valve: self.valve_state,
            }),
    {
        Ok(
            Packet::ReportControlTargets(
                ReportControlTargetsPacket {
                    fan_control_percent: self.fan_activation,
                    pump_control_percent: self.pump_activation,
                    valve_control_state: self.valve_state,
                },
            ),
        )
    }
}

} // verus!
