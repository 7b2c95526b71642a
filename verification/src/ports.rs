//! The ports of the core system: the interfaces through which it polls its
//! sensors and emits control events. Adapters elsewhere implement them
//! against the real peripherals and channels.
use vstd::prelude::*;
use crate::client_sensor_data::ClientSensorData;
use crate::control_event::ControlEvent;
use crate::host_sensor_data::HostSensorData;

verus! {

/// Source of the most recent embedded-hardware sensor snapshot.
pub trait ClientSensorPort {
    fn poll_client_sensors(&self) -> ClientSensorData;
}

/// Source of the most recent host sensor sample.
pub trait HostSensorPort {
    fn poll_host_sensors(&self) -> HostSensorData;
}

/// Sink for the control events the core system emits.
pub trait ControlEventPort {
    fn emit(&self, event: ControlEvent);
}

/// Source of tuning adjustments for the control curves.
pub trait TuningPort {
    fn poll_tuning(&self);
}

} // verus!
