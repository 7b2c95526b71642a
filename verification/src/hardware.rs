//! The hardware-service interface the client-sensor adapters poll through,
//! and the identified messages that travel over it.
use vstd::prelude::*;

verus! {

/// A message identified by a numeric id, exchanged with the hardware
/// service.
pub trait HardwareMessage {
    fn get_id(&self) -> u16;
}

/// A service that shuttles identified messages to and from the embedded
/// hardware.
pub trait HardwareService {
    fn queue_message(&mut self, message_id: u16);

    fn poll(&mut self);
}

/// Errors of a hardware service implementation.
#[derive(Debug, Clone, Copy, PartialEq, Eq, Structural)]
pub enum HardwareServiceError {
    /// The serial port could not be opened; the device may be disconnected.
    FailedToOpenPort,
}

/// A liveness probe message.
#[derive(Debug, Clone, Copy, PartialEq, Eq, Structural)]
pub struct HeartbeatMessage {
    pub mid: u16,
}

impl HeartbeatMessage {
    /// Create a heartbeat message; it always carries message id 1.
    pub fn new() -> (r: Self)
        ensures
            r.mid == 1,
    {
        Self { mid: 1 }
    }
}

impl HardwareMessage for HeartbeatMessage {
    fn get_id(&self) -> u16 {
        self.mid
    }
}

/// Adapter that polls client sensors through a hardware service.
pub struct PollClientSensorAdapter<'a, S: HardwareService> {
    pub service: &'a S,
}

/// Adapter that emits control events toward the hardware service.
#[derive(Debug, Clone, Copy, PartialEq, Eq, Structural)]
pub struct EmitToHardwareAdapter {}

impl<'a, S: HardwareService> PollClientSensorAdapter<'a, S> {
    /// Wrap a hardware service in a client-sensor polling adapter.
    pub fn new(service: &'a S) -> (r: Self)
        ensures
            r.service == service,
    {
        Self { service }
    }
}

} // verus!
