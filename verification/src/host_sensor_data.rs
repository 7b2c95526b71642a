//! The host's view of its own most recent CPU temperature sample.
use vstd::prelude::*;
use crate::temperature::Temperature;

verus! {

/// A snapshot of the sensors visible to the host itself.
#[derive(Debug, Clone, Copy, PartialEq, Eq)]
pub struct HostSensorData {
    pub cpu_temperature: Temperature,
}

} // verus!
