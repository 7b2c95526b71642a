//! The host-sensor service port: the interface through which the host's own
//! CPU temperature is read, and the adapter that turns a reading into a
//! sensor sample. The operating-system probe implements the service outside
//! the library.
use vstd::prelude::*;
use crate::host_sensor_data::HostSensorData;
use crate::temperature::{Temperature, TemperatureError};

verus! {

/// Errors in reading the host CPU temperature.
#[derive(Debug, Clone, Copy, PartialEq, Eq)]
pub enum CpuTemperatureServiceError {
    /// The platform probe failed to report a temperature.
    FailedToRead,
    /// The raw reading did not form a valid temperature.
    FailedToParse(TemperatureError),
}

/// Separates reading the CPU temperature from the business logic, so the
/// system can be exercised without the platform probe.
pub trait HostCpuTemperatureService {
    /// Attempt to read the current CPU temperature.
    fn get_cpu_temp(&self) -> Result<Temperature, CpuTemperatureServiceError>;
}

/// Adapter that polls a temperature service into host sensor samples.
pub struct HostSensorAdapter<'a, S: HostCpuTemperatureService> {
    pub service: &'a S,
}

impl<'a, S: HostCpuTemperatureService> HostSensorAdapter<'a, S> {
    /// Wrap a temperature service in a host-sensor polling adapter.
    pub fn new(service: &'a S) -> (r: Self)
        ensures
            r.service == service,
    {
        Self { service }
    }

    /// Poll the service once; a reading becomes a host sensor sample and a
    /// failure is passed through.
    pub fn poll_host_sensors(&self) -> (r: Result<HostSensorData, CpuTemperatureServiceError>) {
        match self.service.get_cpu_temp() {
            Ok(cpu_temperature) => Ok(HostSensorData { cpu_temperature }),
            Err(e) => Err(e),
        }
    }
}

} // verus!
