//! The host's core task: fuse the most recent embedded-hardware sensor
//! snapshot with the most recent host temperature sample. The fuser is
//! edge-triggered: it recomputes whenever either sample arrives, using the
//! latest of each, and emits nothing until both have arrived. The async
//! plumbing around it lives outside the library; these are its decisions.
use vstd::prelude::*;
use crate::client_sensor_data::ClientSensorData;
use crate::control_event::ControlEvent;
use crate::controls::{generate_control_frame, spec_generate_control_frame};
use crate::host_sensor_data::HostSensorData;

verus! {

/// Perform the core task's business logic: when both a client snapshot and a
/// host sample are available, generate the control frame they call for;
/// before that, stay silent.
pub fn business_logic(
    current_client_frame: Option<ClientSensorData>,
    current_host_frame: Option<HostSensorData>,
) -> (r: Option<ControlEvent>)
    requires
        current_client_frame matches Some(c) ==> c.pump_speed@.max > 0,
    ensures
        r is Some <==> current_client_frame is Some && current_host_frame is Some,
        r matches Some(e) ==> e@ == spec_generate_control_frame(
            current_client_frame.unwrap(),
            current_host_frame.unwrap(),
        ),
{
    if let Some(client) = current_client_frame {
        if let Some(host) = current_host_frame {
            Some(generate_control_frame(&client, &host))
        } else {
            None
        }
    } else {
        None
    }
}

/// The state the core task carries between events: the most recent snapshot
/// of each of its two inputs.
pub struct CoreSystemState {
    current_client_frame: Option<ClientSensorData>,
    current_host_frame: Option<HostSensorData>,
}

impl CoreSystemState {
    /// The stored client snapshot, in spec land.
    pub closed spec fn spec_client(self) -> Option<ClientSensorData> {
        self.current_client_frame
    }

    /// The stored host sample, in spec land.
    pub closed spec fn spec_host(self) -> Option<HostSensorData> {
        self.current_host_frame
    }

    /// A stored client snapshot always has a positive pump maximum, so that
    /// its speed can be read as a percentage.
    #[verifier::type_invariant]
    pub closed spec fn inv(self) -> bool {
        self.current_client_frame matches Some(c) ==> c.pump_speed@.max > 0
    }

    /// The state before any sample has arrived.
    pub fn new() -> (r: Self)
        ensures
            r.spec_client() is None,
            r.spec_host() is None,
    {
        CoreSystemState { current_client_frame: None, current_host_frame: None }
    }

    /// Receive a client sensor snapshot: store it and recompute. Emits a
    /// control frame exactly when a host sample has already arrived.
    pub fn on_client_frame(&mut self, data: ClientSensorData) -> (r: Option<ControlEvent>)
        requires
            data.pump_speed@.max > 0,
        ensures
            final(self).spec_client() == Some(data),
            final(self).spec_host() == old(self).spec_host(),
            r is Some <==> old(self).spec_host() is Some,
            r matches Some(e) ==> e@ == spec_generate_control_frame(
                data,
                old(self).spec_host().unwrap(),
            ),
    {
        proof {
            use_type_invariant(&*self);
        }
        self.current_client_frame = Some(data);
        business_logic(self.current_client_frame, self.current_host_frame)
    }

    /// Receive a host temperature sample: store it and recompute. Emits a
    /// control frame exactly when a client snapshot has already arrived.
    pub fn on_host_frame(&mut self, data: HostSensorData) -> (r: Option<ControlEvent>)
        ensures
            final(self).spec_host() == Some(data),
            final(self).spec_client() == old(self).spec_client(),
            r is Some <==> old(self).spec_client() is Some,
            r matches Some(e) ==> e@ == spec_generate_control_frame(
                old(self).spec_client().unwrap(),
                data,
            ),
    {
        proof {
            use_type_invariant(&*self);
        }
        self.current_host_frame = Some(data);
        business_logic(self.current_client_frame, self.current_host_frame)
    }
}

} // verus!
