//! The host serial session's decisions: which USB-serial endpoint belongs to
//! the controller, what to do when discovery, opening, or I/O fails, and how
//! received packets are classified. The enumeration, opening, reading and
//! writing of ports — and the async plumbing — live outside the library; app
//! code hands the library plain values and performs the actions it returns.
use vstd::prelude::*;
use crate::client_sensor_data::ClientSensorData;
use crate::control_event::ControlEvent;
use crate::packet::{Packet, PacketModel};

verus! {

/// What a serial endpoint reports about itself: its name, and its USB
/// descriptor strings when it is a USB port.
#[derive(Debug, Clone)]
pub struct PortDescriptor {
    /// The system name of the port.
    pub port_name: String,
    /// The USB descriptor strings, or nothing for a non-USB port.
    pub usb: Option<UsbPortInfo>,
}

/// The USB descriptor strings of a serial endpoint.
#[derive(Debug, Clone)]
pub struct UsbPortInfo {
    /// The serial-number string, when the descriptor carries one.
    pub serial_number: Option<String>,
    /// The product string, when the descriptor carries one.
    pub product: Option<String>,
}

/// The product string the controller's USB descriptor reports.
pub open spec fn spec_product_name() -> Seq<char> {
    "Too Hot To Prandtl Controller"@
}

/// The serial-number string the controller's USB descriptor reports.
pub open spec fn spec_serial_number() -> Seq<char> {
    "1324"@
}

/// A port belongs to the embedded hardware exactly when it is a USB port
/// whose descriptor carries the controller's serial number and product name.
pub open spec fn spec_port_matches(port: PortDescriptor) -> bool {
    &&& port.usb matches Some(info)
    &&& info.serial_number matches Some(s) && s@ == spec_serial_number()
    &&& info.product matches Some(p) && p@ == spec_product_name()
}

/// Check whether a port is the embedded hardware's: both the serial number
/// and the product name of its USB descriptor must match.
pub fn is_port_for_embedded_hardware(port: &PortDescriptor) -> (r: bool)
    ensures
        r == spec_port_matches(*port),
{
    match &port.usb {
        None => false,
        Some(usb_info) => {
            let serial_ok = match &usb_info.serial_number {
                None => false,
                Some(serial_number) => {
                    let expected = "1324".to_owned();
                    *serial_number == expected
                },
            };
            if !serial_ok {
                return false;
            }
            match &usb_info.product {
                None => false,
                Some(product_name) => {
                    let expected = "Too Hot To Prandtl Controller".to_owned();
                    *product_name == expected
                },
            }
        },
    }
}

/// Select the first enumerated port that belongs to the embedded hardware,
/// by index; none when no port matches.
pub fn find_client_port(ports: &Vec<PortDescriptor>) -> (r: Option<usize>)
    ensures
        r matches Some(i) ==> i < ports@.len() && spec_port_matches(ports@[i as int]) && forall|
            j: int,
        | 0 <= j < i ==> !spec_port_matches(ports@[j]),
        r is None ==> forall|j: int| 0 <= j < ports@.len() ==> !spec_port_matches(ports@[j]),
{
    let mut i: usize = 0;
    while i < ports.len()
        invariant
            i <= ports@.len(),
            forall|j: int| 0 <= j < i ==> !spec_port_matches(ports@[j]),
        decreases ports@.len() - i,
    {
        if is_port_for_embedded_hardware(&ports[i]) {
            return Some(i);
        }
        i = i + 1;
    }
    None
}

/// Convert a received packet into a client sensor snapshot: sensor reports
/// yield one, every other packet variant is passed over.
pub fn handle_report_sensor_packet(packet: &Packet) -> (r: Option<ClientSensorData>)
    ensures
        r is Some <==> packet@ matches PacketModel::ReportSensors { .. },
        packet@ matches PacketModel::ReportSensors { fan, pump, valve } ==> r matches Some(c)
            && c.pump_speed@ == pump && c.fan_speed@ == fan && c.valve_state == valve,
{
    match packet {
        Packet::ReportSensors(report) => {
            match ClientSensorData::try_from_packet(report) {
                Ok(data) => Some(data),
                Err(_) => None,
            }
        },
        _ => None,
    }
}

/// Where the session stands: looking for the controller's port, or streaming
/// over an open one.
#[derive(Debug, Clone, Copy, PartialEq, Eq, Structural)]
pub enum SessionPhase {
    /// No port is open; the supervisor is (re)discovering the endpoint.
    Discovering,
    /// A port is open and the worker is streaming packets.
    Connected,
}

/// What the discovery loop should do next.
#[derive(Debug, Clone, Copy, PartialEq, Eq, Structural)]
pub enum ScanAction {
    /// A matching port was found: open it.
    OpenPort,
    /// No matching port yet: sleep briefly and enumerate again.
    RetryAfterDelay,
    /// Cancellation was observed: unwind the task tree.
    Stop,
}

/// What the supervisor should do after the worker exits.
#[derive(Debug, Clone, Copy, PartialEq, Eq, Structural)]
pub enum ExitAction {
    /// Restart the worker from discovery.
    RestartDiscovery,
    /// Cancellation was observed: unwind the task tree.
    Stop,
}

/// The session manager: the state the supervisor and worker carry across
/// discovery, streaming, failure and restart. It keeps the most recent
/// control frame so that a reconnected session resumes publishing without
/// losing it.
pub struct SessionManager {
    phase: SessionPhase,
    latest_control_frame: Option<ControlEvent>,
    cancelled: bool,
}

impl SessionManager {
    /// The session phase, in spec land.
    pub closed spec fn spec_phase(self) -> SessionPhase {
        self.phase
    }

    /// The most recent control frame, in spec land.
    pub closed spec fn spec_latest(self) -> Option<ControlEvent> {
        self.latest_control_frame
    }

    /// Whether cancellation has been observed, in spec land.
    pub closed spec fn spec_cancelled(self) -> bool {
        self.cancelled
    }

    /// A fresh session manager: discovering, nothing sent yet.
    pub fn new() -> (r: Self)
        ensures
            r.spec_phase() == SessionPhase::Discovering,
            r.spec_latest() is None,
            !r.spec_cancelled(),
    {
        SessionManager {
            phase: SessionPhase::Discovering,
            latest_control_frame: None,
            cancelled: false,
        }
    }

    /// Record that cancellation was observed; every later decision stops.
    pub fn on_cancel(&mut self)
        ensures
            final(self).spec_cancelled(),
            final(self).spec_phase() == old(self).spec_phase(),
            final(self).spec_latest() == old(self).spec_latest(),
    {
        self.cancelled = true;
    }

    /// Decide what the discovery loop does with one enumeration result:
    /// stop when cancelled, open a found port, otherwise retry after the
    /// rediscovery delay.
    pub fn on_port_scan(&mut self, found: bool) -> (action: ScanAction)
        ensures
            *final(self) == *old(self),
            action == (if old(self).spec_cancelled() {
                ScanAction::Stop
            } else if found {
                ScanAction::OpenPort
            } else {
                ScanAction::RetryAfterDelay
            }),
    {
        if self.cancelled {
            ScanAction::Stop
        } else if found {
            ScanAction::OpenPort
        } else {
            ScanAction::RetryAfterDelay
        }
    }

    /// Record the outcome of opening the selected port. A successful open
    /// starts the streaming session and republishes the most recent control
    /// frame, so a restarted session does not lose it; a failed open cancels
    /// the whole task tree, as an unrecoverable startup failure.
    pub fn on_open_result(&mut self, ok: bool) -> (resume: Option<Packet>)
        ensures
            ok ==> final(self).spec_phase() == SessionPhase::Connected && !final(self).spec_cancelled() == !old(self).spec_cancelled(),
            !ok ==> final(self).spec_phase() == SessionPhase::Discovering && final(self).spec_cancelled(),
            final(self).spec_latest() == old(self).spec_latest(),
            resume is Some <==> ok && old(self).spec_latest() is Some,
            resume matches Some(p) ==> p@ == (PacketModel::ReportControlTargets {
                fan: old(self).spec_latest().unwrap().fan_activation@,
                pump: old(self).spec_latest().unwrap().pump_activation@,
                valve: old(self).spec_latest().unwrap().valve_state,
            }),
    {
        if ok {
            self.phase = SessionPhase::Connected;
            match &self.latest_control_frame {
                None => None,
                Some(frame) => match frame.to_packet() {
                    Ok(packet) => Some(packet),
                    Err(_) => None,
                },
            }
        } else {
            self.phase = SessionPhase::Discovering;
            self.cancelled = true;
            None
        }
    }

    /// Record a hard read or write failure of the open port: the worker
    /// exits, and the supervisor restarts from discovery unless cancellation
    /// was observed.
    pub fn on_io_error(&mut self) -> (action: ExitAction)
        ensures
            final(self).spec_phase() == SessionPhase::Discovering,
            final(self).spec_latest() == old(self).spec_latest(),
            final(self).spec_cancelled() == old(self).spec_cancelled(),
            action == (if old(self).spec_cancelled() {
                ExitAction::Stop
            } else {
                ExitAction::RestartDiscovery
            }),
    {
        self.phase = SessionPhase::Discovering;
        if self.cancelled {
            ExitAction::Stop
        } else {
            ExitAction::RestartDiscovery
        }
    }

    /// Record a control frame to ship to the embedded hardware: it becomes
    /// the most recent frame, and when a session is open it is rendered as a
    /// packet to publish on the outbound channel.
    pub fn on_control_frame(&mut self, frame: ControlEvent) -> (publish: Option<Packet>)
        ensures
            final(self).spec_latest() == Some(frame),
            final(self).spec_phase() == old(self).spec_phase(),
            final(self).spec_cancelled() == old(self).spec_cancelled(),
            publish is Some <==> old(self).spec_phase() == SessionPhase::Connected,
            publish matches Some(p) ==> p@ == (PacketModel::ReportControlTargets {
                fan: frame.fan_activation@,
                pump: frame.pump_activation@,
                valve: frame.valve_state,
            }),
    {
        self.latest_control_frame = Some(frame);
        match self.phase {
            SessionPhase::Connected => match frame.to_packet() {
                Ok(packet) => Some(packet),
                Err(_) => None,
            },
            SessionPhase::Discovering => None,
        }
    }
}

} // verus!
