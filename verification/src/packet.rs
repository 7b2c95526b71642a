//! The packets exchanged between the host and the embedded hardware, as a
//! tagged sum of five variants. The wire format lives in `codec`.
use vstd::prelude::*;
use crate::percentage::{Percentage, PERCENT_EIGHTHS_MAX};
use crate::rpm::Rpm;
use crate::valve::ValveState;

verus! {

/// Greatest number of bytes a log line may carry.
pub const LOG_LINE_MAX_BYTES: usize = 8;

/// Used to communicate with the embedded hardware.
#[derive(Debug, PartialEq, Eq)]
pub enum Packet {
    RequestConnection(RequestConnectionPacket),
    AcceptConnection(AcceptConnectionPacket),
    ReportSensors(ReportSensorsPacket),
    ReportControlTargets(ReportControlTargetsPacket),
    ReportLogLine(ReportLogLinePacket),
}

/// A request to establish a connection. Used to determine which port the
/// embedded hardware is plugged into. Its body on the wire is the fixed
/// eight-byte connection magic.
#[derive(Debug, Clone, PartialEq, Eq, Structural)]
pub struct RequestConnectionPacket {}

/// A response from the embedded hardware to a connection request. Its body
/// on the wire is the same fixed eight-byte connection magic.
#[derive(Debug, Clone, PartialEq, Eq, Structural)]
pub struct AcceptConnectionPacket {}

/// A snapshot of sensor data from the embedded hardware, to be processed
/// into an input of the control system.
#[derive(Debug, Clone, Copy, PartialEq, Eq)]
pub struct ReportSensorsPacket {
    /// The fan's measured speed.
    pub fan_speed_rpm: Rpm,
    /// The pump's measured speed.
    pub pump_speed_rpm: Rpm,
    /// The valve state derived from the sense pins.
    pub valve_state: ValveState,
}

/// A snapshot of target control state, sent from the host to the embedded
/// hardware.
#[derive(Debug, Clone, Copy, PartialEq, Eq)]
pub struct ReportControlTargetsPacket {
    /// The actuation the embedded hardware should immediately output for the
    /// fan.
    pub fan_control_percent: Percentage,
    /// The actuation the embedded hardware should immediately output for the
    /// pump.
    pub pump_control_percent: Percentage,
    /// The valve is instructed to begin opening or closing; sending the state
    /// the valve is already in results in nothing happening.
    pub valve_control_state: ValveState,
}

/// A diagnostic log line from the embedded hardware.
#[derive(Debug, PartialEq, Eq)]
pub struct ReportLogLinePacket {
    pub log_line: LogString,
}

impl Clone for ReportLogLinePacket {
    /// Clone the packet; the copy carries the same log line.
    fn clone(&self) -> (r: Self) {
        Self { log_line: self.log_line.clone() }
    }
}

impl Clone for Packet {
    /// Clone the packet; the copy denotes the same packet value.
    fn clone(&self) -> (r: Self)
        ensures
            r@ == self@,
    {
        match self {
            Packet::RequestConnection(_) => Packet::RequestConnection(
                RequestConnectionPacket {  },
            ),
            Packet::AcceptConnection(_) => Packet::AcceptConnection(AcceptConnectionPacket {  }),
            Packet::ReportSensors(p) => Packet::ReportSensors(*p),
            Packet::ReportControlTargets(p) => Packet::ReportControlTargets(*p),
            Packet::ReportLogLine(p) => Packet::ReportLogLine(
                ReportLogLinePacket { log_line: p.log_line.clone() },
            ),
        }
    }
}

/// A short diagnostic byte string of at most eight bytes, sized so the
/// embedded hardware can hold it without heap allocation.
#[derive(Debug, PartialEq, Eq)]
pub struct LogString {
    bytes: Vec<u8>,
}

impl Clone for LogString {
    /// Clone the log string; the copy carries the same bytes.
    fn clone(&self) -> (r: Self)
        ensures
            r@ == self@,
    {
        proof {
            use_type_invariant(self);
        }
        Self { bytes: self.bytes.clone() }
    }
}

impl RequestConnectionPacket {
    /// Create a connection request; on the wire it carries the fixed magic.
    pub fn new() -> (r: Self) {
        Self {  }
    }

    /// Create a new connection request already wrapped in a packet, which is
    /// what callers typically send.
    pub fn new_packet() -> (r: Packet)
        ensures
            r == Packet::RequestConnection(RequestConnectionPacket {  }),
    {
        Packet::RequestConnection(Self::new())
    }
}

impl AcceptConnectionPacket {
    /// Create a connection acceptance; on the wire it carries the fixed
    /// magic.
    pub fn new() -> (r: Self) {
        Self {  }
    }

    /// Create a new connection acceptance already wrapped in a packet.
    pub fn new_packet() -> (r: Packet)
        ensures
            r == Packet::AcceptConnection(AcceptConnectionPacket {  }),
    {
        Packet::AcceptConnection(Self::new())
    }
}

impl LogString {
    /// The carried bytes, in spec land.
    pub closed spec fn spec_bytes(self) -> Seq<u8> {
        self.bytes@
    }

    /// A log line never holds more than eight bytes.
    #[verifier::type_invariant]
    pub closed spec fn inv(self) -> bool {
        self.bytes@.len() <= LOG_LINE_MAX_BYTES
    }

    /// Construct a log string. Succeeds exactly when the bytes fit in the
    /// eight-byte capacity.
    pub fn new(bytes: Vec<u8>) -> (r: Option<Self>)
        ensures
            bytes@.len() <= LOG_LINE_MAX_BYTES <==> r is Some,
            r matches Some(l) ==> l.spec_bytes() == bytes@,
    {
        if bytes.len() <= LOG_LINE_MAX_BYTES {
            Some(Self { bytes })
        } else {
            None
        }
    }

    /// The carried bytes.
    pub fn bytes(&self) -> (r: &Vec<u8>)
        ensures
            r@ == self.spec_bytes(),
            r@.len() <= LOG_LINE_MAX_BYTES,
    {
        proof {
            use_type_invariant(self);
        }
        &self.bytes
    }
}

/// The mathematical value of an `Rpm`: its maximum and current speed in
/// hundredths of an RPM.
pub struct RpmModel {
    pub max: int,
    pub speed: int,
}

impl RpmModel {
    /// A well-formed RPM value: both fields fit the wire's 32-bit words and
    /// the speed does not exceed the maximum.
    pub open spec fn wf(self) -> bool {
        0 <= self.speed <= self.max <= u32::MAX
    }
}

impl View for Rpm {
    type V = RpmModel;

    open spec fn view(&self) -> RpmModel {
        RpmModel { max: self.spec_max(), speed: self.spec_speed() }
    }
}

impl View for Percentage {
    type V = int;

    open spec fn view(&self) -> int {
        self.spec_eighths()
    }
}

impl View for LogString {
    type V = Seq<u8>;

    open spec fn view(&self) -> Seq<u8> {
        self.spec_bytes()
    }
}

/// The mathematical value of a `Packet`, with physical-unit values reduced
/// to the integers they represent.
pub enum PacketModel {
    RequestConnection,
    AcceptConnection,
    ReportSensors { fan: RpmModel, pump: RpmModel, valve: ValveState },
    ReportControlTargets { fan: int, pump: int, valve: ValveState },
    ReportLogLine { line: Seq<u8> },
}

impl PacketModel {
    /// A well-formed packet value: physical-unit fields lie in their state
    /// spaces and a log line fits its capacity. Every packet the library
    /// constructs or decodes is well formed.
    pub open spec fn wf(self) -> bool {
        match self {
            PacketModel::RequestConnection => true,
            PacketModel::AcceptConnection => true,
            PacketModel::ReportSensors { fan, pump, valve } => fan.wf() && pump.wf(),
            PacketModel::ReportControlTargets { fan, pump, valve } => 0 <= fan
                <= PERCENT_EIGHTHS_MAX && 0 <= pump <= PERCENT_EIGHTHS_MAX,
            PacketModel::ReportLogLine { line } => line.len() <= LOG_LINE_MAX_BYTES,
        }
    }
}

impl View for Packet {
    type V = PacketModel;

    open spec fn view(&self) -> PacketModel {
        match self {
            Packet::RequestConnection(_) => PacketModel::RequestConnection,
            Packet::AcceptConnection(_) => PacketModel::AcceptConnection,
            Packet::ReportSensors(p) => PacketModel::ReportSensors {
                fan: p.fan_speed_rpm@,
                pump: p.pump_speed_rpm@,
                valve: p.valve_state,
            },
            Packet::ReportControlTargets(p) => PacketModel::ReportControlTargets {
                fan: p.fan_control_percent@,
                pump: p.pump_control_percent@,
                valve: p.valve_control_state,
            },
            Packet::ReportLogLine(p) => PacketModel::ReportLogLine { line: p.log_line@ },
        }
    }
}

} // verus!
