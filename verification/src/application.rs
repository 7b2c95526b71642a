//! The embedded application core: the decisions of the single-threaded
//! cooperative loop that owns the packet queues, reads the sensors, and
//! programs the actuators. Hardware access — the ADC, the sense pins, the
//! PWM channels, the USB endpoint — happens outside the library; the core
//! takes the readings as arguments and hands the commands back.
use vstd::prelude::*;
use crate::codec::{decode_packets, spec_decode};
use crate::packet::{Packet, PacketModel, ReportSensorsPacket, RpmModel};
use crate::percentage::{Percentage, PERCENT_EIGHTHS_MAX};
use crate::rpm::{Rpm, RpmError};
use crate::valve::{valve_state_of_pins, ValveState};

verus! {

/// Capacity of the incoming and outgoing packet queues.
pub const PACKET_QUEUE_CAPACITY: usize = 16;

/// Full scale of the 12-bit analog-to-digital converter.
pub const ADC_FULL_SCALE: u32 = 4096;

/// Hard-coded maximum pump speed, in hundredths of an RPM (2000 RPM).
pub const PUMP_MAX_SPEED_RAW: u32 = 200000;

/// Hard-coded maximum fan speed, in hundredths of an RPM (1800 RPM).
pub const FAN_MAX_SPEED_RAW: u32 = 180000;

/// Number of core-loop ticks between sensor reports.
pub const SENSOR_POLL_TICKS: u8 = 5;

/// Errors of the embedded application core.
#[derive(Debug, Clone, Copy, PartialEq, Eq)]
pub enum ApplicationError {
    /// Failed to read the pump or fan speed from the ADC.
    ReadAdcFailure,
    /// Failed to read the valve state from the sense pins.
    ValveReadFailure,
    /// A sensor reading did not form a valid RPM value.
    RpmError(RpmError),
}

/// What the core tells the hardware to do in response to one control-target
/// packet: the two PWM duties and, when the valve has to move, the levels for
/// the two valve drive pins.
#[derive(Debug, Clone, Copy, PartialEq, Eq)]
pub struct TargetCommand {
    /// Duty for the pump PWM channel.
    pub pump_duty: u32,
    /// Duty for the fan PWM channel.
    pub fan_duty: u32,
    /// Levels for the valve drive pins `(open, close)`, or nothing when the
    /// valve is already in the commanded state.
    pub valve_pins: Option<(bool, bool)>,
}

/// The duty a percentage commands out of `max_duty`, rounded to the nearest
/// whole duty step.
pub open spec fn spec_duty(eighths: int, max_duty: u32) -> int {
    (eighths * max_duty + PERCENT_EIGHTHS_MAX / 2) / (PERCENT_EIGHTHS_MAX as int)
}

/// The pin drive decision for a commanded valve state against the sensed
/// one: drive toward the collapsed target when it differs from what the
/// sense pins report, and leave the pins idle otherwise.
pub open spec fn spec_valve_drive(target: ValveState, sensed: ValveState) -> Option<(bool, bool)> {
    if target.spec_collapsed() == sensed {
        None
    } else {
        Some(target.spec_pins())
    }
}

/// The command one control-target packet value gives rise to.
pub open spec fn spec_target_command(
    fan: int,
    pump: int,
    valve: ValveState,
    max_duty: u32,
    sensed_valve: ValveState,
) -> TargetCommand {
    TargetCommand {
        pump_duty: spec_duty(pump, max_duty) as u32,
        fan_duty: spec_duty(fan, max_duty) as u32,
        valve_pins: spec_valve_drive(valve, sensed_valve),
    }
}

/// The commands that draining a packet queue produces: the queue is a FIFO,
/// so packets are consumed oldest first, and only control-target packets
/// command anything.
pub open spec fn spec_drain_commands(
    ps: Seq<Packet>,
    max_duty: u32,
    sensed_valve: ValveState,
) -> Seq<TargetCommand>
    decreases ps.len(),
{
    if ps.len() == 0 {
        Seq::empty()
    } else {
        let rest = spec_drain_commands(ps.drop_first(), max_duty, sensed_valve);
        match ps.first()@ {
            PacketModel::ReportControlTargets { fan, pump, valve } => seq![
                spec_target_command(fan, pump, valve, max_duty, sensed_valve),
            ] + rest,
            _ => rest,
        }
    }
}

/// The sensor-report packet value that a set of raw readings produces, or
/// nothing when a reading is missing or out of the converter's range. A
/// failed valve read is not fatal: it reports `Unknown`.
pub open spec fn spec_sensor_packet(
    pump_raw: Option<u16>,
    fan_raw: Option<u16>,
    valve_pins: Option<(bool, bool)>,
) -> Option<PacketModel> {
    match (pump_raw, fan_raw) {
        (Some(p), Some(f)) => if p <= ADC_FULL_SCALE && f <= ADC_FULL_SCALE {
            Some(
                PacketModel::ReportSensors {
                    fan: RpmModel {
                        max: FAN_MAX_SPEED_RAW as int,
                        speed: f * FAN_MAX_SPEED_RAW / (ADC_FULL_SCALE as int),
                    },
                    pump: RpmModel {
                        max: PUMP_MAX_SPEED_RAW as int,
                        speed: p * PUMP_MAX_SPEED_RAW / (ADC_FULL_SCALE as int),
                    },
                    valve: match valve_pins {
                        Some(pins) => valve_state_of_pins(pins),
                        None => ValveState::Unknown,
                    },
                },
            )
        } else {
            None
        },
        _ => None,
    }
}

/// The smaller of two mathematical integers.
pub open spec fn min_int(a: int, b: int) -> int {
    if a <= b {
        a
    } else {
        b
    }
}

/// Scale a raw converter reading onto an axis's speed range: full scale maps
/// to the maximum speed. A reading above full scale yields no valid RPM.
pub fn rpm_from_raw(raw: u16, max_speed: u32) -> (r: Result<Rpm, RpmError>)
    requires
        max_speed <= 0x10000000,
    ensures
        raw <= ADC_FULL_SCALE <==> r is Ok,
        r matches Ok(rpm) ==> rpm@ == (RpmModel {
            max: max_speed as int,
            speed: raw * max_speed / (ADC_FULL_SCALE as int),
        }),
        raw > ADC_FULL_SCALE ==> r == Err::<Rpm, RpmError>(RpmError::OutOfValidStateSpace),
{
    if raw > ADC_FULL_SCALE as u16 {
        return Err(RpmError::OutOfValidStateSpace);
    }
    proof {
        vstd::arithmetic::mul::lemma_mul_upper_bound(
            raw as int,
            ADC_FULL_SCALE as int,
            max_speed as int,
            0x10000000,
        );
        vstd::arithmetic::mul::lemma_mul_nonnegative(raw as int, max_speed as int);
    }
    let speed: u64 = (raw as u64) * (max_speed as u64) / (ADC_FULL_SCALE as u64);
    proof {
        let rw = raw as int;
        let ms = max_speed as int;
        let fs = ADC_FULL_SCALE as int;
        vstd::arithmetic::mul::lemma_mul_inequality(rw, fs, ms);
        vstd::arithmetic::mul::lemma_mul_is_commutative(rw, ms);
        vstd::arithmetic::mul::lemma_mul_is_commutative(fs, ms);
        vstd::arithmetic::div_mod::lemma_div_is_ordered(rw * ms, fs * ms, fs);
        vstd::arithmetic::div_mod::lemma_div_multiples_vanish(ms, fs);
        vstd::arithmetic::div_mod::lemma_div_pos_is_pos(rw * ms, fs);
    }
    Rpm::new(max_speed, speed as u32)
}

/// The duty a percentage commands out of `max_duty`, rounded to the nearest
/// whole duty step; never more than `max_duty`.
pub fn duty_for_percent(percent: &Percentage, max_duty: u32) -> (r: u32)
    ensures
        r == spec_duty(percent@, max_duty),
        r <= max_duty,
{
    let eighths = percent.value();
    proof {
        vstd::arithmetic::mul::lemma_mul_upper_bound(
            eighths as int,
            PERCENT_EIGHTHS_MAX as int,
            max_duty as int,
            u32::MAX as int,
        );
        vstd::arithmetic::mul::lemma_mul_nonnegative(eighths as int, max_duty as int);
    }
    let duty: u64 = ((eighths as u64) * (max_duty as u64) + (PERCENT_EIGHTHS_MAX as u64) / 2) / (
    PERCENT_EIGHTHS_MAX as u64);
    proof {
        let e = eighths as int;
        let md = max_duty as int;
        let k = PERCENT_EIGHTHS_MAX as int;
        vstd::arithmetic::mul::lemma_mul_inequality(e, k, md);
        vstd::arithmetic::mul::lemma_mul_is_commutative(e, md);
        vstd::arithmetic::mul::lemma_mul_is_commutative(k, md);
        vstd::arithmetic::div_mod::lemma_div_is_ordered(e * md + k / 2, k * md + k / 2, k);
        vstd::arithmetic::div_mod::lemma_div_multiples_vanish_fancy(md, k / 2, k);
        vstd::arithmetic::mul::lemma_mul_nonnegative(e, md);
        vstd::arithmetic::div_mod::lemma_div_pos_is_pos(e * md + k / 2, k);
    }
    duty as u32
}

/// Decide the valve drive for a commanded state against the sensed one.
pub fn valve_drive(target: ValveState, sensed: ValveState) -> (r: Option<(bool, bool)>)
    ensures
        r == spec_valve_drive(target, sensed),
{
    if target.collapsed() == sensed {
        None
    } else {
        Some(target.into_pins())
    }
}

/// Capacity of the buffer that retains a torn trailing packet between
/// reads. Twice the largest packet encoding, so a packet split across two
/// reads always fits; a buffer this full that still holds no complete
/// packet is cleared instead, losing at most one frame rather than
/// stalling the stream.
pub const PENDING_BUFFER_CAPACITY: usize = 256;

/// What the pending buffer holds after decoding a byte stream: the suffix
/// the last successful parse did not consume. A suffix beyond the pending
/// capacity is discarded instead, so an undecodable stream cannot grow the
/// buffer without bound.
pub open spec fn spec_retained(stream: Seq<u8>) -> Seq<u8> {
    let rem = stream.skip(spec_decode(stream, 0).1);
    if rem.len() > PENDING_BUFFER_CAPACITY {
        Seq::empty()
    } else {
        rem
    }
}

/// The embedded application core: the packet queues that bracket the USB
/// endpoint, the bytes of a partially received packet, and the divider that
/// paces sensor reports. The hardware handles live outside the library.
pub struct Application {
    sensor_poll_timer: u8,
    /// Received bytes that do not yet form a complete packet, retained to be
    /// reparsed after the next read.
    pending_bytes: Vec<u8>,
    /// Packets received over USB, oldest first, not yet consumed by the
    /// core loop.
    incoming_packets: Vec<Packet>,
    /// Packets produced by the core loop, oldest first, not yet written to
    /// USB.
    outgoing_packets: Vec<Packet>,
}

impl Application {
    /// The queued received packets, in spec land, oldest first.
    pub closed spec fn spec_incoming(self) -> Seq<Packet> {
        self.incoming_packets@
    }

    /// The queued packets to send, in spec land, oldest first.
    pub closed spec fn spec_outgoing(self) -> Seq<Packet> {
        self.outgoing_packets@
    }

    /// The retained bytes of a partially received packet, in spec land.
    pub closed spec fn spec_pending(self) -> Seq<u8> {
        self.pending_bytes@
    }

    /// The sensor-report pacing counter, in spec land.
    pub closed spec fn spec_timer(self) -> int {
        self.sensor_poll_timer as int
    }

    /// Both queues and the pending buffer stay within their capacities and
    /// the pacing counter within its cycle.
    pub open spec fn wf(self) -> bool {
        self.spec_incoming().len() <= PACKET_QUEUE_CAPACITY && self.spec_outgoing().len()
            <= PACKET_QUEUE_CAPACITY && self.spec_pending().len() <= PENDING_BUFFER_CAPACITY && 0
            <= self.spec_timer() <= SENSOR_POLL_TICKS
    }

    /// A fresh application core: empty queues, nothing pending, pacing
    /// counter at zero.
    pub fn new() -> (r: Self)
        ensures
            r.wf(),
            r.spec_incoming() == Seq::<Packet>::empty(),
            r.spec_outgoing() == Seq::<Packet>::empty(),
            r.spec_pending() == Seq::<u8>::empty(),
            r.spec_timer() == 0,
    {
        Application {
            sensor_poll_timer: 0,
            pending_bytes: Vec::new(),
            incoming_packets: Vec::new(),
            outgoing_packets: Vec::new(),
        }
    }

    /// The duty both PWM channels are set to at boot, before any host packet
    /// is accepted: half of `max_duty`, so the loop cannot overheat while the
    /// host is absent.
    pub fn boot_duty(max_duty: u32) -> (r: u32)
        ensures
            r == max_duty as int / 2,
    {
        max_duty / 2
    }

    /// Decode as many packets as the retained bytes plus a received buffer
    /// hold, and queue them in stream order. The unconsumed suffix — a
    /// partially received packet — is retained and reparsed after the next
    /// read; packets beyond the queue's capacity are dropped, and a suffix
    /// beyond the pending capacity is discarded rather than retained.
    pub fn decode_bytes(&mut self, buffer: &[u8])
        requires
            old(self).wf(),
        ensures
            final(self).wf(),
            final(self).spec_outgoing() == old(self).spec_outgoing(),
            final(self).spec_timer() == old(self).spec_timer(),
            final(self).spec_incoming().map_values(|p: Packet| p@) == old(self).spec_incoming().map_values(|p: Packet| p@) + spec_decode(old(self).spec_pending() + buffer@, 0).0.take(
                min_int(
                    spec_decode(old(self).spec_pending() + buffer@, 0).0.len() as int,
                    PACKET_QUEUE_CAPACITY - old(self).spec_incoming().len(),
                ),
            ),
            final(self).spec_pending() == spec_retained(old(self).spec_pending() + buffer@),
    {
        let ghost stream_spec = old(self).spec_pending() + buffer@;
        let mut stream: Vec<u8> = Vec::new();
        let mut b: usize = 0;
        while b < self.pending_bytes.len()
            invariant
                b <= self.pending_bytes@.len(),
                self.pending_bytes@ == old(self).spec_pending(),
                self.incoming_packets@ == old(self).spec_incoming(),
                self.outgoing_packets@ == old(self).spec_outgoing(),
                self.sensor_poll_timer == old(self).sensor_poll_timer,
                stream@ == self.pending_bytes@.take(b as int),
            decreases self.pending_bytes@.len() - b,
        {
            stream.push(self.pending_bytes[b]);
            b = b + 1;
            assert(stream@ =~= self.pending_bytes@.take(b as int));
        }
        proof {
            assert(self.pending_bytes@.take(self.pending_bytes@.len() as int)
                =~= self.pending_bytes@);
            assert(old(self).spec_pending() + buffer@.take(0) =~= old(self).spec_pending());
        }
        let mut c: usize = 0;
        while c < buffer.len()
            invariant
                c <= buffer@.len(),
                self.pending_bytes@ == old(self).spec_pending(),
                self.incoming_packets@ == old(self).spec_incoming(),
                self.outgoing_packets@ == old(self).spec_outgoing(),
                self.sensor_poll_timer == old(self).sensor_poll_timer,
                stream@ == old(self).spec_pending() + buffer@.take(c as int),
            decreases buffer@.len() - c,
        {
            stream.push(buffer[c]);
            c = c + 1;
            assert(stream@ =~= old(self).spec_pending() + buffer@.take(c as int));
        }
        proof {
            assert(stream@ =~= stream_spec);
        }
        let (packets, remainder) = decode_packets(stream.as_slice());
        let ghost decoded = spec_decode(stream_spec, 0).0;
        let ghost start = self.incoming_packets@;
        let mut k: usize = 0;
        while k < packets.len() && self.incoming_packets.len() < PACKET_QUEUE_CAPACITY
            invariant
                k <= packets@.len(),
                packets@.map_values(|p: Packet| p@) == decoded,
                start == old(self).spec_incoming(),
                start.len() <= PACKET_QUEUE_CAPACITY,
                self.incoming_packets@.len() == start.len() + k,
                self.incoming_packets@.len() <= PACKET_QUEUE_CAPACITY,
                self.incoming_packets@.map_values(|p: Packet| p@) == start.map_values(
                    |p: Packet| p@,
                ) + decoded.take(k as int),
                self.outgoing_packets@ == old(self).spec_outgoing(),
                self.sensor_poll_timer == old(self).sensor_poll_timer,
            decreases packets@.len() - k,
        {
            let pkt = packets[k].clone();
            let ghost before = self.incoming_packets@;
            proof {
                assert(packets@.map_values(|p: Packet| p@)[k as int] == decoded[k as int]);
            }
            self.incoming_packets.push(pkt);
            k = k + 1;
            proof {
                let lhs = self.incoming_packets@.map_values(|p: Packet| p@);
                let rhs = start.map_values(|p: Packet| p@) + decoded.take(k as int);
                assert forall|i: int| 0 <= i < lhs.len() implies lhs[i] == rhs[i] by {
                    if i < before.len() {
                        assert(before.map_values(|p: Packet| p@)[i] == (start.map_values(
                            |p: Packet| p@,
                        ) + decoded.take(k as int - 1))[i]);
                    }
                }
                assert(lhs =~= rhs);
            }
        }
        proof {
            let space = PACKET_QUEUE_CAPACITY - start.len();
            if k < packets@.len() {
                assert(k as int == space);
            } else {
                assert(k as int == decoded.len());
            }
            assert(decoded.take(k as int) == decoded.take(
                min_int(decoded.len() as int, space as int),
            ));
        }
        proof {
            crate::codec::lemma_decode_bounds(stream_spec, 0);
            assert(stream_spec.skip(spec_decode(stream_spec, 0).1) =~= stream_spec.subrange(
                spec_decode(stream_spec, 0).1,
                stream_spec.len() as int,
            ));
        }
        if remainder.len() > PENDING_BUFFER_CAPACITY {
            self.pending_bytes = Vec::new();
        } else {
            self.pending_bytes = remainder;
        }
    }

    /// Consume every queued received packet, oldest first, and compute the
    /// hardware commands the control-target packets among them call for:
    /// each one programs both PWM duties and, when the commanded valve state
    /// differs from the sensed one, drives the valve.
    pub fn process_incoming_packets(&mut self, max_duty: u32, sensed_valve: ValveState) -> (cmds:
        Vec<TargetCommand>)
        requires
            old(self).wf(),
        ensures
            final(self).wf(),
            final(self).spec_incoming() == Seq::<Packet>::empty(),
            final(self).spec_outgoing() == old(self).spec_outgoing(),
            final(self).spec_pending() == old(self).spec_pending(),
            final(self).spec_timer() == old(self).spec_timer(),
            cmds@ == spec_drain_commands(old(self).spec_incoming(), max_duty, sensed_valve),
    {
        let ghost s = old(self).spec_incoming();
        let mut cmds: Vec<TargetCommand> = Vec::new();
        proof {
            assert(s.skip(0) =~= s);
            assert(Seq::<TargetCommand>::empty() + spec_drain_commands(s, max_duty, sensed_valve)
                =~= spec_drain_commands(s, max_duty, sensed_valve));
        }
        let n = self.incoming_packets.len();
        let mut k: usize = 0;
        while k < n
            invariant
                n == s.len(),
                k <= n,
                self.incoming_packets@ == s,
                self.outgoing_packets@ == old(self).spec_outgoing(),
                self.pending_bytes@ == old(self).spec_pending(),
                self.sensor_poll_timer == old(self).sensor_poll_timer,
                spec_drain_commands(s, max_duty, sensed_valve) == cmds@ + spec_drain_commands(
                    s.skip(k as int),
                    max_duty,
                    sensed_valve,
                ),
            decreases n - k,
        {
            proof {
                assert(s.skip(k as int).first() == s[k as int]);
                assert(s.skip(k as int).drop_first() =~= s.skip(k as int + 1));
            }
            let packet: &Packet = &self.incoming_packets[k];
            match packet {
                Packet::ReportControlTargets(control_packet) => {
                    let cmd = TargetCommand {
                        pump_duty: duty_for_percent(&control_packet.pump_control_percent, max_duty),
                        fan_duty: duty_for_percent(&control_packet.fan_control_percent, max_duty),
                        valve_pins: valve_drive(control_packet.valve_control_state, sensed_valve),
                    };
                    cmds.push(cmd);
                    proof {
                        assert(spec_drain_commands(s, max_duty, sensed_valve) =~= cmds@
                            + spec_drain_commands(s.skip(k as int + 1), max_duty, sensed_valve));
                    }
                },
                _ => {},
            }
            k = k + 1;
        }
        proof {
            assert(s.skip(n as int) =~= Seq::<Packet>::empty());
            assert(cmds@ =~= spec_drain_commands(s, max_duty, sensed_valve));
        }
        self.incoming_packets.clear();
        cmds
    }

    /// Build a sensor report from the raw readings and queue it for sending.
    /// A missing ADC reading skips the cycle; a reading beyond full scale is
    /// an invalid RPM; a missing valve reading reports `Unknown`. When the
    /// outgoing queue is full the report is dropped.
    pub fn report_sensors(
        &mut self,
        pump_raw: Option<u16>,
        fan_raw: Option<u16>,
        valve_pins: Option<(bool, bool)>,
    ) -> (r: Result<(), ApplicationError>)
        requires
            old(self).wf(),
        ensures
            final(self).wf(),
            final(self).spec_incoming() == old(self).spec_incoming(),
            final(self).spec_pending() == old(self).spec_pending(),
            final(self).spec_timer() == old(self).spec_timer(),
            r is Ok <==> spec_sensor_packet(pump_raw, fan_raw, valve_pins) is Some,
            pump_raw is None || fan_raw is None ==> r == Err::<(), ApplicationError>(
                ApplicationError::ReadAdcFailure,
            ),
            r is Err ==> final(self).spec_outgoing() == old(self).spec_outgoing(),
            r is Ok && old(self).spec_outgoing().len() == PACKET_QUEUE_CAPACITY ==> final(self).spec_outgoing() == old(self).spec_outgoing(),
            r is Ok && old(self).spec_outgoing().len() < PACKET_QUEUE_CAPACITY ==> final(self).spec_outgoing().map_values(|p: Packet| p@) == old(self).spec_outgoing().map_values(
                |p: Packet| p@,
            ).push(spec_sensor_packet(pump_raw, fan_raw, valve_pins).unwrap()),
    {
        let pump_speed_raw = match pump_raw {
            None => {
                return Err(ApplicationError::ReadAdcFailure);
            },
            Some(raw) => raw,
        };
        let fan_speed_raw = match fan_raw {
            None => {
                return Err(ApplicationError::ReadAdcFailure);
            },
            Some(raw) => raw,
        };
        let valve_state = match valve_pins {
            None => ValveState::Unknown,
            Some(pins) => ValveState::from(pins),
        };
        let pump_speed_rpm = match rpm_from_raw(pump_speed_raw, PUMP_MAX_SPEED_RAW) {
            Err(err) => {
                return Err(ApplicationError::RpmError(err));
            },
            Ok(rpm) => rpm,
        };
        let fan_speed_rpm = match rpm_from_raw(fan_speed_raw, FAN_MAX_SPEED_RAW) {
            Err(err) => {
                return Err(ApplicationError::RpmError(err));
            },
            Ok(rpm) => rpm,
        };
        let packet = Packet::ReportSensors(
            ReportSensorsPacket { fan_speed_rpm, pump_speed_rpm, valve_state },
        );
        if self.outgoing_packets.len() < PACKET_QUEUE_CAPACITY {
            let ghost before = self.outgoing_packets@;
            self.outgoing_packets.push(packet);
            proof {
                assert(self.outgoing_packets@.map_values(|p: Packet| p@) =~= before.map_values(
                    |p: Packet| p@,
                ).push(spec_sensor_packet(pump_raw, fan_raw, valve_pins).unwrap()));
            }
        }
        Ok(())
    }

    /// One tick of the core loop: consume the received control targets, and
    /// every few ticks read the sensors and queue a report. Report errors
    /// are swallowed: a failed cycle is skipped rather than retried.
    pub fn core_loop(
        &mut self,
        max_duty: u32,
        pump_raw: Option<u16>,
        fan_raw: Option<u16>,
        valve_pins: Option<(bool, bool)>,
    ) -> (cmds: Vec<TargetCommand>)
        requires
            old(self).wf(),
        ensures
            final(self).wf(),
            final(self).spec_incoming() == Seq::<Packet>::empty(),
            final(self).spec_pending() == old(self).spec_pending(),
            cmds@ == spec_drain_commands(
                old(self).spec_incoming(),
                max_duty,
                match valve_pins {
                    Some(pins) => valve_state_of_pins(pins),
                    None => ValveState::Unknown,
                },
            ),
            final(self).spec_timer() == if old(self).spec_timer() + 1 > SENSOR_POLL_TICKS {
                old(self).spec_timer() + 1 - SENSOR_POLL_TICKS
            } else {
                old(self).spec_timer() + 1
            },
            old(self).spec_timer() + 1 <= SENSOR_POLL_TICKS || spec_sensor_packet(
                pump_raw,
                fan_raw,
                valve_pins,
            ) is None || old(self).spec_outgoing().len() == PACKET_QUEUE_CAPACITY ==> final(self).spec_outgoing() == old(self).spec_outgoing(),
            old(self).spec_timer() + 1 > SENSOR_POLL_TICKS && spec_sensor_packet(
                pump_raw,
                fan_raw,
                valve_pins,
            ) is Some && old(self).spec_outgoing().len() < PACKET_QUEUE_CAPACITY ==> final(self).spec_outgoing().map_values(|p: Packet| p@) == old(self).spec_outgoing().map_values(
                |p: Packet| p@,
            ).push(spec_sensor_packet(pump_raw, fan_raw, valve_pins).unwrap()),
    {
        let sensed_valve = match valve_pins {
            None => ValveState::Unknown,
            Some(pins) => ValveState::from(pins),
        };
        let cmds = self.process_incoming_packets(max_duty, sensed_valve);
        self.sensor_poll_timer = self.sensor_poll_timer + 1;
        if self.sensor_poll_timer > SENSOR_POLL_TICKS {
            self.sensor_poll_timer = self.sensor_poll_timer - SENSOR_POLL_TICKS;
            let _ = self.report_sensors(pump_raw, fan_raw, valve_pins);
        }
        cmds
    }

    /// Take every queued outgoing packet, in arrival order, leaving the
    /// queue empty; the caller encodes and writes them to the USB endpoint.
    pub fn drain_outgoing(&mut self) -> (r: Vec<Packet>)
        requires
            old(self).wf(),
        ensures
            final(self).wf(),
            final(self).spec_outgoing() == Seq::<Packet>::empty(),
            final(self).spec_incoming() == old(self).spec_incoming(),
            final(self).spec_pending() == old(self).spec_pending(),
            final(self).spec_timer() == old(self).spec_timer(),
            r@ == old(self).spec_outgoing(),
    {
        let mut drained: Vec<Packet> = Vec::new();
        core::mem::swap(&mut self.outgoing_packets, &mut drained);
        drained
    }
}

} // verus!
