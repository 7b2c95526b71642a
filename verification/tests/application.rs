//! Tests of the embedded application core: target application, sensor
//! reporting cadence, queue capacity, and the boot-safety duty.
use prandtl::application::{
    duty_for_percent, rpm_from_raw, valve_drive, Application, ApplicationError,
};
use prandtl::codec::encode_packet;
use prandtl::packet::{Packet, ReportControlTargetsPacket};
use prandtl::percentage::Percentage;
use prandtl::rpm::RpmError;
use prandtl::valve::ValveState;

fn targets(fan_eighths: i16, pump_eighths: i16, valve: ValveState) -> Packet {
    Packet::ReportControlTargets(ReportControlTargetsPacket {
        fan_control_percent: Percentage::new(fan_eighths).expect("Failed to get Percentage"),
        pump_control_percent: Percentage::new(pump_eighths).expect("Failed to get Percentage"),
        valve_control_state: valve,
    })
}

#[test]
fn test_apply_targets_sets_duties_and_valve() {
    // Feed a control target of 25 percent fan, 75 percent pump, valve
    // closed: the duties are the rounded fractions of the maximum duty and
    // the valve drive pins command closed.
    let mut app = Application::new();
    let packet = targets(200, 600, ValveState::Closed);
    app.decode_bytes(&encode_packet(&packet));

    let max_duty: u32 = 1000;
    let cmds = app.process_incoming_packets(max_duty, ValveState::Open);
    assert_eq!(cmds.len(), 1);
    assert_eq!(cmds[0].fan_duty, 250);
    assert_eq!(cmds[0].pump_duty, 750);
    assert_eq!(cmds[0].valve_pins, Some((false, true)));
}

#[test]
fn test_apply_targets_leaves_settled_valve_idle() {
    let mut app = Application::new();
    app.decode_bytes(&encode_packet(&targets(200, 600, ValveState::Closed)));
    let cmds = app.process_incoming_packets(1000, ValveState::Closed);
    assert_eq!(cmds.len(), 1);
    assert_eq!(cmds[0].valve_pins, None);
}

#[test]
fn test_duty_rounding() {
    let third = Percentage::new(267).expect("Failed to get Percentage");
    // 33.375 percent of 1000 is 333.75, rounded to 334.
    assert_eq!(duty_for_percent(&third, 1000), 334);
    let full = Percentage::new(800).expect("Failed to get Percentage");
    assert_eq!(duty_for_percent(&full, u32::MAX), u32::MAX);
    let zero = Percentage::new(0).expect("Failed to get Percentage");
    assert_eq!(duty_for_percent(&zero, u32::MAX), 0);
}

#[test]
fn test_valve_drive_decisions() {
    assert_eq!(valve_drive(ValveState::Closed, ValveState::Open), Some((false, true)));
    assert_eq!(valve_drive(ValveState::Closing, ValveState::Closed), None);
    assert_eq!(valve_drive(ValveState::Opening, ValveState::Closed), Some((true, false)));
    // An unknown target fail-safes toward open.
    assert_eq!(valve_drive(ValveState::Unknown, ValveState::Closed), Some((true, false)));
    assert_eq!(valve_drive(ValveState::Unknown, ValveState::Open), None);
}

#[test]
fn test_boot_duty_is_half() {
    assert_eq!(Application::boot_duty(1000), 500);
    assert_eq!(Application::boot_duty(4095), 2047);
}

#[test]
fn test_rpm_from_raw_scaling() {
    // Zero, half and full scale of the converter map onto the speed range.
    assert_eq!(rpm_from_raw(0, 200000).unwrap().speed(), 0);
    assert_eq!(rpm_from_raw(2048, 200000).unwrap().speed(), 100000);
    assert_eq!(rpm_from_raw(4096, 200000).unwrap().speed(), 200000);
    assert_eq!(rpm_from_raw(4097, 200000), Err(RpmError::OutOfValidStateSpace));
}

#[test]
fn test_report_sensors_builds_packet() {
    let mut app = Application::new();
    let r = app.report_sensors(Some(2048), Some(1024), Some((true, false)));
    assert!(r.is_ok());
    let out = app.drain_outgoing();
    assert_eq!(out.len(), 1);
    match &out[0] {
        Packet::ReportSensors(p) => {
            assert_eq!(p.pump_speed_rpm.max_speed(), 200000);
            assert_eq!(p.pump_speed_rpm.speed(), 100000);
            assert_eq!(p.fan_speed_rpm.max_speed(), 180000);
            assert_eq!(p.fan_speed_rpm.speed(), 45000);
            assert_eq!(p.valve_state, ValveState::Open);
        },
        _ => panic!("expected a sensor report"),
    }
}

#[test]
fn test_report_sensors_error_paths() {
    let mut app = Application::new();
    // A missing ADC reading skips the cycle.
    assert_eq!(
        app.report_sensors(None, Some(1024), Some((true, false))),
        Err(ApplicationError::ReadAdcFailure)
    );
    assert_eq!(
        app.report_sensors(Some(1024), None, Some((true, false))),
        Err(ApplicationError::ReadAdcFailure)
    );
    // A reading beyond full scale is an invalid RPM.
    assert_eq!(
        app.report_sensors(Some(5000), Some(1024), Some((true, false))),
        Err(ApplicationError::RpmError(RpmError::OutOfValidStateSpace))
    );
    // A failed valve read reports Unknown instead of failing the cycle.
    assert!(app.report_sensors(Some(1024), Some(1024), None).is_ok());
    let out = app.drain_outgoing();
    assert_eq!(out.len(), 1);
    match &out[0] {
        Packet::ReportSensors(p) => assert_eq!(p.valve_state, ValveState::Unknown),
        _ => panic!("expected a sensor report"),
    }
}

#[test]
fn test_core_loop_report_cadence() {
    // The sensor report fires on every sixth tick of the core loop.
    let mut app = Application::new();
    for _ in 0..5 {
        let _ = app.core_loop(1000, Some(2048), Some(2048), Some((true, false)));
    }
    assert_eq!(app.drain_outgoing().len(), 0);
    let _ = app.core_loop(1000, Some(2048), Some(2048), Some((true, false)));
    assert_eq!(app.drain_outgoing().len(), 1);
}

#[test]
fn test_core_loop_applies_targets() {
    let mut app = Application::new();
    app.decode_bytes(&encode_packet(&targets(400, 400, ValveState::Open)));
    let cmds = app.core_loop(4096, Some(0), Some(0), Some((true, false)));
    assert_eq!(cmds.len(), 1);
    assert_eq!(cmds[0].fan_duty, 2048);
    assert_eq!(cmds[0].pump_duty, 2048);
    assert_eq!(cmds[0].valve_pins, None);
}

#[test]
fn test_incoming_queue_drops_beyond_capacity() {
    // Seventeen control targets arrive but the queue holds sixteen; the
    // seventeenth is dropped.
    let mut app = Application::new();
    let mut bytes: Vec<u8> = Vec::new();
    for _ in 0..17 {
        bytes.extend_from_slice(&encode_packet(&targets(200, 200, ValveState::Open)));
    }
    app.decode_bytes(&bytes);
    let cmds = app.process_incoming_packets(1000, ValveState::Open);
    assert_eq!(cmds.len(), 16);
}

#[test]
fn test_outgoing_queue_drops_beyond_capacity() {
    let mut app = Application::new();
    for _ in 0..17 {
        assert!(app.report_sensors(Some(1024), Some(1024), Some((true, false))).is_ok());
    }
    assert_eq!(app.drain_outgoing().len(), 16);
}

#[test]
fn test_drain_outgoing_preserves_order() {
    // The outgoing queue is a FIFO: reports go to the wire oldest first.
    let mut app = Application::new();
    assert!(app.report_sensors(Some(0), Some(0), Some((true, false))).is_ok());
    assert!(app.report_sensors(Some(4096), Some(4096), Some((false, true))).is_ok());
    let out = app.drain_outgoing();
    assert_eq!(out.len(), 2);
    match &out[0] {
        Packet::ReportSensors(p) => assert_eq!(p.valve_state, ValveState::Open),
        _ => panic!("expected a sensor report"),
    }
    match &out[1] {
        Packet::ReportSensors(p) => assert_eq!(p.valve_state, ValveState::Closed),
        _ => panic!("expected a sensor report"),
    }
}

#[test]
fn test_apply_targets_in_arrival_order() {
    // The incoming queue is a FIFO: of two control targets, the older one is
    // applied first, so the newer one ends up on the PWM.
    let mut app = Application::new();
    let mut bytes = encode_packet(&targets(200, 200, ValveState::Open));
    bytes.extend_from_slice(&encode_packet(&targets(600, 600, ValveState::Open)));
    app.decode_bytes(&bytes);
    let cmds = app.process_incoming_packets(1000, ValveState::Open);
    assert_eq!(cmds.len(), 2);
    assert_eq!(cmds[0].pump_duty, 250);
    assert_eq!(cmds[1].pump_duty, 750);
}

#[test]
fn test_decode_bytes_retains_torn_packet() {
    // A packet torn across two reads is retained and completed by the next
    // read, per the buffer contract.
    let mut app = Application::new();
    let encoded = encode_packet(&targets(200, 600, ValveState::Closed));
    let (first_half, second_half) = encoded.split_at(3);

    app.decode_bytes(first_half);
    let cmds = app.process_incoming_packets(1000, ValveState::Open);
    assert!(cmds.is_empty());

    app.decode_bytes(second_half);
    let cmds = app.process_incoming_packets(1000, ValveState::Open);
    assert_eq!(cmds.len(), 1);
    assert_eq!(cmds[0].fan_duty, 250);
    assert_eq!(cmds[0].pump_duty, 750);
}

#[test]
fn test_pending_buffer_clears_when_oversized() {
    // A pending buffer past capacity that still holds no decodable packet is
    // cleared, so an undecodable prefix cannot stall the stream forever.
    let mut app = Application::new();
    app.decode_bytes(&[255u8; 300]);
    assert!(app.process_incoming_packets(1000, ValveState::Open).is_empty());

    app.decode_bytes(&encode_packet(&targets(200, 600, ValveState::Closed)));
    let cmds = app.process_incoming_packets(1000, ValveState::Open);
    assert_eq!(cmds.len(), 1);
}
