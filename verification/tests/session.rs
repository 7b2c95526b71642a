//! Tests of the host session decisions: port discovery, packet
//! classification, the fuser task, and the supervisor/worker lifecycle.
use prandtl::client_sensor_data::ClientSensorData;
use prandtl::packet::{Packet, ReportControlTargetsPacket, ReportSensorsPacket};
use prandtl::percentage::Percentage;
use prandtl::rpm::Rpm;
use prandtl::session::{
    find_client_port, handle_report_sensor_packet, is_port_for_embedded_hardware, ExitAction,
    PortDescriptor, ScanAction, SessionManager, SessionPhase, UsbPortInfo,
};
use prandtl::system::{business_logic, CoreSystemState};
use prandtl::host_sensor_data::HostSensorData;
use prandtl::host_sensors::{
    CpuTemperatureServiceError, HostCpuTemperatureService, HostSensorAdapter,
};
use prandtl::temperature::Temperature;
use prandtl::valve::ValveState;

fn controller_port() -> PortDescriptor {
    PortDescriptor {
        port_name: "ttyACM0".to_owned(),
        usb: Some(UsbPortInfo {
            serial_number: Some("1324".to_owned()),
            product: Some("Too Hot To Prandtl Controller".to_owned()),
        }),
    }
}

fn other_port(serial: &str, product: &str) -> PortDescriptor {
    PortDescriptor {
        port_name: "ttyUSB3".to_owned(),
        usb: Some(UsbPortInfo {
            serial_number: Some(serial.to_owned()),
            product: Some(product.to_owned()),
        }),
    }
}

#[test]
fn test_is_port_for_embedded_hardware() {
    assert!(is_port_for_embedded_hardware(&controller_port()));
    assert!(!is_port_for_embedded_hardware(&other_port("1324", "Some Other Device")));
    assert!(!is_port_for_embedded_hardware(&other_port("9999", "Too Hot To Prandtl Controller")));
    assert!(!is_port_for_embedded_hardware(&PortDescriptor {
        port_name: "ttyS0".to_owned(),
        usb: None,
    }));
    assert!(!is_port_for_embedded_hardware(&PortDescriptor {
        port_name: "ttyACM1".to_owned(),
        usb: Some(UsbPortInfo { serial_number: None, product: None }),
    }));
}

#[test]
fn test_find_client_port() {
    let ports = vec![
        other_port("1324", "Some Other Device"),
        controller_port(),
        controller_port(),
    ];
    assert_eq!(find_client_port(&ports), Some(1));

    let ports = vec![other_port("9999", "Nothing")];
    assert_eq!(find_client_port(&ports), None);

    let ports: Vec<PortDescriptor> = vec![];
    assert_eq!(find_client_port(&ports), None);
}

#[test]
fn test_handle_report_sensor_packet() {
    let report = ReportSensorsPacket {
        fan_speed_rpm: Rpm::new(180000, 90000).expect("Failed to get RPM"),
        pump_speed_rpm: Rpm::new(200000, 100000).expect("Failed to get RPM"),
        valve_state: ValveState::Open,
    };
    let data = handle_report_sensor_packet(&Packet::ReportSensors(report))
        .expect("Expected a client sensor sample");
    assert_eq!(data.pump_speed.speed(), 100000);
    assert_eq!(data.fan_speed.speed(), 90000);
    assert_eq!(data.valve_state, ValveState::Open);

    let other = Packet::ReportControlTargets(ReportControlTargetsPacket {
        fan_control_percent: Percentage::new(200).unwrap(),
        pump_control_percent: Percentage::new(600).unwrap(),
        valve_control_state: ValveState::Closed,
    });
    assert!(handle_report_sensor_packet(&other).is_none());
}

#[test]
fn test_fuser_emits_one_frame_per_complete_pair() {
    // Inject a sensor report (pump 1000 of 2000 RPM, fan 900 of 1800 RPM,
    // valve open) and a 70 degree host sample: exactly one outbound control
    // target with the curves' values results.
    let report = ReportSensorsPacket {
        fan_speed_rpm: Rpm::new(180000, 90000).expect("Failed to get RPM"),
        pump_speed_rpm: Rpm::new(200000, 100000).expect("Failed to get RPM"),
        valve_state: ValveState::Open,
    };
    let sample = handle_report_sensor_packet(&Packet::ReportSensors(report))
        .expect("Expected a client sensor sample");

    let mut state = CoreSystemState::new();
    assert!(state.on_client_frame(sample).is_none());

    let host = HostSensorData {
        cpu_temperature: Temperature::new(7000).expect("Failed to get Temperature"),
    };
    let frame = state.on_host_frame(host).expect("Expected a control frame");

    // At 70 degrees: fan interpolates to 49 percent, valve is closed, and
    // the pump eases from its measured 50 percent toward the curve's 70
    // percent: 53 percent.
    assert_eq!(frame.fan_activation.value(), 392);
    assert_eq!(frame.valve_state, ValveState::Closed);
    assert_eq!(frame.pump_activation.value(), 424);

    // A session that is open publishes exactly that frame as a packet.
    let mut session = SessionManager::new();
    let _ = session.on_port_scan(true);
    assert!(session.on_open_result(true).is_none());
    let packet = session.on_control_frame(frame).expect("Expected an outbound packet");
    match packet {
        Packet::ReportControlTargets(p) => {
            assert_eq!(p.fan_control_percent.value(), 392);
            assert_eq!(p.pump_control_percent.value(), 424);
            assert_eq!(p.valve_control_state, ValveState::Closed);
        },
        _ => panic!("expected a control-target packet"),
    }
}

#[test]
fn test_business_logic_needs_both_samples() {
    let host = HostSensorData {
        cpu_temperature: Temperature::new(5000).expect("Failed to get Temperature"),
    };
    assert!(business_logic(None, None).is_none());
    assert!(business_logic(None, Some(host)).is_none());
    let client = ClientSensorData {
        pump_speed: Rpm::new(200000, 100000).expect("Failed to get RPM"),
        fan_speed: Rpm::new(180000, 90000).expect("Failed to get RPM"),
        valve_state: ValveState::Open,
    };
    assert!(business_logic(Some(client), None).is_none());
    assert!(business_logic(Some(client), Some(host)).is_some());
}

#[test]
fn test_session_restarts_without_losing_latest_frame() {
    // Drop the serial port mid-session: the worker exits, the supervisor
    // restarts discovery, and the reopened session republishes the most
    // recent control frame.
    let mut session = SessionManager::new();
    assert_eq!(session.on_port_scan(false), ScanAction::RetryAfterDelay);
    assert_eq!(session.on_port_scan(true), ScanAction::OpenPort);
    assert!(session.on_open_result(true).is_none());

    let frame = prandtl::control_event::ControlEvent {
        fan_activation: Percentage::new(392).unwrap(),
        pump_activation: Percentage::new(424).unwrap(),
        valve_state: ValveState::Closed,
    };
    assert!(session.on_control_frame(frame).is_some());

    // The port drops: the worker exits and the supervisor goes back to
    // discovery.
    assert_eq!(session.on_io_error(), ExitAction::RestartDiscovery);
    assert_eq!(session.on_port_scan(true), ScanAction::OpenPort);

    // On reconnection the most recent frame is republished.
    let resumed = session.on_open_result(true).expect("Expected the latest frame back");
    match resumed {
        Packet::ReportControlTargets(p) => {
            assert_eq!(p.fan_control_percent.value(), 392);
            assert_eq!(p.pump_control_percent.value(), 424);
            assert_eq!(p.valve_control_state, ValveState::Closed);
        },
        _ => panic!("expected a control-target packet"),
    }
}

struct MockService;

impl HostCpuTemperatureService for MockService {
    fn get_cpu_temp(&self) -> Result<Temperature, CpuTemperatureServiceError> {
        Ok(Temperature::new(10000).expect("Failed to get Temperature"))
    }
}

#[test]
fn test_host_sensor_adapter() {
    let mock_service = MockService {};
    let dut = HostSensorAdapter::new(&mock_service);
    let results = dut.poll_host_sensors().expect("Failed to poll host sensors");

    assert_eq!(results.cpu_temperature, Temperature::new(10000).unwrap());
}

struct FailingService;

impl HostCpuTemperatureService for FailingService {
    fn get_cpu_temp(&self) -> Result<Temperature, CpuTemperatureServiceError> {
        Err(CpuTemperatureServiceError::FailedToRead)
    }
}

#[test]
fn test_host_sensor_adapter_passes_failures_through() {
    let failing_service = FailingService {};
    let dut = HostSensorAdapter::new(&failing_service);
    assert_eq!(dut.poll_host_sensors(), Err(CpuTemperatureServiceError::FailedToRead));
}

#[test]
fn test_session_cancellation_stops_everything() {
    let mut session = SessionManager::new();
    session.on_cancel();
    assert_eq!(session.on_port_scan(true), ScanAction::Stop);
    assert_eq!(session.on_io_error(), ExitAction::Stop);
}

#[test]
fn test_session_open_failure_cancels() {
    let mut session = SessionManager::new();
    let _ = session.on_port_scan(true);
    assert!(session.on_open_result(false).is_none());
    assert_eq!(session.on_port_scan(true), ScanAction::Stop);
    let _ = SessionPhase::Discovering;
}
