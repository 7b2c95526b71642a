//! Tests of the curve evaluator and the control fuser, including the seed
//! scenarios of the control loop. Temperatures are in hundredths of a degree
//! Celsius and percentages in eighths of a percent.
use prandtl::client_sensor_data::ClientSensorData;
use prandtl::controls::{
    apply_feedback, fan_curve, generate_control_frame, pump_curve, valve_curve,
};
use prandtl::curve::{Curve, CurveError, ValveCurve};
use prandtl::host_sensor_data::HostSensorData;
use prandtl::rpm::Rpm;
use prandtl::temperature::Temperature;
use prandtl::valve::ValveState;

fn client_with_pump(max: u32, speed: u32) -> ClientSensorData {
    ClientSensorData {
        pump_speed: Rpm::new(max, speed).expect("Failed to get RPM."),
        fan_speed: Rpm::new(max, speed).expect("Failed to get RPM."),
        valve_state: ValveState::Open,
    }
}

fn host_at(centi_celsius: i32) -> HostSensorData {
    HostSensorData {
        cpu_temperature: Temperature::new(centi_celsius).expect("Failed to get Temperature."),
    }
}

#[test]
fn controls_test_generate_control_frame() {
    let client = client_with_pump(50000, 50000);

    for i in 0..100i32 {
        let host = host_at(i * 100);
        let control_frame = generate_control_frame(&client, &host);

        let temp = (i * 100) as i64;
        assert_eq!(
            control_frame.fan_activation.value() as i64,
            fan_curve().lookup(temp).expect("Failed to get curve value.")
        );
        let raw_current_pump_speed = client.pump_speed.into_percentage().value() as i64;
        let raw_target = pump_curve().lookup(temp).expect("Failed to get curve value.");
        assert_eq!(
            control_frame.pump_activation.value() as i64,
            apply_feedback(raw_current_pump_speed, raw_target)
        );
        assert_eq!(
            control_frame.valve_state,
            valve_curve().lookup(temp).expect("Failed to get curve value.")
        );
    }
}

#[test]
fn test_apply_feedback() {
    for current in 0..100i64 {
        for target in 0..100i64 {
            let current = current * 8;
            let target = target * 8;
            let result = apply_feedback(current, target);

            let correct = if target >= current {
                current + (target - current) * 3 / 20
            } else {
                current - (current - target) * 3 / 20
            };

            assert_eq!(result, correct);
        }
    }
}

#[test]
fn test_fuser_scenario_cold_idle_pump() {
    // 0 degrees with the pump at 0 percent: fan 15 percent, valve open,
    // pump eased toward 30 percent by the feedback fraction: 4.5 percent.
    let frame = generate_control_frame(&client_with_pump(200000, 0), &host_at(0));
    assert_eq!(frame.fan_activation.value(), 120);
    assert_eq!(frame.valve_state, ValveState::Open);
    assert_eq!(frame.pump_activation.value(), 36);
}

#[test]
fn test_fuser_scenario_settled_at_fifty() {
    // 50 degrees with the pump already at its 30 percent target: no change.
    let frame = generate_control_frame(&client_with_pump(200000, 60000), &host_at(5000));
    assert_eq!(frame.fan_activation.value(), 120);
    assert_eq!(frame.valve_state, ValveState::Open);
    assert_eq!(frame.pump_activation.value(), 240);
}

#[test]
fn test_fuser_scenario_just_below_valve_threshold() {
    // 59 degrees: fan still at 15 percent, valve still open, pump eased from
    // 30 percent toward the interpolated 48 percent: 32.625 percent.
    let frame = generate_control_frame(&client_with_pump(200000, 60000), &host_at(5900));
    assert_eq!(frame.fan_activation.value(), 120);
    assert_eq!(frame.valve_state, ValveState::Open);
    assert_eq!(frame.pump_activation.value(), 261);
}

#[test]
fn test_fuser_scenario_at_valve_threshold() {
    // 60 degrees: fan begins its ramp at 15 percent, valve closes, pump
    // eased from 30 percent toward the interpolated 50 percent: 33 percent.
    let frame = generate_control_frame(&client_with_pump(200000, 60000), &host_at(6000));
    assert_eq!(frame.fan_activation.value(), 120);
    assert_eq!(frame.valve_state, ValveState::Closed);
    assert_eq!(frame.pump_activation.value(), 264);
}

#[test]
fn test_fuser_scenario_at_maximum_curve_point() {
    // 85 degrees with the pump at 50 percent: fan at 100 percent, valve
    // closed, pump eased toward 100 percent: 57.5 percent.
    let frame = generate_control_frame(&client_with_pump(200000, 100000), &host_at(8500));
    assert_eq!(frame.fan_activation.value(), 800);
    assert_eq!(frame.valve_state, ValveState::Closed);
    assert_eq!(frame.pump_activation.value(), 460);
}

#[test]
fn test_fuser_scenario_above_curve_maximum() {
    // 100 degrees, above every control point: fan clamps to 100 percent,
    // valve closed, pump keeps easing toward 100 percent.
    let frame = generate_control_frame(&client_with_pump(200000, 100000), &host_at(10000));
    assert_eq!(frame.fan_activation.value(), 800);
    assert_eq!(frame.valve_state, ValveState::Closed);
    assert_eq!(frame.pump_activation.value(), 460);
}

#[test]
fn test_cant_construct_empty_curve() {
    let curve: Result<Curve, CurveError> = Curve::new(vec![]);
    assert!(curve.is_err());
    let curve: Result<ValveCurve, CurveError> = ValveCurve::new(vec![]);
    assert!(curve.is_err());
}

#[test]
fn test_find_last_point_before_x() {
    let points = vec![(0i64, 0i64), (3, 3), (10, 10)];
    let curve = Curve::new(points).unwrap();

    assert_eq!(curve.find_last_point_before_x(-3), Some((0i64, 0i64)));
    assert_eq!(curve.find_last_point_before_x(0), Some((0i64, 0i64)));
    assert_eq!(curve.find_last_point_before_x(1), Some((0i64, 0i64)));
    assert_eq!(curve.find_last_point_before_x(3), Some((3i64, 3i64)));
    assert_eq!(curve.find_last_point_before_x(4), Some((3i64, 3i64)));
    assert_eq!(curve.find_last_point_before_x(10), Some((10i64, 10i64)));
    assert_eq!(curve.find_last_point_before_x(100), Some((10i64, 10i64)));
}

#[test]
fn test_find_first_point_after_x() {
    let points = vec![(0i64, 0i64), (3, 3), (10, 10)];
    let curve = Curve::new(points).unwrap();

    assert_eq!(curve.find_first_point_after_x(-3), Some((0i64, 0i64)));
    assert_eq!(curve.find_first_point_after_x(0), Some((0i64, 0i64)));
    assert_eq!(curve.find_first_point_after_x(1), Some((3i64, 3i64)));
    assert_eq!(curve.find_first_point_after_x(3), Some((3i64, 3i64)));
    assert_eq!(curve.find_first_point_after_x(4), Some((10i64, 10i64)));
    assert_eq!(curve.find_first_point_after_x(10), Some((10i64, 10i64)));
    assert_eq!(curve.find_first_point_after_x(100), Some((10i64, 10i64)));
}

#[test]
fn test_lookup() {
    let points = vec![(0i64, 0i64), (3, 3), (10, 10)];
    let curve = Curve::new(points).unwrap();

    assert_eq!(curve.lookup(-3).expect("Failed to lookup value"), 0);
    assert_eq!(curve.lookup(0).expect("Failed to lookup value"), 0);
    assert_eq!(curve.lookup(1).expect("Failed to lookup value"), 1);
    assert_eq!(curve.lookup(3).expect("Failed to lookup value"), 3);
    assert_eq!(curve.lookup(10).expect("Failed to lookup value"), 10);
    assert_eq!(curve.lookup(100).expect("Failed to lookup value"), 10);
}

#[test]
fn test_with_physical_unit() {
    // A fan-style curve in whole degrees and whole percent.
    let points = vec![(0i64, 10i64), (30, 10), (60, 50), (80, 100)];
    let curve = Curve::new(points).unwrap();

    assert_eq!(curve.lookup(0).expect("Failed to lookup value"), 10);
    assert_eq!(curve.lookup(30).expect("Failed to lookup value"), 10);
    assert_eq!(curve.lookup(45).expect("Failed to lookup value"), 30);
    assert_eq!(curve.lookup(60).expect("Failed to lookup value"), 50);
    assert_eq!(curve.lookup(70).expect("Failed to lookup value"), 75);
    assert_eq!(curve.lookup(80).expect("Failed to lookup value"), 100);
}

#[test]
fn test_step_curve_lookup() {
    let curve = valve_curve();
    assert_eq!(curve.lookup(-100), Some(ValveState::Open));
    assert_eq!(curve.lookup(0), Some(ValveState::Open));
    assert_eq!(curve.lookup(5950), Some(ValveState::Open));
    assert_eq!(curve.lookup(6000), Some(ValveState::Closed));
    assert_eq!(curve.lookup(9900), Some(ValveState::Closed));
}

#[test]
fn test_lookup_stays_within_curve_range() {
    // The fan curve's values stay between its lowest and highest control
    // points for a sweep of temperatures, including beyond both ends.
    let curve = fan_curve();
    let mut x: i64 = -2000;
    while x <= 12000 {
        let y = curve.lookup(x).expect("Failed to lookup value");
        assert!(120 <= y && y <= 800);
        x += 50;
    }
}
