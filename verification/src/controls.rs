//! The host control loop: the three activation curves and the fuser that
//! turns the latest sensor snapshots into a control frame. Temperatures are
//! in hundredths of a degree Celsius and percentages in eighths of a percent,
//! so a curve point `(5000, 240)` reads: at 50 degrees, 30 percent.
use vstd::prelude::*;
use crate::client_sensor_data::ClientSensorData;
use crate::control_event::{ControlEvent, ControlEventModel};
use crate::curve::{spec_lookup, spec_step_lookup, Curve, ValveCurve};
use crate::host_sensor_data::HostSensorData;
use crate::percentage::{Percentage, PERCENT_EIGHTHS_MAX};
use crate::rpm::Rpm;
use crate::temperature::Temperature;
use crate::valve::ValveState;

verus! {

/// Closed-loop feedback sensitivity `K = 0.15`, as the fraction 3/20.
/// A higher value means a more sensitive pump response.
pub const PUMP_SENSITIVITY_NUM: i64 = 3;

/// Denominator of the feedback sensitivity fraction.
pub const PUMP_SENSITIVITY_DEN: i64 = 20;

/// The pump curve's control points: 30 percent up to 50 degrees, rising to
/// 90 percent at 80 degrees and 100 percent at 85 degrees.
pub open spec fn pump_curve_points() -> Seq<(i64, i64)> {
    seq![(0i64, 240i64), (5000i64, 240i64), (8000i64, 720i64), (8500i64, 800i64)]
}

/// The fan curve's control points: 15 percent up to 60 degrees, rising to
/// 100 percent at 85 degrees.
pub open spec fn fan_curve_points() -> Seq<(i64, i64)> {
    seq![(0i64, 120i64), (6000i64, 120i64), (8500i64, 800i64)]
}

/// The valve curve's control points: open through 59 degrees, closed from 60
/// degrees on.
pub open spec fn valve_curve_points() -> Seq<(i64, ValveState)> {
    seq![(0i64, ValveState::Open), (5900i64, ValveState::Open), (6000i64, ValveState::Closed)]
}

/// Build the pump activation curve.
pub fn pump_curve() -> (c: Curve)
    ensures
        c@ == pump_curve_points(),
{
    let mut points: Vec<(i64, i64)> = Vec::new();
    points.push((0, 240));
    points.push((5000, 240));
    points.push((8000, 720));
    points.push((8500, 800));
    assert(points@ =~= pump_curve_points());
    Curve::new(points).unwrap()
}

/// Build the fan activation curve.
pub fn fan_curve() -> (c: Curve)
    ensures
        c@ == fan_curve_points(),
{
    let mut points: Vec<(i64, i64)> = Vec::new();
    points.push((0, 120));
    points.push((6000, 120));
    points.push((8500, 800));
    assert(points@ =~= fan_curve_points());
    Curve::new(points).unwrap()
}

/// Build the valve curve.
pub fn valve_curve() -> (c: ValveCurve)
    ensures
        c@ == valve_curve_points(),
{
    let mut points: Vec<(i64, ValveState)> = Vec::new();
    points.push((0, ValveState::Open));
    points.push((5900, ValveState::Open));
    points.push((6000, ValveState::Closed));
    assert(points@ =~= valve_curve_points());
    ValveCurve::new(points).unwrap()
}

/// Basic proportional feedback: move `current` toward `target` by the
/// sensitivity fraction of their distance, the step truncated toward
/// `current`. Both are percentages in eighths of a percent.
pub open spec fn spec_feedback(current: int, target: int) -> int {
    if target >= current {
        current + (target - current) * (PUMP_SENSITIVITY_NUM as int) / (
        PUMP_SENSITIVITY_DEN as int)
    } else {
        current - (current - target) * (PUMP_SENSITIVITY_NUM as int) / (
        PUMP_SENSITIVITY_DEN as int)
    }
}

/// Apply basic feedback with the pump sensitivity parameter. The result lies
/// between `current` and `target`, so it is a valid percentage whenever both
/// arguments are.
pub fn apply_feedback(current: i64, target: i64) -> (r: i64)
    requires
        0 <= current <= PERCENT_EIGHTHS_MAX,
        0 <= target <= PERCENT_EIGHTHS_MAX,
    ensures
        r == spec_feedback(current as int, target as int),
        current <= target ==> current <= r <= target,
        target <= current ==> target <= r <= current,
{
    if target >= current {
        let q = (target - current) * PUMP_SENSITIVITY_NUM / PUMP_SENSITIVITY_DEN;
        proof {
            lemma_feedback_step_bounds((target - current) as int);
        }
        current + q
    } else {
        let q = (current - target) * PUMP_SENSITIVITY_NUM / PUMP_SENSITIVITY_DEN;
        proof {
            lemma_feedback_step_bounds((current - target) as int);
        }
        current - q
    }
}

/// The feedback step never overshoots: for a non-negative distance `d`, the
/// step `d * 3 / 20` lies between `0` and `d`.
proof fn lemma_feedback_step_bounds(d: int)
    requires
        d >= 0,
    ensures
        0 <= d * (PUMP_SENSITIVITY_NUM as int) / (PUMP_SENSITIVITY_DEN as int) <= d,
{
    vstd::arithmetic::mul::lemma_mul_nonnegative(d, PUMP_SENSITIVITY_NUM as int);
    vstd::arithmetic::div_mod::lemma_div_pos_is_pos(
        d * (PUMP_SENSITIVITY_NUM as int),
        PUMP_SENSITIVITY_DEN as int,
    );
    vstd::arithmetic::mul::lemma_mul_inequality(
        PUMP_SENSITIVITY_NUM as int,
        PUMP_SENSITIVITY_DEN as int,
        d,
    );
    vstd::arithmetic::mul::lemma_mul_is_commutative(d, PUMP_SENSITIVITY_NUM as int);
    vstd::arithmetic::mul::lemma_mul_is_commutative(d, PUMP_SENSITIVITY_DEN as int);
    vstd::arithmetic::div_mod::lemma_div_is_ordered(
        d * (PUMP_SENSITIVITY_NUM as int),
        d * (PUMP_SENSITIVITY_DEN as int),
        PUMP_SENSITIVITY_DEN as int,
    );
    vstd::arithmetic::div_mod::lemma_div_multiples_vanish(d, PUMP_SENSITIVITY_DEN as int);
}

/// The pump percentage the fuser computes: the measured pump speed as a
/// percentage of its maximum, moved toward the pump curve's value at the
/// host temperature by the feedback fraction.
pub open spec fn spec_pump_target(pump: crate::packet::RpmModel, centi_celsius: int) -> int
    recommends
        pump.max > 0,
{
    spec_feedback(
        pump.speed * (PERCENT_EIGHTHS_MAX as int) / pump.max,
        spec_lookup(pump_curve_points(), centi_celsius),
    )
}

/// The control frame the fuser computes from the latest sensor snapshots.
pub open spec fn spec_generate_control_frame(
    client: ClientSensorData,
    host: HostSensorData,
) -> ControlEventModel {
    ControlEventModel {
        fan: spec_lookup(fan_curve_points(), host.cpu_temperature.spec_centi()),
        pump: spec_pump_target(client.pump_speed@, host.cpu_temperature.spec_centi()),
        valve: spec_step_lookup(valve_curve_points(), host.cpu_temperature.spec_centi()),
    }
}

/// Fuse the latest embedded-hardware sensor snapshot with the latest host
/// temperature sample into a control frame: fan and valve from their curves
/// at the host temperature, pump from its curve with proportional feedback
/// on the measured pump speed.
pub fn generate_control_frame(client: &ClientSensorData, host: &HostSensorData) -> (r:
    ControlEvent)
    requires
        client.pump_speed@.max > 0,
    ensures
        r@ == spec_generate_control_frame(*client, *host),
{
    let temperature = host.cpu_temperature;
    let target_pump_percent = pump_controller(&temperature, &client.pump_speed);
    let target_fan_percent = match fan_curve().lookup(temperature.centi_celsius() as i64) {
        None => Percentage::from_eighths(PERCENT_EIGHTHS_MAX),
        Some(eighths) => {
            proof {
                lemma_fan_lookup_in_range(temperature.spec_centi());
            }
            Percentage::from_eighths(eighths as i16)
        },
    };
    let target_valve_state = match valve_curve().lookup(temperature.centi_celsius() as i64) {
        None => ValveState::Open,
        Some(state) => state,
    };
    ControlEvent {
        fan_activation: target_fan_percent,
        pump_activation: target_pump_percent,
        valve_state: target_valve_state,
    }
}

/// The fan curve's values are percentages: every lookup lands in range.
proof fn lemma_fan_lookup_in_range(x: int)
    ensures
        0 <= spec_lookup(fan_curve_points(), x) <= PERCENT_EIGHTHS_MAX,
{
    crate::curve::lemma_lookup_in_y_range(fan_curve_points(), x, 0, PERCENT_EIGHTHS_MAX as int);
}

/// The pump curve's values are percentages: every lookup lands in range.
proof fn lemma_pump_lookup_in_range(x: int)
    ensures
        0 <= spec_lookup(pump_curve_points(), x) <= PERCENT_EIGHTHS_MAX,
{
    crate::curve::lemma_lookup_in_y_range(pump_curve_points(), x, 0, PERCENT_EIGHTHS_MAX as int);
}

/// Apply the pump controller: the pump curve's value at the host temperature
/// with proportional feedback on the measured pump speed.
fn pump_controller(temperature: &Temperature, pump_rpm: &Rpm) -> (r: Percentage)
    requires
        pump_rpm@.max > 0,
    ensures
        r@ == spec_pump_target(pump_rpm@, temperature.spec_centi()),
{
    let target_activation = match pump_curve().lookup(temperature.centi_celsius() as i64) {
        None => Percentage::from_eighths(PERCENT_EIGHTHS_MAX),
        Some(eighths) => {
            proof {
                lemma_pump_lookup_in_range(temperature.spec_centi());
            }
            Percentage::from_eighths(eighths as i16)
        },
    };
    let current_speed_percentage = pump_rpm.into_percentage();
    let feedback = apply_feedback(
        current_speed_percentage.value() as i64,
        target_activation.value() as i64,
    );
    Percentage::from_eighths(feedback as i16)
}

} // verus!
