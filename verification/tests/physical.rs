//! Tests of the physical-unit value types: percentages, rotation speeds,
//! valve states, temperatures and clock frequencies.
use prandtl::add;
use prandtl::models::{ClockFrequency, ClockFrequencyError, PacketType, Rpm as BoundedRpm};
use prandtl::percentage::Percentage;
use prandtl::rpm::Rpm;
use prandtl::temperature::Temperature;
use prandtl::valve::ValveState;

#[test]
fn it_works() {
    let result = add(2, 2);
    assert_eq!(result, 4);
}

#[test]
fn test_creation_with_quarter_steps() {
    // -5 percent, as eighths of a percent.
    let percent = Percentage::new(-40);
    assert!(percent.is_err());

    // Every quarter-percent step from 0 to 100 percent is representable.
    for i in 0..400i16 {
        let eighths = i * 2;
        let percent = Percentage::new(eighths).expect("Failed to get valid Percentage representation.");
        assert_eq!(percent.value(), eighths);
    }

    // 105 percent.
    let percent = Percentage::new(840);
    assert!(percent.is_err());
}

#[test]
fn test_sub_working_cases() {
    let perc1 = Percentage::new(400).expect("Failed to get Percentage.");
    let perc2 = perc1.clone();
    let perc3 = Percentage::new(200).expect("Failed to get Percentage.");

    let new_perc = perc1.sub(perc2).expect("Failed to subtract Percentages.");
    assert_eq!(new_perc.value(), 0);

    let new_perc = perc1.sub(perc3).expect("Failed to subtract Percentages.");
    assert_eq!(new_perc.value(), 200);
}

#[test]
fn test_sub_failing_cases() {
    let perc1 = Percentage::new(400).expect("Failed to get Percentage.");
    let perc2 = Percentage::new(600).expect("Failed to get Percentage.");

    let new_perc = perc1.sub(perc2);
    assert!(new_perc.is_err());
}

#[test]
fn rpm_test_new() {
    // 2300 RPM maximum cannot hold 4000 RPM, in hundredths of an RPM.
    let rpm = Rpm::new(230000, 400000);
    assert!(rpm.is_err());

    let rpm = Rpm::new(230000, 230000);
    assert!(rpm.is_ok());

    let rpm = rpm.unwrap();
    assert_eq!(rpm.speed(), 230000);
}

#[test]
fn test_into_f32() {
    // 2300 RPM maximum, 2000 RPM current, in hundredths of an RPM.
    let rpm = Rpm::new(230000, 200000).expect("Failed to get RPM representation.");
    assert_eq!(rpm.speed(), 200000);

    // 100 RPM maximum, 50.01 RPM current.
    let rpm = Rpm::new(10000, 5001).expect("Failed to get RPM representation.");
    assert_eq!(rpm.speed(), 5001);

    // 5000 RPM maximum, 3250.20 RPM current.
    let rpm = Rpm::new(500000, 325020).expect("Failed to get RPM representation.");
    assert_eq!(rpm.speed(), 325020);
}

#[test]
fn test_rpm_sub_working_cases() {
    let rpm1 = Rpm::new(100000, 50000).expect("Failed to get RPM");
    let rpm2 = rpm1.clone();
    let rpm3 = Rpm::new(100000, 25000).expect("Failed to get RPM");

    let new_rpm = rpm1.sub(rpm3);
    assert!(new_rpm.is_ok());

    let new_rpm = new_rpm.expect("Failed to subtract RPMs!");
    assert_eq!(new_rpm.speed(), 25000);

    let new_rpm = rpm1.sub(rpm2);
    assert!(new_rpm.is_ok());

    let new_rpm = new_rpm.expect("Failed to subtract RPMs!");
    assert_eq!(new_rpm.speed(), 0);
}

#[test]
fn test_rpm_sub_failing_cases() {
    let rpm1 = Rpm::new(100000, 50000).expect("Failed to get RPM");
    let rpm2 = Rpm::new(300000, 250000).expect("Failed to get RPM");

    let new_rpm = rpm1.sub(rpm2);
    assert!(new_rpm.is_err());
}

#[test]
fn test_rpm_into_percentage() {
    // 1000 RPM maximum at 500 RPM reads as 50 percent.
    let rpm = Rpm::new(100000, 50000).expect("Failed to generate RPM.");
    let percentage = rpm.into_percentage();
    assert_eq!(percentage, Percentage::new(400).expect("Failed to generate Percentage"));
}

#[test]
fn test_valve_state_from_pins() {
    assert_eq!(ValveState::from((true, false)), ValveState::Open);
    assert_eq!(ValveState::from((false, true)), ValveState::Closed);
    assert_eq!(ValveState::from((true, true)), ValveState::Unknown);
    assert_eq!(ValveState::from((false, false)), ValveState::Unknown);
}

#[test]
fn test_valve_state_into_pins() {
    assert_eq!(ValveState::Open.into_pins(), (true, false));
    assert_eq!(ValveState::Opening.into_pins(), (true, false));
    assert_eq!(ValveState::Closed.into_pins(), (false, true));
    assert_eq!(ValveState::Closing.into_pins(), (false, true));
    // Unknown fail-safes to open.
    assert_eq!(ValveState::Unknown.into_pins(), (true, false));
}

#[test]
fn test_valve_state_collapsed() {
    assert_eq!(ValveState::Opening.collapsed(), ValveState::Open);
    assert_eq!(ValveState::Closing.collapsed(), ValveState::Closed);
    assert_eq!(ValveState::Unknown.collapsed(), ValveState::Open);
    assert_eq!(ValveState::Open.collapsed(), ValveState::Open);
    assert_eq!(ValveState::Closed.collapsed(), ValveState::Closed);
}

#[test]
fn test_temperature_bounds() {
    // 100 degrees Celsius is the highest constructible temperature.
    assert!(Temperature::new(10000).is_ok());
    assert!(Temperature::new(10001).is_err());
    let t = Temperature::new(-2000).expect("Failed to get Temperature.");
    assert_eq!(t.centi_celsius(), -2000);
}

#[test]
fn test_bounded_rpm() {
    let rpm: Result<BoundedRpm<3200>, _> = BoundedRpm::new(3100);
    assert!(rpm.is_ok());
    assert_eq!(rpm.unwrap().value, 3100);
    let rpm: Result<BoundedRpm<3200>, _> = BoundedRpm::new(3300);
    assert!(rpm.is_err());

    let rpm: BoundedRpm<3200> = BoundedRpm::try_from_norm(65535).expect("Failed to get RPM.");
    assert_eq!(rpm.value, 257);
    assert_eq!(rpm.into_norm(), 1);

    let rpm: BoundedRpm<65535> = BoundedRpm::new(65535).expect("Failed to get RPM.");
    assert_eq!(rpm.into_norm(), 255);
}

#[test]
fn test_clock_frequency() {
    let freq = ClockFrequency::new(4800).expect("Failed to get ClockFrequency.");
    assert_eq!(freq.megahertz, 4800);
    assert_eq!(ClockFrequency::new(5001), Err(ClockFrequencyError::OutOfRange));
    let _ = PacketType::RequestConnection;
}
