use bat_notif::bat::{clamp_percent, BatError, BatState, Bats, RawState, Reading};

fn reading(state: RawState, percent: i64) -> Reading {
    Reading { state, percent }
}

#[test]
fn one_discharging_battery_is_discharging() {
    let bats = Bats::init(vec![reading(RawState::Discharging, 40)]).unwrap();
    assert_eq!(bats.state(false), BatState::Discharging);
    assert_eq!(bats.level(), 40);
}

#[test]
fn adapter_online_overrides_discharging() {
    let bats = Bats::init(vec![reading(RawState::Discharging, 40)]).unwrap();
    assert_eq!(bats.state(true), BatState::Charging);
}

#[test]
fn any_charging_battery_wins() {
    let bats = Bats::init(vec![
        reading(RawState::Discharging, 40),
        reading(RawState::Charging, 60),
    ])
    .unwrap();
    assert_eq!(bats.state(false), BatState::Charging);
}

#[test]
fn full_batteries_without_adapter_are_unknown() {
    let bats = Bats::init(vec![reading(RawState::Full, 100), reading(RawState::Unknown, 90)]).unwrap();
    assert_eq!(bats.state(false), BatState::Unknown);
    assert_eq!(bats.state(true), BatState::Charging);
}

#[test]
fn two_batteries_average() {
    let bats = Bats::init(vec![reading(RawState::Discharging, 80), reading(RawState::Discharging, 20)]).unwrap();
    assert_eq!(bats.level(), 50);
}

#[test]
fn odd_sum_truncates() {
    let bats = Bats::init(vec![reading(RawState::Discharging, 81), reading(RawState::Discharging, 20)]).unwrap();
    assert_eq!(bats.level(), 50);
}

#[test]
fn out_of_range_readings_are_clamped() {
    let bats = Bats::init(vec![
        reading(RawState::Discharging, 150),
        reading(RawState::Discharging, -10),
        reading(RawState::Discharging, 50),
    ])
    .unwrap();
    assert_eq!(bats.level(), 50);
}

#[test]
fn clamp_bounds() {
    assert_eq!(clamp_percent(-1), 0);
    assert_eq!(clamp_percent(0), 0);
    assert_eq!(clamp_percent(73), 73);
    assert_eq!(clamp_percent(100), 100);
    assert_eq!(clamp_percent(i64::MAX), 100);
    assert_eq!(clamp_percent(i64::MIN), 0);
}

#[test]
fn no_batteries_fails_init() {
    assert_eq!(Bats::init(vec![]).err(), Some(BatError::NoBatteriesDetected));
}

#[test]
fn update_replaces_readings() {
    let mut bats = Bats::init(vec![reading(RawState::Discharging, 40)]).unwrap();
    bats.update(vec![reading(RawState::Charging, 10)]);
    assert_eq!(bats.count(), 1);
    assert_eq!(bats.level(), 10);
    assert_eq!(bats.state(false), BatState::Charging);
}
