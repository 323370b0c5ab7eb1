use bat_notif::bat::{BatState, Bats, RawState, Reading};
use bat_notif::config::{default_interval, default_low_pct, Config};
use bat_notif::monitor::{is_low, Announce, LowAction, Monitor};

fn one(state: RawState, percent: i64) -> Bats {
    Bats::init(vec![Reading { state, percent }]).unwrap()
}

#[test]
fn scenario_discharging_above_threshold() {
    let bats = one(RawState::Discharging, 40);
    let mut m = Monitor::new(bats.state(false));
    let t = m.observe(&bats, false, 15);
    assert_eq!(m.previous, BatState::Discharging);
    assert_eq!(t.announce, None);
    assert_eq!(t.low, LowAction::Nothing);
}

#[test]
fn scenario_low_then_adapter_online() {
    let mut bats = one(RawState::Discharging, 40);
    let mut m = Monitor::new(bats.state(false));
    m.observe(&bats, false, 15);

    bats.update(vec![Reading { state: RawState::Discharging, percent: 10 }]);
    let t = m.observe(&bats, false, 15);
    assert_eq!(m.previous, BatState::Discharging);
    assert_eq!(t.announce, None);
    assert_eq!(t.low, LowAction::Show);
    assert!(m.low_shown);

    let t = m.observe(&bats, true, 15);
    assert_eq!(m.previous, BatState::Charging);
    assert_eq!(t.announce, Some(Announce::Charging));
    assert_eq!(t.low, LowAction::Close);
    assert!(!m.low_shown);
}

#[test]
fn repeated_charging_announces_once() {
    let mut m = Monitor::new(BatState::Discharging);
    let mut count = 0;
    for _ in 0..5 {
        if m.once(BatState::Charging, 80, 15).announce.is_some() {
            count += 1;
        }
    }
    assert_eq!(count, 1);
    assert_eq!(m.previous, BatState::Charging);
}

#[test]
fn unknown_sample_keeps_previous() {
    let mut m = Monitor::new(BatState::Discharging);
    let t = m.once(BatState::Unknown, 80, 15);
    assert_eq!(m.previous, BatState::Discharging);
    assert_eq!(t.announce, None);
    let t = m.once(BatState::Charging, 80, 15);
    assert_eq!(t.announce, Some(Announce::Charging));
    let t = m.once(BatState::Unknown, 80, 15);
    assert_eq!(m.previous, BatState::Charging);
    assert_eq!(t.announce, None);
}

#[test]
fn unknown_origin_announces_both_ways() {
    let mut m = Monitor::new(BatState::Unknown);
    assert_eq!(m.once(BatState::Discharging, 80, 15).announce, Some(Announce::Discharging));
    let mut m = Monitor::new(BatState::Unknown);
    assert_eq!(m.once(BatState::Charging, 80, 15).announce, Some(Announce::Charging));
    assert_eq!(m.once(BatState::Discharging, 80, 15).announce, Some(Announce::Discharging));
}

#[test]
fn low_warning_shown_once_per_run() {
    let mut m = Monitor::new(BatState::Discharging);
    assert_eq!(m.once(BatState::Discharging, 10, 15).low, LowAction::Show);
    assert_eq!(m.once(BatState::Discharging, 9, 15).low, LowAction::Nothing);
    assert_eq!(m.once(BatState::Unknown, 8, 15).low, LowAction::Nothing);
    assert_eq!(m.once(BatState::Charging, 8, 15).low, LowAction::Close);
    assert_eq!(m.once(BatState::Charging, 8, 15).low, LowAction::Nothing);
    assert_eq!(m.once(BatState::Discharging, 8, 15).low, LowAction::Show);
}

#[test]
fn low_warning_shown_again_after_failure() {
    let mut m = Monitor::new(BatState::Discharging);
    assert_eq!(m.once(BatState::Discharging, 10, 15).low, LowAction::Show);
    m.show_failed();
    assert!(!m.low_shown);
    assert_eq!(m.once(BatState::Discharging, 10, 15).low, LowAction::Show);
}

#[test]
fn low_threshold_is_inclusive() {
    assert!(is_low(15, 15));
    assert!(is_low(0, 15));
    assert!(!is_low(16, 15));
    let mut m = Monitor::new(BatState::Discharging);
    assert_eq!(m.once(BatState::Discharging, 15, 15).low, LowAction::Show);
}

#[test]
fn no_low_warning_while_charging() {
    let mut m = Monitor::new(BatState::Charging);
    let t = m.once(BatState::Charging, 5, 15);
    assert_eq!(t.announce, None);
    assert_eq!(t.low, LowAction::Nothing);
    assert!(!m.low_shown);
}

#[test]
fn default_config() {
    let c = Config::default();
    assert_eq!(c.interval, 10);
    assert_eq!(c.low_pct, 15);
    assert_eq!(c.interval().as_secs(), 10);
    assert_eq!(default_interval(), 10);
    assert_eq!(default_low_pct(), 15);
}

#[test]
fn configured_interval() {
    let c = Config::new(42, 20);
    assert_eq!(c.interval().as_secs(), 42);
    assert_eq!(c.low_pct, 20);
}
