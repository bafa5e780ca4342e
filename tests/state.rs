use batmon::state::{
    clamp_hundredths, decimal_text, human_duration, whole_number, BatteryState, DeviceState,
    SourceReading, State, StatusRecord,
};

fn reading(percentage: i64, device_state: DeviceState) -> SourceReading {
    SourceReading {
        percentage,
        energy_rate: 3876,
        time_to_full: 5400,
        time_to_empty: 90,
        device_state,
    }
}

#[test]
fn human_duration_examples() {
    assert_eq!(human_duration(30), "30s");
    assert_eq!(human_duration(90), "1m");
    assert_eq!(human_duration(5400), "1.5h");
}

#[test]
fn human_duration_edges() {
    assert_eq!(human_duration(0), "0s");
    assert_eq!(human_duration(59), "59s");
    assert_eq!(human_duration(60), "1m");
    assert_eq!(human_duration(3599), "59m");
    assert_eq!(human_duration(3600), "1.0h");
    assert_eq!(human_duration(3780), "1.0h");
    assert_eq!(human_duration(4140), "1.2h");
    assert_eq!(human_duration(4500), "1.2h");
    assert_eq!(human_duration(5220), "1.4h");
    assert_eq!(human_duration(3781), "1.1h");
    assert_eq!(human_duration(3779), "1.0h");
    assert_eq!(human_duration(36000), "10.0h");
    assert_eq!(human_duration(3600 * 125 + 1700), "125.5h");
    assert!(human_duration(u64::MAX).ends_with('h'));
}

#[test]
fn decimal_text_values() {
    assert_eq!(decimal_text(0), "0");
    assert_eq!(decimal_text(7), "7");
    assert_eq!(decimal_text(43), "43");
    assert_eq!(decimal_text(1000), "1000");
    assert_eq!(decimal_text(u64::MAX), "18446744073709551615");
}

#[test]
fn whole_number_rounds_half_away_from_zero() {
    assert_eq!(whole_number(4260), 43);
    assert_eq!(whole_number(4250), 43);
    assert_eq!(whole_number(4249), 42);
    assert_eq!(whole_number(0), 0);
    assert_eq!(whole_number(3876), 39);
}

#[test]
fn whole_number_negative_is_zero() {
    assert_eq!(whole_number(-30), 0);
    assert_eq!(whole_number(-80), 0);
    assert_eq!(whole_number(i64::MIN), 0);
}

#[test]
fn percentage_field_is_rounded() {
    let s = State::new(4260, 0, BatteryState::Unknown);
    let r = s.record();
    assert_eq!(r.percentage, 43);
    assert_eq!(decimal_text(r.percentage), "43");
}

#[test]
fn percentage_is_clamped() {
    assert_eq!(clamp_hundredths(-1), 0);
    assert_eq!(clamp_hundredths(10001), 10000);
    assert_eq!(clamp_hundredths(5000), 5000);
    assert_eq!(State::new(12000, 0, BatteryState::Unknown).percentage(), 10000);
    assert_eq!(State::new(-500, 0, BatteryState::Unknown).percentage(), 0);
    assert_eq!(State::new(i64::MIN, 0, BatteryState::Unknown).record().percentage, 0);
    assert_eq!(State::new(i64::MAX, 0, BatteryState::Unknown).record().percentage, 100);
}

#[test]
fn every_reading_gives_percentage_in_range() {
    let raws = [i64::MIN, -10000, -1, 0, 1, 4260, 9999, 10000, 10001, 25000, i64::MAX];
    for raw in raws {
        let s = State::from_reading(&reading(raw, DeviceState::Discharging));
        assert!(s.percentage() <= 10000);
        assert!(s.record().percentage <= 100);
    }
}

#[test]
fn from_reading_maps_device_states() {
    let s = State::from_reading(&reading(8000, DeviceState::Charging));
    assert_eq!(s.status(), BatteryState::Charging { time_to_full: 5400 });
    assert_eq!(s.wattage(), 3876);
    assert_eq!(s.percentage(), 8000);
    let s = State::from_reading(&reading(8000, DeviceState::Discharging));
    assert_eq!(s.status(), BatteryState::Discharging { time_to_empty: 90 });
    let s = State::from_reading(&reading(8000, DeviceState::FullyCharged));
    assert_eq!(s.status(), BatteryState::FullyCharged);
    let s = State::from_reading(&reading(8000, DeviceState::PendingCharge));
    assert_eq!(s.status(), BatteryState::NotCharging);
    for other in [
        DeviceState::Unknown,
        DeviceState::Empty,
        DeviceState::PendingDischarge,
    ] {
        assert_eq!(State::from_reading(&reading(8000, other)).status(), BatteryState::Unknown);
    }
}

#[test]
fn from_reading_negative_time_wraps() {
    let mut r = reading(5000, DeviceState::Charging);
    r.time_to_full = -1;
    assert_eq!(
        State::from_reading(&r).status(),
        BatteryState::Charging { time_to_full: u64::MAX }
    );
}

#[test]
fn record_renders_every_field() {
    let r = State::from_reading(&reading(8000, DeviceState::Charging)).record();
    assert_eq!(r.percentage, 80);
    assert_eq!(r.wattage, 39);
    assert_eq!(r.type_tag(), "charging");
    match r.status {
        StatusRecord::Charging { time_to_full } => assert_eq!(time_to_full, "1.5h"),
        _ => panic!("wrong status"),
    }
    let r = State::from_reading(&reading(2000, DeviceState::Discharging)).record();
    assert_eq!(r.type_tag(), "discharging");
    match r.status {
        StatusRecord::Discharging { time_to_empty } => assert_eq!(time_to_empty, "1m"),
        _ => panic!("wrong status"),
    }
    let tags = [
        (BatteryState::FullyCharged, "fully_charged"),
        (BatteryState::NotCharging, "not_charging"),
        (BatteryState::Unknown, "unknown"),
    ];
    for (status, tag) in tags {
        assert_eq!(State::new(5000, -250, status).record().type_tag(), tag);
    }
    assert_eq!(State::new(5000, -250, BatteryState::Unknown).record().wattage, 0);
}
