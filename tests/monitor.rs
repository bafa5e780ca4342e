use batmon::feed::{min_poll_interval, ChangeFeed, ChangeKind, Wake};
use batmon::monitor::Monitor;
use batmon::output::OutputDedup;
use batmon::state::{BatteryState, State};

fn snap(p: i64) -> State {
    State::new(p, 0, BatteryState::Unknown)
}

#[test]
fn two_waiting_cursors_both_see_publish() {
    let mut m = Monitor::new(snap(5000));
    let mut a = m.subscribe();
    let mut b = m.subscribe();
    assert_eq!(m.changed_state(&mut a), None);
    assert_eq!(m.changed_state(&mut b), None);
    m.publish(snap(4000));
    assert_eq!(m.changed_state(&mut a), Some(snap(4000)));
    assert_eq!(m.changed_state(&mut b), Some(snap(4000)));
    assert_eq!(m.changed_state(&mut a), None);
}

#[test]
fn late_cursor_does_not_receive_earlier_publish() {
    let mut m = Monitor::new(snap(5000));
    m.publish(snap(4000));
    let mut late = m.subscribe();
    assert_eq!(m.changed_state(&mut late), None);
    m.publish(snap(3000));
    assert_eq!(m.changed_state(&mut late), Some(snap(3000)));
    assert_eq!(m.changed_state(&mut late), None);
}

#[test]
fn unchanged_content_still_wakes() {
    let mut m = Monitor::new(snap(5000));
    let mut c = m.subscribe();
    m.publish(snap(5000));
    assert_eq!(m.changed_state(&mut c), Some(snap(5000)));
    assert_eq!(m.version(), 1);
}

#[test]
fn reader_skips_to_latest() {
    let mut m = Monitor::new(snap(5000));
    let mut c = m.subscribe();
    m.publish(snap(4000));
    m.publish(snap(3000));
    m.publish(snap(2000));
    assert_eq!(m.changed_state(&mut c), Some(snap(2000)));
    assert_eq!(m.changed_state(&mut c), None);
    assert_eq!(m.current(), snap(2000));
}

#[test]
fn identical_text_emitted_once() {
    let mut d = OutputDedup::new();
    assert!(d.offer(String::from("{\"percentage\":43}")));
    assert!(!d.offer(String::from("{\"percentage\":43}")));
    assert!(d.offer(String::from("{\"percentage\":42}")));
    assert!(d.offer(String::from("{\"percentage\":43}")));
}

#[test]
fn poll_floor_is_the_shorter_interval() {
    assert_eq!(min_poll_interval(Some(10), Some(60)), Some(10));
    assert_eq!(min_poll_interval(Some(60), Some(10)), Some(10));
    assert_eq!(min_poll_interval(Some(10), None), Some(10));
    assert_eq!(min_poll_interval(None, Some(60)), Some(60));
    assert_eq!(min_poll_interval(None, None), None);
}

#[test]
fn no_floor_never_wakes_by_timer() {
    let mut f = ChangeFeed::new(None, 0);
    assert_eq!(f.deadline(), None);
    for now in [0, 1, 1000, u64::MAX] {
        assert!(!f.on_wake(Wake::Timer, now));
    }
    assert!(f.on_wake(Wake::Signal(ChangeKind::Percentage), 5));
}

#[test]
fn floor_sets_deadline() {
    let mut f = ChangeFeed::new(Some(10_000), 1_000);
    assert_eq!(f.floor(), Some(10_000));
    assert_eq!(f.deadline(), Some(11_000));
    assert!(!f.on_wake(Wake::Timer, 10_999));
    assert!(f.on_wake(Wake::Timer, 11_000));
    assert_eq!(f.deadline(), Some(21_000));
    assert!(f.on_wake(Wake::Signal(ChangeKind::Energy), 12_000));
    assert_eq!(f.deadline(), Some(22_000));
    let f = ChangeFeed::new(Some(u64::MAX), 5);
    assert_eq!(f.deadline(), Some(u64::MAX));
}

#[test]
fn every_signal_kind_reads() {
    let mut f = ChangeFeed::new(Some(60_000), 0);
    for k in [
        ChangeKind::Energy,
        ChangeKind::Percentage,
        ChangeKind::ChargeState,
        ChangeKind::BatteryLevel,
    ] {
        assert!(f.on_wake(Wake::Signal(k), 1));
    }
}
