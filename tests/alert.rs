use batmon::alert::{AlertThrottler, Decision};

const SECOND: u64 = 1000;

fn feed(t: &mut AlertThrottler, readings: &[(u64, u64)]) -> Vec<Decision> {
    readings.iter().map(|&(p, now)| t.observe(p, now)).collect()
}

#[test]
fn low_readings_fire_once_within_refire_interval() {
    let mut t = AlertThrottler::new(1000, Some(60 * SECOND), true);
    let d = feed(&mut t, &[(500, 0), (500, 10 * SECOND), (500, 20 * SECOND)]);
    assert_eq!(d, vec![Decision::Fire, Decision::Suppress, Decision::Suppress]);
}

#[test]
fn rising_above_threshold_rearms() {
    let mut t = AlertThrottler::new(1000, Some(60 * SECOND), true);
    let d = feed(&mut t, &[(500, 0), (1500, 5 * SECOND), (500, 6 * SECOND)]);
    assert_eq!(d, vec![Decision::Fire, Decision::Suppress, Decision::Fire]);
    assert_eq!(t.last_fired_at(), Some(6 * SECOND));
}

#[test]
fn refires_after_interval() {
    let mut t = AlertThrottler::new(1000, Some(60 * SECOND), true);
    let d = feed(
        &mut t,
        &[(500, 0), (500, 59 * SECOND), (500, 60 * SECOND), (500, 100 * SECOND), (500, 120 * SECOND)],
    );
    assert_eq!(
        d,
        vec![Decision::Fire, Decision::Suppress, Decision::Fire, Decision::Suppress, Decision::Fire]
    );
}

#[test]
fn never_fires_without_command() {
    let mut t = AlertThrottler::new(1000, Some(60 * SECOND), false);
    let d = feed(
        &mut t,
        &[(500, 0), (0, 10), (1000, 100 * SECOND), (2000, 101 * SECOND), (1, 500 * SECOND)],
    );
    assert!(d.iter().all(|x| *x == Decision::Suppress));
    assert_eq!(t.last_fired_at(), None);
}

#[test]
fn threshold_itself_counts_as_low() {
    let mut t = AlertThrottler::new(1000, None, true);
    assert_eq!(t.observe(1000, 0), Decision::Fire);
    let mut t = AlertThrottler::new(1000, None, true);
    assert_eq!(t.observe(1001, 0), Decision::Suppress);
}

#[test]
fn without_refire_interval_fires_once_until_rearmed() {
    let mut t = AlertThrottler::new(1000, None, true);
    let d = feed(
        &mut t,
        &[(500, 0), (500, 1_000_000 * SECOND), (1100, 1_000_001 * SECOND), (900, 1_000_002 * SECOND)],
    );
    assert_eq!(d, vec![Decision::Fire, Decision::Suppress, Decision::Suppress, Decision::Fire]);
}

#[test]
fn clock_going_back_counts_as_no_time() {
    let mut t = AlertThrottler::new(1000, Some(0), true);
    assert_eq!(t.observe(500, 100), Decision::Fire);
    assert_eq!(t.observe(500, 50), Decision::Fire);
    let mut t = AlertThrottler::new(1000, Some(10), true);
    assert_eq!(t.observe(500, 100), Decision::Fire);
    assert_eq!(t.observe(500, 50), Decision::Suppress);
}
