use iroh_http_server::drain::{
    drain_deadline, drain_deadline_at, drain_start, wait_for_zero_at, wait_for_zero_until,
    ZeroWait,
};
use iroh_http_server::time::{Clock, Duration, Moment, LAST_MOMENT, LAST_READING};

fn at(nanos: u128) -> Moment {
    Moment::from_nanos(nanos).expect("representable")
}

fn after(start: Moment, end: Moment) -> bool {
    !end.saturating_duration_since(start).is_zero()
}

#[test]
fn drain_deadline_saturates_on_huge_timeout() {
    let now = tokio::time::Instant::now();
    let deadline = now
        .checked_add(std::time::Duration::from_millis(u64::MAX))
        .unwrap_or_else(|| {
            tokio::time::Instant::now() + std::time::Duration::from_secs(86_400)
        });
    assert!(deadline > now);

    let clock = Clock::start();
    let now = clock.now();
    let deadline = drain_deadline(&clock, Duration::from_millis(u64::MAX));
    assert!(after(now, deadline));
}

#[test]
fn a_deadline_that_the_clock_cannot_hold_is_one_day_away() {
    assert_eq!(
        drain_deadline_at(at(5), Duration::from_secs(u64::MAX), false),
        at(5 + 86_400_000_000_000)
    );
    assert_eq!(
        drain_deadline_at(at(5), Duration::from_secs(1), false),
        at(5 + 86_400_000_000_000)
    );
    assert_eq!(
        drain_deadline_at(at(LAST_READING), Duration::from_secs(u64::MAX), false),
        at(LAST_MOMENT)
    );
}

#[test]
fn a_deadline_is_the_timeout_away() {
    assert_eq!(
        drain_deadline_at(at(1_000), Duration::from_millis(30_000), true),
        at(30_000_001_000)
    );
    assert_eq!(
        drain_deadline_at(at(7), Duration::from_millis(0), true),
        at(7)
    );
    assert_eq!(
        drain_deadline_at(at(LAST_READING), Duration::from_secs(86_400), true),
        at(LAST_MOMENT)
    );
}

#[test]
fn the_machine_decides_which_deadlines_can_be_held() {
    let clock = Clock::start();
    assert!(clock.reaches(at(0)));
    for secs in [
        0,
        30,
        86_401,
        1 << 40,
        u64::MAX / 2 - 1_000_000_000_000,
        u64::MAX / 2,
        u64::MAX / 2 + 1,
        u64::MAX,
    ] {
        let span = std::time::Duration::from_secs(secs);
        let held = tokio::time::Instant::now().checked_add(span).is_some();
        let (start, reached) = drain_start(&clock, Duration::from_secs(secs));
        assert_eq!(reached, held);
        let away = drain_deadline(&clock, Duration::from_secs(secs))
            .saturating_duration_since(start)
            .as_secs();
        let expected = if held { secs } else { 86_400 };
        assert!(away == expected || away == expected + 1);
    }
}

#[test]
fn waiting_ends_by_zero_or_by_the_deadline() {
    let deadline = at(100);
    assert_eq!(wait_for_zero_at(0, deadline, at(99)), ZeroWait::Zero);
    assert_eq!(wait_for_zero_at(0, deadline, at(200)), ZeroWait::Zero);
    assert_eq!(wait_for_zero_at(1, deadline, at(100)), ZeroWait::Expired);
    assert_eq!(wait_for_zero_at(1, deadline, at(101)), ZeroWait::Expired);
    match wait_for_zero_at(3, deadline, at(40)) {
        ZeroWait::Pending(span) => assert_eq!(span.as_nanos(), 60),
        other => panic!("expected to wait, got {other:?}"),
    }
}

#[test]
fn waiting_on_a_real_clock() {
    let clock = Clock::start();
    let deadline = drain_deadline(&clock, Duration::from_secs(3_600));
    assert_eq!(wait_for_zero_until(0, deadline, &clock), ZeroWait::Zero);
    match wait_for_zero_until(1, deadline, &clock) {
        ZeroWait::Pending(span) => assert!(span.as_secs() >= 3_500),
        other => panic!("expected to wait, got {other:?}"),
    }
    assert_eq!(wait_for_zero_until(1, at(0), &clock), ZeroWait::Expired);
}

#[test]
fn a_clock_counts_from_its_start() {
    let clock = Clock::start();
    let first = clock.now();
    assert!(first.saturating_duration_since(at(0)).as_secs() < 10);
    tokio::runtime::Builder::new_current_thread()
        .enable_time()
        .build()
        .expect("runtime")
        .block_on(async { tokio::time::sleep(std::time::Duration::from_millis(5)).await });
    let second = clock.now();
    let passed = second.saturating_duration_since(first);
    assert!(passed.as_nanos() >= 4_000_000);
    assert!(first.saturating_duration_since(second).is_zero());
}

#[test]
fn clock_readings_stop_at_the_last_one() {
    assert_eq!(Clock::reading(12), at(12));
    assert_eq!(Clock::reading(LAST_READING), at(LAST_READING));
    assert_eq!(Clock::reading(u128::MAX), at(LAST_READING));
    assert!(Moment::from_nanos(LAST_MOMENT + 1).is_none());
}

#[test]
fn spans_in_their_units() {
    let span = Duration::from_millis(12_345);
    assert_eq!(span.as_secs(), 12);
    assert_eq!(span.subsec_nanos(), 345_000_000);
    assert_eq!(span.as_nanos(), 12_345_000_000);
    assert_eq!(Duration::from_millis(2_000), Duration::from_secs(2));
    assert!(Duration::from_secs(0).is_zero());
    assert!(!Duration::from_millis(1).is_zero());
    assert_eq!(
        at(LAST_MOMENT).checked_add(Duration::from_millis(1)),
        None
    );
    assert_eq!(
        Duration::from_secs(u64::MAX).as_nanos(),
        std::time::Duration::from_secs(u64::MAX).as_nanos()
    );
}
