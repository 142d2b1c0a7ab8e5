use unseen_mail::backoff::Backoff;
use unseen_mail::backoff::Retry;
use unseen_mail::backoff::ESCALATION_THRESHOLD;
use unseen_mail::backoff::INITIAL_DELAY;

#[test]
fn standard_schedule_starts_at_one_second() {
    let b = Backoff::standard();
    assert_eq!(INITIAL_DELAY, 1);
    assert_eq!(ESCALATION_THRESHOLD, 256);
    assert_eq!(b, Backoff { initial: 1, threshold: 256, delay: 1 });
}

#[test]
fn three_failures_from_two_seconds_sleep_2_4_8() {
    let mut b = Backoff::new(2, 256);
    assert_eq!(b.fail(), Retry { seconds: 2, escalate: false });
    assert_eq!(b.fail(), Retry { seconds: 4, escalate: false });
    assert_eq!(b.fail(), Retry { seconds: 8, escalate: false });
    assert_eq!(b.fail(), Retry { seconds: 16, escalate: false });
}

#[test]
fn threshold_of_eight_escalates_the_third_failure() {
    let mut b = Backoff::new(2, 8);
    assert_eq!(b.fail(), Retry { seconds: 2, escalate: false });
    assert_eq!(b.fail(), Retry { seconds: 4, escalate: false });
    assert_eq!(b.fail(), Retry { seconds: 8, escalate: true });
    assert_eq!(b.fail(), Retry { seconds: 16, escalate: true });
}

#[test]
fn standard_schedule_escalates_at_256_seconds() {
    let mut b = Backoff::standard();
    let mut expected: u64 = 1;
    while expected < 256 {
        assert_eq!(b.fail(), Retry { seconds: expected, escalate: false });
        expected *= 2;
    }
    assert_eq!(b.fail(), Retry { seconds: 256, escalate: true });
    assert_eq!(b.fail(), Retry { seconds: 512, escalate: true });
}

#[test]
fn success_resets_the_delay() {
    let mut b = Backoff::new(3, 100);
    b.fail();
    b.fail();
    assert_eq!(b.delay, 12);
    b.succeed();
    assert_eq!(b, Backoff { initial: 3, threshold: 100, delay: 3 });
    assert_eq!(b.fail(), Retry { seconds: 3, escalate: false });
}

#[test]
fn delay_stops_at_the_largest_value() {
    let mut b = Backoff::new(1 << 62, u64::MAX);
    assert_eq!(b.fail().seconds, 1 << 62);
    assert_eq!(b.fail().seconds, 1 << 63);
    assert_eq!(b.fail(), Retry { seconds: u64::MAX, escalate: true });
    assert_eq!(b.fail(), Retry { seconds: u64::MAX, escalate: true });
}

#[test]
fn zero_delay_stays_zero() {
    let mut b = Backoff::new(0, 1);
    assert_eq!(b.fail(), Retry { seconds: 0, escalate: false });
    assert_eq!(b.fail(), Retry { seconds: 0, escalate: false });
}

#[test]
fn zero_threshold_escalates_at_once() {
    let mut b = Backoff::new(1, 0);
    assert_eq!(b.fail(), Retry { seconds: 1, escalate: true });
}
