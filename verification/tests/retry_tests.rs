use network_tool::retry::{RetryAction, RetrySchedule, DURATION_MAX_NS};

#[test]
fn delays_double_after_each_failure() {
    let mut s = RetrySchedule::new(3, 100);
    assert_eq!(s.on_failure(), RetryAction::RetryAfter { failed_attempt: 1, delay_ns: 100 });
    assert_eq!(s.on_failure(), RetryAction::RetryAfter { failed_attempt: 2, delay_ns: 200 });
    assert_eq!(s.on_failure(), RetryAction::RetryAfter { failed_attempt: 3, delay_ns: 400 });
    assert_eq!(s.on_failure(), RetryAction::GiveUp { attempts: 4 });
}

#[test]
fn no_retries_gives_up_after_one_try() {
    let mut s = RetrySchedule::new(0, 1_000_000_000);
    assert_eq!(s.on_failure(), RetryAction::GiveUp { attempts: 1 });
}

#[test]
fn backoff_fits_until_the_duration_range_ends() {
    let s = RetrySchedule::new(2, DURATION_MAX_NS / 2);
    assert!(s.backoff_fits());
    let s = RetrySchedule::new(2, DURATION_MAX_NS / 2 + 1);
    assert!(!s.backoff_fits());
    let s = RetrySchedule::new(0, DURATION_MAX_NS);
    assert!(s.backoff_fits());
}

#[test]
fn duration_range_matches_std() {
    assert_eq!(DURATION_MAX_NS, std::time::Duration::MAX.as_nanos());
}

#[test]
fn two_retries_from_one_millisecond() {
    let mut s = RetrySchedule::new(2, 1_000_000);
    assert_eq!(s.delay_ns(), 1_000_000);
    assert_eq!(s.on_failure(), RetryAction::RetryAfter { failed_attempt: 1, delay_ns: 1_000_000 });
    assert_eq!(s.delay_ns(), 2_000_000);
    assert_eq!(s.on_failure(), RetryAction::RetryAfter { failed_attempt: 2, delay_ns: 2_000_000 });
    assert_eq!(s.attempt_index(), 2);
    assert_eq!(s.retries_allowed(), 2);
}
