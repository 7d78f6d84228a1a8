use rustic::ratelimit::{Bucket, RateDecision, RateLimiter};

#[test]
fn one_call_per_five_seconds() {
    let mut rl = RateLimiter::new(Bucket { time_span: 5, limit: 1 });
    assert_eq!(rl.check(9, 100), RateDecision::Allowed);
    assert_eq!(rl.check(9, 102), RateDecision::Limited { retry_after: 3, first_notice: true });
    assert_eq!(rl.check(9, 104), RateDecision::Limited { retry_after: 1, first_notice: false });
    assert_eq!(rl.check(9, 105), RateDecision::Allowed);
}

#[test]
fn scopes_are_separate() {
    let mut rl = RateLimiter::new(Bucket { time_span: 5, limit: 1 });
    assert_eq!(rl.check(1, 0), RateDecision::Allowed);
    assert_eq!(rl.check(2, 0), RateDecision::Allowed);
    assert!(matches!(rl.check(1, 1), RateDecision::Limited { .. }));
}

#[test]
fn limit_of_two() {
    let mut rl = RateLimiter::new(Bucket { time_span: 10, limit: 2 });
    assert_eq!(rl.check(1, 0), RateDecision::Allowed);
    assert_eq!(rl.check(1, 9), RateDecision::Allowed);
    assert_eq!(rl.check(1, 9), RateDecision::Limited { retry_after: 1, first_notice: true });
    assert_eq!(rl.check(1, 10), RateDecision::Allowed);
    assert_eq!(rl.quota(), Bucket { time_span: 10, limit: 2 });
}

#[test]
fn clock_going_back_stays_in_window() {
    let mut rl = RateLimiter::new(Bucket { time_span: 5, limit: 1 });
    assert_eq!(rl.check(1, 50), RateDecision::Allowed);
    assert_eq!(rl.check(1, 40), RateDecision::Limited { retry_after: 5, first_notice: true });
}

#[test]
fn allowed_call_then_refused_from_running_state() {
    let mut rl = RateLimiter::new(Bucket { time_span: 5, limit: 1 });
    assert_eq!(rl.check(4, 10), RateDecision::Allowed);
    assert!(matches!(rl.check(4, 12), RateDecision::Limited { .. }));
    assert_eq!(rl.check(4, 20), RateDecision::Allowed);
    assert_eq!(rl.check(4, 21), RateDecision::Limited { retry_after: 4, first_notice: true });
    assert_eq!(rl.check(4, 25), RateDecision::Allowed);
}

#[test]
fn zero_limit_refuses_everything() {
    let mut rl = RateLimiter::new(Bucket { time_span: 5, limit: 0 });
    assert_eq!(rl.check(1, 0), RateDecision::Limited { retry_after: 5, first_notice: true });
    assert_eq!(rl.check(1, 1), RateDecision::Limited { retry_after: 4, first_notice: false });
}
