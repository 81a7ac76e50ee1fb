use reqt::headers::HeaderList;
use reqt::rate_limiter::{RateLimiter, TimePeriod};

fn headers(pairs: &[(&str, &str)]) -> HeaderList {
    let mut h = HeaderList::new();
    for (k, v) in pairs {
        h.insert(k, v);
    }
    h
}

#[test]
fn limiter_grants_up_to_limit_then_waits() {
    let mut rl = RateLimiter::starting_at(2, TimePeriod::Second, 10_000);
    assert_eq!(rl.request_at(10_000), 0);
    assert_eq!(rl.request_at(10_100), 0);
    assert_eq!(rl.request_at(10_400), 600);
    assert_eq!(rl.request_at(11_000), 0);
    assert_eq!(rl.timer, 11_000);
    assert_eq!(rl.remaining, 1);
}

#[test]
fn limiter_spreads_grants_over_windows() {
    let mut rl = RateLimiter::starting_at(3, TimePeriod::Second, 0);
    let mut now: i64 = 0;
    let mut granted: Vec<i64> = Vec::new();
    while granted.len() < 10 {
        let wait = rl.request_at(now);
        if wait == 0 {
            granted.push(now);
        } else {
            now += wait as i64;
        }
    }
    for k in 0..(10 / 3) {
        assert!(granted[k * 3] >= (k as i64) * 1000);
    }
    assert!(granted[9] >= 3000);
}

#[test]
fn zero_limit_never_grants() {
    let mut rl = RateLimiter::starting_at(0, TimePeriod::Minute, 0);
    assert_eq!(rl.request_at(0), 60_000);
    assert_eq!(rl.request_at(60_000), 60_000);
}

#[test]
fn adaptive_update_takes_lowest() {
    let mut rl = RateLimiter::starting_at(100, TimePeriod::Second, 0);
    let h = headers(&[
        ("x-secondly-ratelimit-limit", "10"),
        ("x-hourly-ratelimit-limit", "5"),
        ("x-dayly-ratelimit-limit", "50"),
    ]);
    rl.update(&h);
    assert_eq!(rl.limit, 5);
    assert_eq!(rl.period, TimePeriod::Hour);
}

#[test]
fn adaptive_update_keeps_stricter_own_limit() {
    let mut rl = RateLimiter::starting_at(2, TimePeriod::Second, 0);
    rl.update(&headers(&[("X-Minute-RateLimit-Limit", "10")]));
    assert_eq!(rl.limit, 2);
    assert_eq!(rl.period, TimePeriod::Second);
}

#[test]
fn non_adaptive_ignores_headers() {
    let mut rl = RateLimiter::starting_at(100, TimePeriod::Second, 0).is_adaptive(false);
    rl.update(&headers(&[("x-secondly-ratelimit-limit", "1")]));
    assert_eq!(rl.limit, 100);
}

#[test]
fn unparsable_limit_is_skipped() {
    let mut rl = RateLimiter::starting_at(100, TimePeriod::Second, 0);
    rl.update(&headers(&[("x-secondly-ratelimit-limit", "ten"), ("x-dayly-ratelimit-limit", "7")]));
    assert_eq!(rl.limit, 7);
    assert_eq!(rl.period, TimePeriod::Day);
}

#[test]
fn period_names_and_lengths() {
    assert_eq!(TimePeriod::Second.to_string(), "secondly");
    assert_eq!(TimePeriod::Day.to_string(), "dayly");
    assert_eq!(TimePeriod::Hour.millis(), 3_600_000);
    assert_eq!(TimePeriod::Minute.limit_header(), "x-minute-ratelimit-limit");
}

#[test]
fn new_limiter_has_full_budget() {
    let rl = RateLimiter::new(5, TimePeriod::Minute);
    assert_eq!(rl.remaining, 5);
    assert!(rl.is_adaptive);
    assert!(rl.timer > 0);
}
