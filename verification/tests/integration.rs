use silver_telegram::integration::rate_limit::{RateLimitConfig, RateLimitResult, RateLimiter, RetryBehavior};

#[test]
fn rate_limit_config_presets() {
    let per_minute = RateLimitConfig::per_minute(100);
    assert_eq!(per_minute.max_requests, 100);
    assert_eq!(per_minute.window_seconds, 60);
    let per_hour = RateLimitConfig::per_hour(1000);
    assert_eq!(per_hour.max_requests, 1000);
    assert_eq!(per_hour.window_seconds, 3600);
    let per_day = RateLimitConfig::per_day(10000);
    assert_eq!(per_day.max_requests, 10000);
    assert_eq!(per_day.window_seconds, 86400);
}

#[test]
fn rate_limit_default_config() {
    let config = RateLimitConfig::default();
    assert_eq!(config.max_requests, 60);
    assert_eq!(config.window_seconds, 60);
    assert_eq!(config.retry_behavior, RetryBehavior::FailFast);
}

#[test]
fn rate_limit_allows_under_limit() {
    let mut limiter = RateLimiter::new(RateLimitConfig::new(10, 60));
    for i in 0..10 {
        let result = limiter.check_and_increment("test");
        assert!(result.is_allowed());
        assert_eq!(result.remaining(), 10 - i - 1);
    }
}

#[test]
fn rate_limit_blocks_over_limit() {
    let mut limiter = RateLimiter::new(RateLimitConfig::new(5, 60));
    for _ in 0..5 {
        let result = limiter.check_and_increment("test");
        assert!(result.is_allowed());
    }
    let result = limiter.check_and_increment("test");
    assert!(!result.is_allowed());
    assert_eq!(result.remaining(), 0);
}

#[test]
fn rate_limit_per_key_isolation() {
    let mut limiter = RateLimiter::new(RateLimitConfig::new(2, 60));
    limiter.check_and_increment("key1");
    limiter.check_and_increment("key1");
    assert!(!limiter.check("key1").is_allowed());
    assert!(limiter.check("key2").is_allowed());
}

#[test]
fn rate_limit_reset() {
    let mut limiter = RateLimiter::new(RateLimitConfig::new(2, 60));
    limiter.check_and_increment("test");
    limiter.check_and_increment("test");
    assert!(!limiter.check("test").is_allowed());
    limiter.reset("test");
    assert!(limiter.check("test").is_allowed());
}

#[test]
fn rate_limit_window_rolls_over() {
    let mut limiter = RateLimiter::new(RateLimitConfig::new(1, 60));
    let t0: i128 = 1_000_000;
    assert!(limiter.check_and_increment_at("k", t0).is_allowed());
    let blocked = limiter.check_and_increment_at("k", t0 + 59_999_999_999);
    match blocked {
        RateLimitResult::Exceeded { retry_after, resets_at } => {
            assert_eq!(resets_at, t0 + 60_000_000_000);
            assert_eq!(retry_after, 1);
        }
        other => panic!("unexpected {other:?}"),
    }
    // A new window starts once the old one has run its length.
    let fresh = limiter.check_and_increment_at("k", t0 + 60_000_000_000);
    assert_eq!(fresh, RateLimitResult::Allowed { remaining: 0, resets_at: t0 + 120_000_000_000 });
}

#[test]
fn rate_limit_check_foretells_increment() {
    // Law: what `check` answers is what `check_and_increment` answers at the same instant.
    let mut limiter = RateLimiter::new(RateLimitConfig::new(3, 10));
    let t: i128 = 5_000;
    for _ in 0..5 {
        let predicted = limiter.check_at("a", t);
        let actual = limiter.check_and_increment_at("a", t);
        assert_eq!(predicted.is_allowed(), actual.is_allowed());
        if actual.is_allowed() {
            assert_eq!(predicted.remaining(), actual.remaining() + 1);
        }
    }
}

#[test]
fn rate_limit_fresh_key_allowed() {
    let limiter = RateLimiter::new(RateLimitConfig::new(7, 60));
    assert_eq!(limiter.check_at("never-seen", 42), RateLimitResult::Allowed { remaining: 7, resets_at: 60_000_000_042 });
}
