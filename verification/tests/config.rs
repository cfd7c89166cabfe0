use livecaptions::config::{
    validate_interval, ConfigError, Settings, DEFAULT_INTERVAL_SECS, LIVENESS_PERIOD_SECS,
    MAX_INTERVAL_SECS, MIN_INTERVAL_SECS,
};

#[test]
fn interval_zero_rejected() {
    assert_eq!(validate_interval(0), Err(ConfigError::IntervalOutOfRange));
}

#[test]
fn interval_sixty_one_rejected() {
    assert_eq!(validate_interval(61), Err(ConfigError::IntervalOutOfRange));
}

#[test]
fn interval_one_accepted() {
    assert_eq!(validate_interval(1), Ok(1));
}

#[test]
fn interval_sixty_accepted() {
    assert_eq!(validate_interval(60), Ok(60));
}

#[test]
fn interval_far_out_of_range_rejected() {
    assert_eq!(validate_interval(u64::MAX), Err(ConfigError::IntervalOutOfRange));
}

#[test]
fn bounds_match_the_documented_range() {
    assert_eq!(MIN_INTERVAL_SECS, 1);
    assert_eq!(MAX_INTERVAL_SECS, 60);
    assert_eq!(DEFAULT_INTERVAL_SECS, 1);
    assert_eq!(LIVENESS_PERIOD_SECS, 10);
}

#[test]
fn settings_accept_a_valid_interval() {
    let s = Settings::new(String::from("captions.txt"), 5).unwrap();
    assert_eq!(s.destination, "captions.txt");
    assert_eq!(s.interval_secs, 5);
}

#[test]
fn settings_reject_an_invalid_interval() {
    let r = Settings::new(String::from("captions.txt"), 0);
    assert!(matches!(r, Err(ConfigError::IntervalOutOfRange)));
}
