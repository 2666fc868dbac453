use std::time::Duration;
use uiautomator::settings::Settings;

#[test]
fn test_default_settings() {
    let settings = Settings::default();
    assert_eq!(settings.wait_timeout, Duration::from_secs(20));
    assert_eq!(settings.operation_delay_before, Duration::from_millis(0));
    assert_eq!(settings.operation_delay_after, Duration::from_millis(0));
    assert_eq!(settings.http_timeout, Duration::from_secs(60));
    assert_eq!(settings.max_retry, 3);
    assert_eq!(settings.polling_interval, Duration::from_millis(500));
}

#[test]
fn test_new_settings() {
    let settings = Settings::new();
    assert_eq!(settings.wait_timeout, Duration::from_secs(20));
}

#[test]
fn settings_test_set_wait_timeout() {
    let mut settings = Settings::new();
    settings.set_wait_timeout(Duration::from_secs(30));
    assert_eq!(settings.wait_timeout, Duration::from_secs(30));
}

#[test]
fn test_set_operation_delays() {
    let mut settings = Settings::new();
    settings.set_operation_delay_before(Duration::from_millis(100));
    settings.set_operation_delay_after(Duration::from_millis(200));
    assert_eq!(settings.operation_delay_before, Duration::from_millis(100));
    assert_eq!(settings.operation_delay_after, Duration::from_millis(200));
}

#[test]
fn test_set_http_timeout() {
    let mut settings = Settings::new();
    settings.set_http_timeout(Duration::from_secs(120));
    assert_eq!(settings.http_timeout, Duration::from_secs(120));
}

#[test]
fn test_set_max_retry() {
    let mut settings = Settings::new();
    settings.set_max_retry(5);
    assert_eq!(settings.max_retry, 5);
}

#[test]
fn test_set_polling_interval() {
    let mut settings = Settings::new();
    settings.set_polling_interval(Duration::from_millis(300));
    assert_eq!(settings.polling_interval, Duration::from_millis(300));
}

#[test]
fn test_builder_pattern() {
    let settings = Settings::new()
        .with_wait_timeout(Duration::from_secs(30))
        .with_operation_delay_before(Duration::from_millis(100))
        .with_operation_delay_after(Duration::from_millis(200))
        .with_http_timeout(Duration::from_secs(120))
        .with_max_retry(5)
        .with_polling_interval(Duration::from_millis(300));

    assert_eq!(settings.wait_timeout, Duration::from_secs(30));
    assert_eq!(settings.operation_delay_before, Duration::from_millis(100));
    assert_eq!(settings.operation_delay_after, Duration::from_millis(200));
    assert_eq!(settings.http_timeout, Duration::from_secs(120));
    assert_eq!(settings.max_retry, 5);
    assert_eq!(settings.polling_interval, Duration::from_millis(300));
}

#[test]
fn test_clone() {
    let settings1 = Settings::new().with_wait_timeout(Duration::from_secs(30));
    let settings2 = settings1.clone();
    assert_eq!(settings1.wait_timeout, settings2.wait_timeout);
}

#[test]
fn retry_base_delay_only_zero_falls_back() {
    let mut settings = Settings::new();
    settings.set_retry_base_delay(Duration::from_micros(10));
    assert_eq!(settings.retry_base_delay, Duration::from_micros(10));
    settings.set_retry_base_delay(Duration::from_nanos(0));
    assert_eq!(settings.retry_base_delay, Duration::from_millis(500));
    settings.set_retry_base_delay(Duration::from_millis(5));
    assert_eq!(settings.retry_base_delay, Duration::from_millis(5));
}

#[test]
fn with_retry_base_delay_keeps_other_fields() {
    let settings = Settings::new().with_retry_base_delay(Duration::from_millis(0));
    assert_eq!(settings.retry_base_delay, Duration::from_millis(500));
    assert_eq!(settings.max_retry, 3);
    assert_eq!(settings.wait_timeout, Duration::from_secs(20));
}

#[test]
fn setters_leave_other_fields_unchanged() {
    let mut settings = Settings::new();
    settings.set_max_retry(9);
    assert_eq!(settings.wait_timeout, Duration::from_secs(20));
    assert_eq!(settings.http_timeout, Duration::from_secs(60));
    assert_eq!(settings.polling_interval, Duration::from_millis(500));
}
