use timetracker::models::AppSettings;

#[test]
fn test_app_settings_default() {
    let settings = AppSettings::default();

    assert_eq!(settings.idle_threshold_seconds, 300);
    assert!(settings.tracking_enabled);
    assert_eq!(settings.polling_interval_ms, 1000);
    assert_eq!(settings.theme, "system");
}
