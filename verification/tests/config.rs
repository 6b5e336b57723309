use mouse_clicker::settings::AppSettings;
use mouse_clicker::settings::FunctionKey;
use mouse_clicker::settings::MouseButton;
use mouse_clicker::settings::SettingsManager;
use mouse_clicker::settings::ValidationError;

fn base() -> AppSettings {
    AppSettings {
        interval_ms: 1000,
        mouse_button: MouseButton::Left,
        click_count: None,
        hotkey: FunctionKey::F2,
    }
}

#[test]
fn validate_accepts_interval_bounds() {
    assert_eq!(AppSettings { interval_ms: 1, ..base() }.validate(), Ok(()));
    assert_eq!(AppSettings { interval_ms: 60000, ..base() }.validate(), Ok(()));
}

#[test]
fn validate_accepts_count_bounds() {
    assert_eq!(AppSettings { click_count: Some(1), ..base() }.validate(), Ok(()));
    assert_eq!(
        AppSettings { click_count: Some(1_000_000), ..base() }.validate(),
        Ok(())
    );
    assert_eq!(AppSettings { click_count: None, ..base() }.validate(), Ok(()));
}

#[test]
fn validate_rejects_zero_interval() {
    assert_eq!(
        AppSettings { interval_ms: 0, ..base() }.validate(),
        Err(ValidationError::IntervalZero)
    );
}

#[test]
fn validate_rejects_oversized_interval() {
    assert_eq!(
        AppSettings { interval_ms: 60001, ..base() }.validate(),
        Err(ValidationError::IntervalTooLarge)
    );
    assert_eq!(
        AppSettings { interval_ms: 70000, ..base() }.validate(),
        Err(ValidationError::IntervalTooLarge)
    );
}

#[test]
fn validate_rejects_zero_count() {
    assert_eq!(
        AppSettings { click_count: Some(0), ..base() }.validate(),
        Err(ValidationError::CountZero)
    );
}

#[test]
fn validate_rejects_oversized_count() {
    assert_eq!(
        AppSettings { click_count: Some(1_000_001), ..base() }.validate(),
        Err(ValidationError::CountTooLarge)
    );
}

#[test]
fn validate_reports_interval_before_count() {
    assert_eq!(
        AppSettings { interval_ms: 0, click_count: Some(0), ..base() }.validate(),
        Err(ValidationError::IntervalZero)
    );
}

#[test]
fn validation_messages_are_descriptive() {
    assert_eq!(
        ValidationError::IntervalZero.message(),
        "click interval must not be zero"
    );
    assert_eq!(
        ValidationError::IntervalTooLarge.message(),
        "click interval must not exceed 60 seconds"
    );
    assert_eq!(ValidationError::CountZero.message(), "click count must not be zero");
    assert_eq!(
        ValidationError::CountTooLarge.message(),
        "click count must not exceed one million"
    );
}

#[test]
fn default_settings_values() {
    let d = AppSettings::default();
    assert_eq!(d.interval_ms, 1000);
    assert_eq!(d.mouse_button, MouseButton::Left);
    assert_eq!(d.click_count, None);
    assert_eq!(d.hotkey, FunctionKey::F2);
    assert_eq!(MouseButton::default(), MouseButton::Left);
    assert_eq!(FunctionKey::default(), FunctionKey::F2);
}

#[test]
fn function_key_all_lists_every_key_once() {
    let keys = FunctionKey::all();
    assert_eq!(keys.len(), 12);
    assert_eq!(keys[0], FunctionKey::F1);
    assert_eq!(keys[6], FunctionKey::F7);
    assert_eq!(keys[11], FunctionKey::F12);
}

#[test]
fn manager_new_holds_defaults() {
    let m = SettingsManager::new();
    assert_eq!(*m.get(), AppSettings::default());
}

#[test]
fn manager_adopts_valid_loaded_settings() {
    let loaded = AppSettings { interval_ms: 250, click_count: Some(7), ..base() };
    let m = SettingsManager::from_loaded(Some(loaded));
    assert_eq!(*m.get(), loaded);
}

#[test]
fn manager_falls_back_on_invalid_loaded_settings() {
    let loaded = AppSettings { interval_ms: 0, ..base() };
    let m = SettingsManager::from_loaded(Some(loaded));
    assert_eq!(*m.get(), AppSettings::default());
}

#[test]
fn manager_falls_back_when_nothing_loaded() {
    let m = SettingsManager::from_loaded(None);
    assert_eq!(*m.get(), AppSettings::default());
}

#[test]
fn manager_update_replaces_wholesale() {
    let mut m = SettingsManager::new();
    let next = AppSettings { interval_ms: 42, mouse_button: MouseButton::ScrollUp, ..base() };
    assert_eq!(m.update(next), Ok(()));
    assert_eq!(*m.get(), next);
}

#[test]
fn manager_update_rejects_and_keeps_previous() {
    let mut m = SettingsManager::new();
    let good = AppSettings { interval_ms: 42, ..base() };
    m.update(good).unwrap();
    let bad = AppSettings { interval_ms: 0, ..base() };
    assert_eq!(m.update(bad), Err(ValidationError::IntervalZero));
    assert_eq!(*m.get(), good);
}
