//! Configuration of the clicker: the action kind, the interval, an optional
//! repeat target and the trigger key, together with total validation.

use vstd::prelude::*;

verus! {

/// The pointer action performed on every repeat.
#[derive(Debug, Clone, Copy, PartialEq, Eq, Structural)]
pub enum MouseButton {
    Left,
    Right,
    LeftLongPress,
    RightLongPress,
    ScrollUp,
    ScrollDown,
}

impl Default for MouseButton {
    fn default() -> (r: Self)
        ensures
            r == MouseButton::Left,
    {
        MouseButton::Left
    }
}

/// The function keys that may be bound as the global trigger.
#[derive(Debug, Clone, Copy, PartialEq, Eq, Structural)]
pub enum FunctionKey {
    F1,
    F2,
    F3,
    F4,
    F5,
    F6,
    F7,
    F8,
    F9,
    F10,
    F11,
    F12,
}

impl Default for FunctionKey {
    fn default() -> (r: Self)
        ensures
            r == FunctionKey::F2,
    {
        FunctionKey::F2
    }
}

impl FunctionKey {
    /// Every supported trigger key, in order.
    pub fn all() -> (r: Vec<FunctionKey>)
        ensures
            r@.len() == 12,
            r@[0] == FunctionKey::F1,
            r@[1] == FunctionKey::F2,
            r@[2] == FunctionKey::F3,
            r@[3] == FunctionKey::F4,
            r@[4] == FunctionKey::F5,
            r@[5] == FunctionKey::F6,
            r@[6] == FunctionKey::F7,
            r@[7] == FunctionKey::F8,
            r@[8] == FunctionKey::F9,
            r@[9] == FunctionKey::F10,
            r@[10] == FunctionKey::F11,
            r@[11] == FunctionKey::F12,
    {
        let mut keys: Vec<FunctionKey> = Vec::new();
        keys.push(FunctionKey::F1);
        keys.push(FunctionKey::F2);
        keys.push(FunctionKey::F3);
        keys.push(FunctionKey::F4);
        keys.push(FunctionKey::F5);
        keys.push(FunctionKey::F6);
        keys.push(FunctionKey::F7);
        keys.push(FunctionKey::F8);
        keys.push(FunctionKey::F9);
        keys.push(FunctionKey::F10);
        keys.push(FunctionKey::F11);
        keys.push(FunctionKey::F12);
        keys
    }
}

/// Why a configuration was rejected. An update is rejected wholesale: the
/// first violated rule, in the order interval then repeat count, is reported.
#[derive(Debug, Clone, Copy, PartialEq, Eq, Structural)]
pub enum ValidationError {
    IntervalZero,
    IntervalTooLarge,
    CountZero,
    CountTooLarge,
}

impl ValidationError {
    /// A human-readable description of the rejected rule.
    pub fn message(&self) -> (r: &'static str)
        ensures
            self is IntervalZero ==> r@ == "click interval must not be zero"@,
            self is IntervalTooLarge ==> r@ == "click interval must not exceed 60 seconds"@,
            self is CountZero ==> r@ == "click count must not be zero"@,
            self is CountTooLarge ==> r@ == "click count must not exceed one million"@,
    {
        match self {
            ValidationError::IntervalZero => "click interval must not be zero",
            ValidationError::IntervalTooLarge => "click interval must not exceed 60 seconds",
            ValidationError::CountZero => "click count must not be zero",
            ValidationError::CountTooLarge => "click count must not exceed one million",
        }
    }
}

/// The validated parameter bundle: interval between actions in milliseconds,
/// the action kind, an optional repeat target (`None` means unbounded) and
/// the bound trigger key.
#[derive(Debug, Clone, Copy, PartialEq, Eq)]
pub struct AppSettings {
    pub interval_ms: u64,
    pub mouse_button: MouseButton,
    pub click_count: Option<u32>,
    pub hotkey: FunctionKey,
}

impl AppSettings {
    /// A configuration is acceptable iff the interval lies in (0, 60000]
    /// milliseconds and the repeat target is absent or in [1, 1000000].
    pub open spec fn valid(self) -> bool {
        &&& 0 < self.interval_ms <= 60000
        &&& match self.click_count {
            Some(c) => 1 <= c <= 1000000,
            None => true,
        }
    }

    /// The settings a fresh installation starts from.
    pub open spec fn default_spec() -> AppSettings {
        AppSettings {
            interval_ms: 1000,
            mouse_button: MouseButton::Left,
            click_count: None,
            hotkey: FunctionKey::F2,
        }
    }

    /// The outcome of validation: the first violated rule, or acceptance.
    pub open spec fn spec_validate(self) -> Result<(), ValidationError> {
        if self.interval_ms == 0 {
            Err(ValidationError::IntervalZero)
        } else if self.interval_ms > 60000 {
            Err(ValidationError::IntervalTooLarge)
        } else if self.click_count matches Some(c) && c == 0 {
            Err(ValidationError::CountZero)
        } else if self.click_count matches Some(c) && c > 1000000 {
            Err(ValidationError::CountTooLarge)
        } else {
            Ok(())
        }
    }

    /// Total validation: accepts exactly the configurations `valid` admits,
    /// and rejects everything else with the first violated rule.
    pub fn validate(&self) -> (r: Result<(), ValidationError>)
        ensures
            r == self.spec_validate(),
            r is Ok <==> self.valid(),
    {
        if self.interval_ms == 0 {
            return Err(ValidationError::IntervalZero);
        }
        if self.interval_ms > 60000 {
            return Err(ValidationError::IntervalTooLarge);
        }
        if let Some(count) = self.click_count {
            if count == 0 {
                return Err(ValidationError::CountZero);
            }
            if count > 1000000 {
                return Err(ValidationError::CountTooLarge);
            }
        }
        Ok(())
    }
}

impl Default for AppSettings {
    fn default() -> (r: Self)
        ensures
            r == AppSettings::default_spec(),
            r.valid(),
    {
        AppSettings {
            interval_ms: 1000,
            mouse_button: MouseButton::Left,
            click_count: None,
            hotkey: FunctionKey::F2,
        }
    }
}

/// Holds the settings currently in force. Reading the settings file and
/// writing it back are the surrounding program's concern; it hands the parsed
/// value in and receives the current value to persist.
pub struct SettingsManager {
    settings: AppSettings,
}

impl View for SettingsManager {
    type V = AppSettings;

    closed spec fn view(&self) -> AppSettings {
        self.settings
    }
}

impl SettingsManager {
    /// A manager holding the default settings.
    pub fn new() -> (r: Self)
        ensures
            r@ == AppSettings::default_spec(),
    {
        SettingsManager { settings: AppSettings::default() }
    }

    /// Adopts settings recovered from storage: a value that parsed and
    /// validates is taken as is; anything else falls back to the defaults.
    pub fn from_loaded(loaded: Option<AppSettings>) -> (r: Self)
        ensures
            match loaded {
                Some(s) => r@ == if s.valid() {
                    s
                } else {
                    AppSettings::default_spec()
                },
                None => r@ == AppSettings::default_spec(),
            },
    {
        match loaded {
            Some(s) => {
                if s.validate().is_ok() {
                    SettingsManager { settings: s }
                } else {
                    SettingsManager { settings: AppSettings::default() }
                }
            },
            None => SettingsManager { settings: AppSettings::default() },
        }
    }

    /// The settings currently in force.
    pub fn get(&self) -> (r: &AppSettings)
        ensures
            *r == self@,
    {
        &self.settings
    }

    /// Replaces the settings wholesale after validation; an invalid bundle is
    /// rejected and the previous settings stay in force.
    pub fn update(&mut self, settings: AppSettings) -> (r: Result<(), ValidationError>)
        ensures
            r == settings.spec_validate(),
            r is Ok <==> settings.valid(),
            settings.valid() ==> final(self)@ == settings,
            !settings.valid() ==> final(self)@ == old(self)@,
    {
        match settings.validate() {
            Ok(()) => {
                self.settings = settings;
                Ok(())
            },
            Err(e) => Err(e),
        }
    }
}

} // verus!
