//! Control core of an automated-input trigger: a repeating pointer action
//! driven by a validated configuration, toggled manually or by a debounced
//! global hotkey, with a supervised worker loop and thread-safe status
//! reporting. The platform work (performing an input action, registering a
//! system-wide key, timing, persistence) is left to the surrounding program;
//! this crate holds the decisions and proves them.

pub mod actuation;
pub mod clicker;
pub mod debounce;
pub mod settings;
