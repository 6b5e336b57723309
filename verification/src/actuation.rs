//! What one repeat of the configured action amounts to, and how an actuator
//! failure is classified. The actuator itself (the platform call that moves
//! the pointer) is an outside capability; this module fixes the plan it is
//! handed and reads the report it gives back.

use vstd::prelude::*;
use crate::settings::MouseButton;

verus! {

/// The physical pointer button a plan presses.
#[derive(Debug, Clone, Copy, PartialEq, Eq, Structural)]
pub enum PointerButton {
    Left,
    Right,
}

/// One discrete actuation, spelled out for the actuator: a plain click, a
/// press held for a number of milliseconds and then released, or a vertical
/// scroll by a number of lines (positive is up).
#[derive(Debug, Clone, Copy, PartialEq, Eq)]
pub enum ActuationPlan {
    Click(PointerButton),
    LongPress(PointerButton, u64),
    Scroll(i32),
}

/// How long a long press holds the button down, in milliseconds.
pub const LONG_PRESS_HOLD_MS: u64 = 100;

/// How many lines one scroll action moves.
pub const SCROLL_LINES: i32 = 3;

/// The plan for each action kind.
pub open spec fn spec_plan_for(button: MouseButton) -> ActuationPlan {
    match button {
        MouseButton::Left => ActuationPlan::Click(PointerButton::Left),
        MouseButton::Right => ActuationPlan::Click(PointerButton::Right),
        MouseButton::LeftLongPress => ActuationPlan::LongPress(
            PointerButton::Left,
            LONG_PRESS_HOLD_MS,
        ),
        MouseButton::RightLongPress => ActuationPlan::LongPress(
            PointerButton::Right,
            LONG_PRESS_HOLD_MS,
        ),
        MouseButton::ScrollUp => ActuationPlan::Scroll(SCROLL_LINES),
        MouseButton::ScrollDown => ActuationPlan::Scroll((-SCROLL_LINES) as i32),
    }
}

/// Spells out the configured action kind as one actuation plan.
pub fn plan_for(button: MouseButton) -> (r: ActuationPlan)
    ensures
        r == spec_plan_for(button),
{
    match button {
        MouseButton::Left => ActuationPlan::Click(PointerButton::Left),
        MouseButton::Right => ActuationPlan::Click(PointerButton::Right),
        MouseButton::LeftLongPress => ActuationPlan::LongPress(
            PointerButton::Left,
            LONG_PRESS_HOLD_MS,
        ),
        MouseButton::RightLongPress => ActuationPlan::LongPress(
            PointerButton::Right,
            LONG_PRESS_HOLD_MS,
        ),
        MouseButton::ScrollUp => ActuationPlan::Scroll(SCROLL_LINES),
        MouseButton::ScrollDown => ActuationPlan::Scroll(-SCROLL_LINES),
    }
}

/// The report of one performed actuation: it succeeded, it failed in a way
/// the session survives (a permission or accessibility denial), or it failed
/// fatally.
#[derive(Debug, Clone, Copy, PartialEq, Eq, Structural)]
pub enum ActuationOutcome {
    Success,
    TransientFailure,
    FatalFailure,
}

/// `needle` occurs in `hay` starting at position `i`.
pub open spec fn contains_at(hay: Seq<char>, needle: Seq<char>, i: int) -> bool {
    &&& 0 <= i
    &&& i + needle.len() <= hay.len()
    &&& forall|j: int| 0 <= j < needle.len() ==> hay[i + j] == needle[j]
}

/// `needle` occurs somewhere in `hay`.
pub open spec fn contains_seq(hay: Seq<char>, needle: Seq<char>) -> bool {
    exists|i: int| contains_at(hay, needle, i)
}

/// A failure report that names a permission or accessibility denial is
/// transient: the session keeps running and only skips the increment.
pub open spec fn is_transient_report(msg: Seq<char>) -> bool {
    ||| contains_seq(msg, "permission"@)
    ||| contains_seq(msg, "accessibility"@)
}

/// Whether `needle` occurs in `hay` at position `i`.
fn matches_at(hay: &str, needle: &str, hay_len: usize, needle_len: usize, i: usize) -> (r: bool)
    requires
        hay_len == hay@.len(),
        needle_len == needle@.len(),
        i + needle_len <= hay_len,
    ensures
        r == contains_at(hay@, needle@, i as int),
{
    let mut j: usize = 0;
    while j < needle_len
        invariant
            hay_len == hay@.len(),
            needle_len == needle@.len(),
            i + needle_len <= hay_len,
            0 <= j <= needle_len,
            forall|k: int| 0 <= k < j ==> hay@[i + k] == needle@[k],
        decreases needle_len - j,
    {
        if hay.get_char(i + j) != needle.get_char(j) {
            return false;
        }
        j += 1;
    }
    true
}

/// Whether `needle` occurs anywhere in `hay`.
fn contains_str(hay: &str, needle: &str) -> (r: bool)
    ensures
        r == contains_seq(hay@, needle@),
{
    let hay_len: usize = hay.unicode_len();
    let needle_len: usize = needle.unicode_len();
    if needle_len > hay_len {
        assert(forall|i: int| !contains_at(hay@, needle@, i));
        return false;
    }
    let mut i: usize = 0;
    while i <= hay_len - needle_len
        invariant
            hay_len == hay@.len(),
            needle_len == needle@.len(),
            needle_len <= hay_len,
            0 <= i <= hay_len - needle_len + 1,
            forall|k: int| 0 <= k < i ==> !contains_at(hay@, needle@, k),
        decreases hay_len - needle_len - i + 1,
    {
        if matches_at(hay, needle, hay_len, needle_len, i) {
            return true;
        }
        i += 1;
    }
    assert(forall|k: int| contains_at(hay@, needle@, k) ==> 0 <= k <= hay_len - needle_len);
    false
}

/// Reads an actuator failure report: a message naming a permission or
/// accessibility denial is transient, anything else is fatal for the session.
pub fn classify_failure(message: &str) -> (r: ActuationOutcome)
    ensures
        r == if is_transient_report(message@) {
            ActuationOutcome::TransientFailure
        } else {
            ActuationOutcome::FatalFailure
        },
{
    if contains_str(message, "permission") || contains_str(message, "accessibility") {
        ActuationOutcome::TransientFailure
    } else {
        ActuationOutcome::FatalFailure
    }
}

} // verus!
