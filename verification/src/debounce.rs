//! Rate-limiting of raw trigger events: a pressed event is acted upon only if
//! it arrives strictly more than a fixed window after the previous accepted
//! event. Rejected events are dropped, never buffered.

use vstd::prelude::*;

verus! {

/// Minimum spacing, in milliseconds, between two accepted trigger events.
pub const DEBOUNCE_WINDOW_MS: u64 = 500;

/// Whether an event at `now_ms` is accepted, given the time of the last
/// accepted event. The first event is always accepted; a later one only when
/// strictly more than the window has passed since the last accepted one.
pub open spec fn spec_accepts(last_accepted_ms: Option<u64>, now_ms: u64) -> bool {
    match last_accepted_ms {
        None => true,
        Some(t) => now_ms - t > DEBOUNCE_WINDOW_MS,
    }
}

/// Remembers the time of the last accepted trigger event. Its view is that
/// time, or `None` before the first acceptance.
pub struct Debouncer {
    last_accepted_ms: Option<u64>,
}

impl View for Debouncer {
    type V = Option<u64>;

    closed spec fn view(&self) -> Option<u64> {
        self.last_accepted_ms
    }
}

impl Debouncer {
    /// A debouncer that has accepted nothing yet.
    pub fn new() -> (r: Self)
        ensures
            r@ is None,
    {
        Debouncer { last_accepted_ms: None }
    }

    /// Decides one raw event at time `now_ms`: accepted events move the
    /// window forward, rejected events leave it where it was. Times come from
    /// a monotonic clock, so `now_ms` is never before the last acceptance.
    pub fn accept(&mut self, now_ms: u64) -> (r: bool)
        requires
            old(self)@ matches Some(t) ==> t <= now_ms,
        ensures
            r == spec_accepts(old(self)@, now_ms),
            final(self)@ == if r {
                Some(now_ms)
            } else {
                old(self)@
            },
    {
        let accepted = match self.last_accepted_ms {
            None => true,
            Some(t) => now_ms - t > DEBOUNCE_WINDOW_MS,
        };
        if accepted {
            self.last_accepted_ms = Some(now_ms);
        }
        accepted
    }
}

/// Law: of two events closer together than the window, only the first is
/// accepted, and an event strictly beyond the window is accepted again.
pub proof fn lemma_debounce_window(last_accepted_ms: Option<u64>, t1: u64, t2: u64)
    requires
        spec_accepts(last_accepted_ms, t1),
        t1 <= t2,
    ensures
        t2 - t1 <= DEBOUNCE_WINDOW_MS ==> !spec_accepts(Some(t1), t2),
        t2 - t1 > DEBOUNCE_WINDOW_MS ==> spec_accepts(Some(t1), t2),
{
}

} // verus!
