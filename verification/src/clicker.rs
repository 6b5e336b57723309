//! The session manager: a two-state machine (Stopped, Running) that starts
//! and stops the repeating-action worker, applies configuration updates
//! wholesale, and reports progress. The worker's per-iteration decisions are
//! here too, as transition functions the worker thread drives; the thread
//! itself, the sleeps and the actual input calls live outside this crate.
//!
//! Each `start` opens a fresh session, numbered by a counter, and hands the
//! worker a snapshot of the configuration stamped with that number. A worker
//! holding a stale snapshot can no longer touch the state: this models a
//! runner that allocates fresh shared cells for every session, so that a
//! winding-down worker only ever writes the old ones.

use vstd::prelude::*;
use crate::actuation::ActuationOutcome;
use crate::settings::AppSettings;
use crate::settings::FunctionKey;
use crate::settings::MouseButton;
use crate::settings::ValidationError;

verus! {

/// The two states of the session manager.
#[derive(Debug, Clone, Copy, PartialEq, Eq, Structural)]
pub enum ClickerState {
    Stopped,
    Running,
}

impl Default for ClickerState {
    fn default() -> (r: Self)
        ensures
            r == ClickerState::Stopped,
    {
        ClickerState::Stopped
    }
}

/// A point-in-time snapshot of the session, safe to hand to another thread:
/// the state, the number of completed actions, the configured repeat target
/// and the seconds elapsed since the session started.
#[derive(Debug, Clone, Copy, PartialEq, Eq)]
pub struct ClickerStatus {
    pub state: ClickerState,
    pub click_count: u32,
    pub target_count: Option<u32>,
    pub runtime_seconds: u64,
}

impl Default for ClickerStatus {
    fn default() -> (r: Self)
        ensures
            r.state == ClickerState::Stopped,
            r.click_count == 0,
            r.target_count is None,
            r.runtime_seconds == 0,
    {
        ClickerStatus {
            state: ClickerState::Stopped,
            click_count: 0,
            target_count: None,
            runtime_seconds: 0,
        }
    }
}

/// One raw transition of the trigger key, as the hotkey source reports it.
#[derive(Debug, Clone, Copy, PartialEq, Eq, Structural)]
pub enum KeyTransition {
    Pressed,
    Released,
}

/// What `start` hands the newly spawned worker: the session number and the
/// configuration the worker keeps using for its whole life, whatever is
/// updated later.
#[derive(Debug, Clone, Copy, PartialEq, Eq)]
pub struct LoopSnapshot {
    pub session: u64,
    pub interval_ms: u64,
    pub mouse_button: MouseButton,
    pub target_count: Option<u32>,
}

/// The mathematical state of the session manager.
pub struct ClickerModel {
    pub settings: AppSettings,
    pub registered_hotkey: FunctionKey,
    pub running: bool,
    pub click_count: u32,
    pub started_at_ms: Option<u64>,
    pub session: u64,
}

/// `start`: a no-op while Running; otherwise it opens the next session with a
/// zeroed counter and the start time recorded.
pub open spec fn spec_start(m: ClickerModel, now_ms: u64) -> ClickerModel {
    if m.running {
        m
    } else {
        ClickerModel {
            running: true,
            click_count: 0,
            started_at_ms: Some(now_ms),
            session: (m.session + 1) as u64,
            ..m
        }
    }
}

/// The snapshot `start` hands the worker: none while Running, else the new
/// session number with the configuration now in force.
pub open spec fn spec_start_snapshot(m: ClickerModel) -> Option<LoopSnapshot> {
    if m.running {
        None
    } else {
        Some(
            LoopSnapshot {
                session: (m.session + 1) as u64,
                interval_ms: m.settings.interval_ms,
                mouse_button: m.settings.mouse_button,
                target_count: m.settings.click_count,
            },
        )
    }
}

/// `stop`: clears the run flag and the start time; counter and session
/// number stay, so the last count remains readable.
pub open spec fn spec_stop(m: ClickerModel) -> ClickerModel {
    ClickerModel { running: false, started_at_ms: None, ..m }
}

/// `toggle`: `stop` while Running, `start` otherwise.
pub open spec fn spec_toggle(m: ClickerModel, now_ms: u64) -> ClickerModel {
    if m.running {
        spec_stop(m)
    } else {
        spec_start(m, now_ms)
    }
}

/// The worker asking, at the top of an iteration, whether to act: a stale or
/// stopped session acts no further; a session whose counter has reached the
/// snapshot's target is closed (the run flag is cleared, the start time is
/// left to the control side); otherwise one action is due.
pub open spec fn spec_worker_poll(m: ClickerModel, snapshot: LoopSnapshot) -> (ClickerModel, bool) {
    if snapshot.session != m.session || !m.running {
        (m, false)
    } else if snapshot.target_count matches Some(t) && m.click_count >= t {
        (ClickerModel { running: false, ..m }, false)
    } else {
        (m, true)
    }
}

/// The worker reporting one performed action. A stale session changes
/// nothing. A success counts exactly once; a transient failure counts
/// nothing and stops nothing; a fatal failure closes the session. The
/// returned flag says whether the worker should keep going.
pub open spec fn spec_worker_report(
    m: ClickerModel,
    snapshot: LoopSnapshot,
    outcome: ActuationOutcome,
) -> (ClickerModel, bool) {
    if snapshot.session != m.session {
        (m, false)
    } else {
        match outcome {
            ActuationOutcome::Success => (
                ClickerModel { click_count: (m.click_count + 1) as u32, ..m },
                m.running,
            ),
            ActuationOutcome::TransientFailure => (m, m.running),
            ActuationOutcome::FatalFailure => (ClickerModel { running: false, ..m }, false),
        }
    }
}

/// The status snapshot derived from the state at time `now_ms`.
pub open spec fn spec_status(m: ClickerModel, now_ms: u64) -> ClickerStatus {
    ClickerStatus {
        state: if m.running {
            ClickerState::Running
        } else {
            ClickerState::Stopped
        },
        click_count: m.click_count,
        target_count: m.settings.click_count,
        runtime_seconds: match m.started_at_ms {
            Some(s) => ((now_ms - s) / 1000) as u64,
            None => 0,
        },
    }
}

/// The state a worker run leaves behind after reporting each outcome of
/// `outcomes` in turn.
pub open spec fn apply_worker_reports(
    m: ClickerModel,
    snapshot: LoopSnapshot,
    outcomes: Seq<ActuationOutcome>,
) -> ClickerModel
    decreases outcomes.len(),
{
    if outcomes.len() == 0 {
        m
    } else {
        apply_worker_reports(
            spec_worker_report(m, snapshot, outcomes[0]).0,
            snapshot,
            outcomes.drop_first(),
        )
    }
}

/// How many of the reported outcomes were successes.
pub open spec fn success_count(outcomes: Seq<ActuationOutcome>) -> int
    decreases outcomes.len(),
{
    if outcomes.len() == 0 {
        0
    } else {
        (if outcomes[0] is Success {
            1int
        } else {
            0int
        }) + success_count(outcomes.drop_first())
    }
}

/// The number of successes lies between zero and the number of reports.
pub proof fn lemma_success_count_bounds(outcomes: Seq<ActuationOutcome>)
    ensures
        0 <= success_count(outcomes) <= outcomes.len(),
    decreases outcomes.len(),
{
    if outcomes.len() > 0 {
        lemma_success_count_bounds(outcomes.drop_first());
    }
}

/// Law: calling `start` twice in a row, with no `stop` between, leaves the
/// state exactly as the first call left it — in particular the counter and
/// the recorded start time are unchanged by the second call.
pub proof fn lemma_start_idempotent(m: ClickerModel, t1: u64, t2: u64)
    ensures
        spec_start(spec_start(m, t1), t2) == spec_start(m, t1),
{
}

/// Law: applying `toggle` twice returns the session to its original run
/// state, configuration and trigger binding. The counter and the start time
/// are per-session and are not claimed: a fresh session deliberately resets
/// them.
pub proof fn lemma_toggle_involution(m: ClickerModel, t1: u64, t2: u64)
    ensures
        spec_toggle(spec_toggle(m, t1), t2).running == m.running,
        spec_toggle(spec_toggle(m, t1), t2).settings == m.settings,
        spec_toggle(spec_toggle(m, t1), t2).registered_hotkey == m.registered_hotkey,
{
}

/// Law: a worker run touches only the run flag and the counter, and the
/// counter grows by exactly the number of successes, however successes and
/// transient failures are interleaved: a transient failure neither decrements
/// the counter nor costs any other success its single increment. While no
/// outcome is fatal, the run flag stays as it was.
pub proof fn lemma_worker_counter_accounting(
    m: ClickerModel,
    snapshot: LoopSnapshot,
    outcomes: Seq<ActuationOutcome>,
)
    requires
        snapshot.session == m.session,
        m.click_count + success_count(outcomes) <= u32::MAX,
    ensures
        apply_worker_reports(m, snapshot, outcomes).click_count == m.click_count + success_count(
            outcomes,
        ),
        apply_worker_reports(m, snapshot, outcomes).session == m.session,
        apply_worker_reports(m, snapshot, outcomes).settings == m.settings,
        apply_worker_reports(m, snapshot, outcomes).registered_hotkey == m.registered_hotkey,
        apply_worker_reports(m, snapshot, outcomes).started_at_ms == m.started_at_ms,
        (forall|i: int| 0 <= i < outcomes.len() ==> !(outcomes[i] is FatalFailure))
            ==> apply_worker_reports(m, snapshot, outcomes).running == m.running,
    decreases outcomes.len(),
{
    if outcomes.len() > 0 {
        let m1 = spec_worker_report(m, snapshot, outcomes[0]).0;
        lemma_success_count_bounds(outcomes.drop_first());
        lemma_worker_counter_accounting(m1, snapshot, outcomes.drop_first());
        assert(forall|i: int|
            0 <= i < outcomes.drop_first().len() ==> outcomes.drop_first()[i] == outcomes[i + 1]);
    }
}

/// Law: starting a stopped session with repeat target `t` and letting the
/// worker report `t` straight successes brings the counter exactly to `t`,
/// and the worker's next poll closes the session: the status then reads
/// Stopped with `t` completed actions.
pub proof fn lemma_run_reaches_target(m: ClickerModel, now_ms: u64, t: u32)
    requires
        !m.running,
        m.settings.click_count == Some(t),
        1 <= t,
        m.session < u64::MAX,
    ensures
        ({
            let started = spec_start(m, now_ms);
            let snapshot = spec_start_snapshot(m)->Some_0;
            let done = apply_worker_reports(
                started,
                snapshot,
                Seq::new(t as nat, |i: int| ActuationOutcome::Success),
            );
            let closed = spec_worker_poll(done, snapshot).0;
            &&& done.click_count == t
            &&& done.running
            &&& !spec_worker_poll(done, snapshot).1
            &&& !closed.running
            &&& spec_status(closed, now_ms).state == ClickerState::Stopped
            &&& spec_status(closed, now_ms).click_count == t
        }),
{
    let started = spec_start(m, now_ms);
    let snapshot = spec_start_snapshot(m)->Some_0;
    let successes = Seq::new(t as nat, |i: int| ActuationOutcome::Success);
    lemma_all_successes_count(t as nat);
    lemma_worker_counter_accounting(started, snapshot, successes);
}

/// Law: a worker left over from an earlier session is inert — whatever it
/// polls or reports, the state is untouched and it is told to exit — and
/// `start` never reuses a session number, so the snapshot a winding-down
/// worker holds can never match a later session.
pub proof fn lemma_stale_worker_is_inert(
    m: ClickerModel,
    snapshot: LoopSnapshot,
    outcome: ActuationOutcome,
    now_ms: u64,
)
    requires
        snapshot.session != m.session,
    ensures
        spec_worker_poll(m, snapshot) == (m, false),
        spec_worker_report(m, snapshot, outcome) == (m, false),
        !m.running && m.session < u64::MAX ==> spec_start(m, now_ms).session != m.session,
{
}

/// A run of nothing but successes has as many successes as reports.
pub proof fn lemma_all_successes_count(n: nat)
    ensures
        success_count(Seq::new(n, |i: int| ActuationOutcome::Success)) == n,
    decreases n,
{
    let s = Seq::new(n, |i: int| ActuationOutcome::Success);
    if n > 0 {
        lemma_all_successes_count((n - 1) as nat);
        assert(s.drop_first() =~= Seq::new((n - 1) as nat, |i: int| ActuationOutcome::Success));
    }
}

/// The session manager. Its view is a `ClickerModel`.
pub struct ClickerManager {
    settings: AppSettings,
    registered_hotkey: FunctionKey,
    running: bool,
    click_count: u32,
    started_at_ms: Option<u64>,
    session: u64,
}

impl View for ClickerManager {
    type V = ClickerModel;

    closed spec fn view(&self) -> ClickerModel {
        ClickerModel {
            settings: self.settings,
            registered_hotkey: self.registered_hotkey,
            running: self.running,
            click_count: self.click_count,
            started_at_ms: self.started_at_ms,
            session: self.session,
        }
    }
}

impl ClickerManager {
    /// A stopped manager holding `settings`, whose trigger key the caller has
    /// just registered with the hotkey source. Registration itself is the
    /// caller's outside step; a manager only exists once it succeeded.
    pub fn new(settings: AppSettings) -> (r: Self)
        ensures
            r@.settings == settings,
            r@.registered_hotkey == settings.hotkey,
            !r@.running,
            r@.click_count == 0,
            r@.started_at_ms is None,
            r@.session == 0,
    {
        ClickerManager {
            settings,
            registered_hotkey: settings.hotkey,
            running: false,
            click_count: 0,
            started_at_ms: None,
            session: 0,
        }
    }

    /// Starts a session at time `now_ms`: while Running this is a no-op and
    /// returns no snapshot; otherwise the counter is reset, the start time
    /// recorded, and the returned snapshot is for the worker the caller now
    /// spawns. Returning promptly, it never waits for the worker — so a
    /// worker whose actuator cannot even be constructed leaves a session
    /// that shows no progress until it is stopped.
    pub fn start(&mut self, now_ms: u64) -> (r: Option<LoopSnapshot>)
        requires
            old(self)@.session < u64::MAX,
        ensures
            final(self)@ == spec_start(old(self)@, now_ms),
            r == spec_start_snapshot(old(self)@),
    {
        if self.running {
            return None;
        }
        self.running = true;
        self.click_count = 0;
        self.started_at_ms = Some(now_ms);
        self.session = self.session + 1;
        Some(
            LoopSnapshot {
                session: self.session,
                interval_ms: self.settings.interval_ms,
                mouse_button: self.settings.mouse_button,
                target_count: self.settings.click_count,
            },
        )
    }

    /// Stops the session: always succeeds, idempotent. The worker is not
    /// joined; it observes the cleared flag at its next poll.
    pub fn stop(&mut self)
        ensures
            final(self)@ == spec_stop(old(self)@),
    {
        self.running = false;
        self.started_at_ms = None;
    }

    /// Stops while Running, starts otherwise; the one entry point shared by
    /// the manual control and the hotkey trigger.
    pub fn toggle(&mut self, now_ms: u64) -> (r: Option<LoopSnapshot>)
        requires
            old(self)@.session < u64::MAX,
        ensures
            final(self)@ == spec_toggle(old(self)@, now_ms),
            r == if old(self)@.running {
                None::<LoopSnapshot>
            } else {
                spec_start_snapshot(old(self)@)
            },
    {
        if self.running {
            self.stop();
            None
        } else {
            self.start(now_ms)
        }
    }

    /// Reads a polled trigger event: only a pressed transition counts.
    /// Debouncing is the caller's next step.
    pub fn check_hotkey(&self, event: Option<KeyTransition>) -> (r: bool)
        ensures
            r == (event == Some(KeyTransition::Pressed)),
    {
        matches!(event, Some(KeyTransition::Pressed))
    }

    /// Validates a new configuration and applies it wholesale. An invalid
    /// bundle is rejected with the first violated rule and nothing changes.
    /// A valid bundle that keeps the trigger key is committed at once
    /// (`Ok(false)`). One that changes the trigger key is not committed yet
    /// (`Ok(true)`): the caller must re-register the key with the hotkey
    /// source — releasing the old registration before acquiring the new one —
    /// and call [`Self::commit_hotkey_change`] only if that succeeded, so
    /// that a failed registration rejects the whole update and the previous
    /// configuration and binding stay active.
    pub fn update_settings(&mut self, new_settings: AppSettings) -> (r: Result<
        bool,
        ValidationError,
    >)
        ensures
            !new_settings.valid() ==> final(self)@ == old(self)@ && r == Err::<
                bool,
                ValidationError,
            >(new_settings.spec_validate()->Err_0),
            new_settings.valid() && new_settings.hotkey == old(self)@.registered_hotkey ==> r == Ok::<
                bool,
                ValidationError,
            >(false) && final(self)@ == (ClickerModel { settings: new_settings, ..old(self)@ }),
            new_settings.valid() && new_settings.hotkey != old(self)@.registered_hotkey ==> r == Ok::<
                bool,
                ValidationError,
            >(true) && final(self)@ == old(self)@,
    {
        match new_settings.validate() {
            Err(e) => Err(e),
            Ok(()) => {
                if self.registered_hotkey == new_settings.hotkey {
                    self.settings = new_settings;
                    Ok(false)
                } else {
                    Ok(true)
                }
            },
        }
    }

    /// Commits an update whose trigger key the caller has now successfully
    /// re-registered: the settings and the recorded binding change together.
    pub fn commit_hotkey_change(&mut self, new_settings: AppSettings)
        requires
            new_settings.valid(),
        ensures
            final(self)@ == (ClickerModel {
                settings: new_settings,
                registered_hotkey: new_settings.hotkey,
                ..old(self)@
            }),
    {
        self.settings = new_settings;
        self.registered_hotkey = new_settings.hotkey;
    }

    /// The current session number; each `start` opens the next one. Callers
    /// check it against the counter's ceiling before starting.
    pub fn session(&self) -> (r: u64)
        ensures
            r == self@.session,
    {
        self.session
    }

    /// The trigger key currently registered with the hotkey source.
    pub fn registered_hotkey(&self) -> (r: FunctionKey)
        ensures
            r == self@.registered_hotkey,
    {
        self.registered_hotkey
    }

    /// The status snapshot at time `now_ms`: a pure read, never blocking,
    /// never failing. The start time comes from the same monotonic clock as
    /// `now_ms`, so it is never in the future.
    pub fn get_status(&self, now_ms: u64) -> (r: ClickerStatus)
        requires
            self@.started_at_ms matches Some(s) ==> s <= now_ms,
        ensures
            r == spec_status(self@, now_ms),
    {
        ClickerStatus {
            state: if self.running {
                ClickerState::Running
            } else {
                ClickerState::Stopped
            },
            click_count: self.click_count,
            target_count: self.settings.click_count,
            runtime_seconds: match self.started_at_ms {
                Some(s) => (now_ms - s) / 1000,
                None => 0,
            },
        }
    }

    /// The worker calls this at the top of each iteration; `true` means one
    /// action is due now. With a stale snapshot it neither acts nor touches
    /// anything; when the counter has reached the snapshot's target it closes
    /// the session instead of acting.
    pub fn worker_poll(&mut self, snapshot: LoopSnapshot) -> (r: bool)
        ensures
            final(self)@ == spec_worker_poll(old(self)@, snapshot).0,
            r == spec_worker_poll(old(self)@, snapshot).1,
    {
        if snapshot.session != self.session || !self.running {
            return false;
        }
        if let Some(target) = snapshot.target_count {
            if self.click_count >= target {
                self.running = false;
                return false;
            }
        }
        true
    }

    /// The worker calls this after performing one action, reporting how it
    /// went; `true` means keep going. A success increments the counter by
    /// exactly one, a transient failure changes nothing and stops nothing, a
    /// fatal failure closes the session; a stale snapshot changes nothing.
    pub fn worker_report(&mut self, snapshot: LoopSnapshot, outcome: ActuationOutcome) -> (r: bool)
        requires
            snapshot.session == old(self)@.session && outcome is Success ==> old(
                self,
            )@.click_count < u32::MAX,
        ensures
            final(self)@ == spec_worker_report(old(self)@, snapshot, outcome).0,
            r == spec_worker_report(old(self)@, snapshot, outcome).1,
    {
        if snapshot.session != self.session {
            return false;
        }
        match outcome {
            ActuationOutcome::Success => {
                self.click_count = self.click_count + 1;
                self.running
            },
            ActuationOutcome::TransientFailure => self.running,
            ActuationOutcome::FatalFailure => {
                self.running = false;
                false
            },
        }
    }
}

} // verus!
