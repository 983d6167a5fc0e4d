use vstd::prelude::*;

use crate::config::ClickingConfig;
use crate::keys::{FunctionKey, HotkeySpec, ModifierKey};
use crate::state::ClickerState;

verus! {

/// How often the poller samples the physical key state, in milliseconds.
pub const HOTKEY_POLL_INTERVAL_MS: u64 = 50;

/// After any fired hotkey action, no further action may fire for this many
/// milliseconds, from either combo: polling jitter must not read one physical
/// press as several, and overlapping combos must not both fire on one press.
pub const DEBOUNCE_MS: u64 = 300;

/// What one poll of the key state led to.
#[derive(Clone, Copy, PartialEq, Eq, Structural, Debug)]
pub enum PollAction {
    Idle,
    Started,
    Stopped,
}

/// The poller's own small state machine: the previous-sample pressed flag of
/// each combo, for edge detection, and the time of the last fired action, for
/// the debounce window. Time is a millisecond reading the caller samples from
/// a monotonic clock; `None` means no action has fired yet.
#[derive(Clone, Copy, PartialEq, Eq, Debug)]
pub struct HotkeyPoller {
    pub start_was_pressed: bool,
    pub stop_was_pressed: bool,
    pub last_action_ms: Option<u64>,
}

/// The poller state at thread start: neither combo seen pressed, no action
/// fired yet (so a press in the very first samples may fire at once).
pub open spec fn initial_poller() -> HotkeyPoller {
    HotkeyPoller { start_was_pressed: false, stop_was_pressed: false, last_action_ms: None }
}

impl HotkeyPoller {
    pub fn new() -> (p: Self)
        ensures
            p == initial_poller(),
    {
        HotkeyPoller { start_was_pressed: false, stop_was_pressed: false, last_action_ms: None }
    }
}

/// The debounce window from the last fired action (if any) has fully elapsed
/// at time `now_ms`.
pub open spec fn debounce_ok(last_action_ms: Option<u64>, now_ms: u64) -> bool {
    match last_action_ms {
        None => true,
        Some(t) => now_ms > t + DEBOUNCE_MS,
    }
}

/// Whether the debounce window has elapsed. A clock reading earlier than the
/// recorded action time counts as an elapsed duration of zero.
pub fn debounce_elapsed(last_action_ms: &Option<u64>, now_ms: u64) -> (r: bool)
    ensures
        r == debounce_ok(*last_action_ms, now_ms),
{
    match last_action_ms {
        None => true,
        Some(t) => now_ms >= *t && now_ms - *t > DEBOUNCE_MS,
    }
}

/// The toggle branch fires: the start combo is sampled pressed, was not
/// pressed at the previous sample (edge detection), and the debounce window
/// has elapsed.
pub open spec fn start_fires(p: HotkeyPoller, start_pressed: bool, now_ms: u64) -> bool {
    start_pressed && !p.start_was_pressed && debounce_ok(p.last_action_ms, now_ms)
}

/// The stop-only branch fires. It is evaluated only when the stop combo
/// differs from the start combo, and a toggle fired in this same poll blocks
/// it (the action it recorded restarts the debounce window at `now_ms`).
pub open spec fn stop_fires(
    p: HotkeyPoller,
    combos: HotkeySpec,
    start_pressed: bool,
    stop_pressed: bool,
    now_ms: u64,
) -> bool {
    &&& !combos.same_combo()
    &&& stop_pressed
    &&& !p.stop_was_pressed
    &&& !start_fires(p, start_pressed, now_ms)
    &&& debounce_ok(p.last_action_ms, now_ms)
}

/// The poller state after one poll: previous-pressed flags take the sampled
/// values (the stop flag only when the stop branch is evaluated at all), and
/// a fired action records its time.
pub open spec fn poller_after(
    p: HotkeyPoller,
    combos: HotkeySpec,
    start_pressed: bool,
    stop_pressed: bool,
    now_ms: u64,
) -> HotkeyPoller {
    HotkeyPoller {
        start_was_pressed: start_pressed,
        stop_was_pressed: if !combos.same_combo() {
            stop_pressed
        } else {
            p.stop_was_pressed
        },
        last_action_ms: if start_fires(p, start_pressed, now_ms) || stop_fires(
            p,
            combos,
            start_pressed,
            stop_pressed,
            now_ms,
        ) {
            Some(now_ms)
        } else {
            p.last_action_ms
        },
    }
}

/// The action one poll takes: a toggle edge starts the session when it is
/// stopped and stops it when it is running; a stop-only edge always stops it.
/// At most one action fires per poll.
pub open spec fn action_of(
    p: HotkeyPoller,
    running: bool,
    combos: HotkeySpec,
    start_pressed: bool,
    stop_pressed: bool,
    now_ms: u64,
) -> PollAction {
    if start_fires(p, start_pressed, now_ms) {
        if running {
            PollAction::Stopped
        } else {
            PollAction::Started
        }
    } else if stop_fires(p, combos, start_pressed, stop_pressed, now_ms) {
        PollAction::Stopped
    } else {
        PollAction::Idle
    }
}

/// One pass of the hotkey polling loop. The caller samples the physical
/// pressed state of each combo (modifier held and key held) and a monotonic
/// millisecond clock, and hands them in; this decides whether an action
/// fires, applies it to the shared session state, and advances the poller's
/// edge-detection state.
pub fn poll_step(
    poller: &mut HotkeyPoller,
    state: &mut ClickerState,
    combos: &HotkeySpec,
    config: &ClickingConfig,
    start_pressed: bool,
    stop_pressed: bool,
    now_ms: u64,
) -> (action: PollAction)
    ensures
        *final(poller) == poller_after(*old(poller), *combos, start_pressed, stop_pressed, now_ms),
        action == action_of(
            *old(poller),
            old(state).running,
            *combos,
            start_pressed,
            stop_pressed,
            now_ms,
        ),
        action == PollAction::Started ==> !old(state).running && *final(state) == (ClickerState {
            running: true,
            click_count: 0,
            clicking_config: Some(*config),
            ..*old(state)
        }),
        action == PollAction::Stopped ==> *final(state) == (ClickerState {
            running: false,
            ..*old(state)
        }),
        action == PollAction::Idle ==> *final(state) == *old(state),
{
    let mut action = PollAction::Idle;
    if start_pressed && !poller.start_was_pressed && debounce_elapsed(&poller.last_action_ms, now_ms) {
        if state.is_running() {
            state.stop_clicking();
            action = PollAction::Stopped;
        } else {
            state.start_clicking_with_config(*config);
            action = PollAction::Started;
        }
        poller.last_action_ms = Some(now_ms);
    }
    poller.start_was_pressed = start_pressed;
    if !combos.is_same_combo() {
        if stop_pressed && !poller.stop_was_pressed && debounce_elapsed(
            &poller.last_action_ms,
            now_ms,
        ) {
            state.stop_clicking();
            action = PollAction::Stopped;
            poller.last_action_ms = Some(now_ms);
        }
        poller.stop_was_pressed = stop_pressed;
    }
    action
}

/// One sampled poll: the pressed state of each combo and the clock reading.
#[derive(Clone, Copy, PartialEq, Eq, Debug)]
pub struct PollSample {
    pub start_pressed: bool,
    pub stop_pressed: bool,
    pub now_ms: u64,
}

/// A fired action counts one; an idle poll counts zero.
pub open spec fn count_fire(a: PollAction) -> int {
    if a == PollAction::Idle {
        0
    } else {
        1
    }
}

/// Run the poller over a sequence of samples, exactly as repeated `poll_step`
/// calls do by that function's contract: each sample takes the action
/// `action_of` gives, the session's running flag follows the action, and the
/// poller state advances by `poller_after`. Yields the final poller state,
/// the final running flag, and how many actions fired.
pub open spec fn run_polls(
    p: HotkeyPoller,
    running: bool,
    combos: HotkeySpec,
    samples: Seq<PollSample>,
) -> (HotkeyPoller, bool, int)
    decreases samples.len(),
{
    if samples.len() == 0 {
        (p, running, 0)
    } else {
        let s = samples[0];
        let a = action_of(p, running, combos, s.start_pressed, s.stop_pressed, s.now_ms);
        let p2 = poller_after(p, combos, s.start_pressed, s.stop_pressed, s.now_ms);
        let running2 = if a == PollAction::Started {
            true
        } else if a == PollAction::Stopped {
            false
        } else {
            running
        };
        let rest = run_polls(p2, running2, combos, samples.drop_first());
        (rest.0, rest.1, count_fire(a) + rest.2)
    }
}

/// While the start combo stays held and the stop combo stays released, a
/// poller that has already seen the start combo pressed fires nothing: edge
/// detection alone blocks every further poll, whatever the clock reads.
proof fn lemma_held_start_no_fire(
    p: HotkeyPoller,
    running: bool,
    combos: HotkeySpec,
    samples: Seq<PollSample>,
)
    requires
        p.start_was_pressed,
        forall|i: int|
            0 <= i < samples.len() ==> (#[trigger] samples[i]).start_pressed
                && !samples[i].stop_pressed,
    ensures
        run_polls(p, running, combos, samples).2 == 0,
    decreases samples.len(),
{
    if samples.len() > 0 {
        let s = samples[0];
        let p2 = poller_after(p, combos, s.start_pressed, s.stop_pressed, s.now_ms);
        assert(forall|i: int|
            0 <= i < samples.drop_first().len() ==> (#[trigger] samples.drop_first()[i])
                == samples[i + 1]);
        lemma_held_start_no_fire(p2, running, combos, samples.drop_first());
    }
}

/// Edge detection over a whole hold: one press-and-hold of the start combo,
/// however many poll cycles it spans, fires exactly one action — the first
/// sample's edge — never one per cycle. The stop combo is released
/// throughout; the first sample must lie outside any debounce window still
/// open from before.
pub proof fn lemma_hold_fires_once(
    p: HotkeyPoller,
    running: bool,
    combos: HotkeySpec,
    samples: Seq<PollSample>,
)
    requires
        samples.len() >= 1,
        !p.start_was_pressed,
        debounce_ok(p.last_action_ms, samples[0].now_ms),
        forall|i: int|
            0 <= i < samples.len() ==> (#[trigger] samples[i]).start_pressed
                && !samples[i].stop_pressed,
    ensures
        run_polls(p, running, combos, samples).2 == 1,
{
    let s = samples[0];
    let a = action_of(p, running, combos, s.start_pressed, s.stop_pressed, s.now_ms);
    let p2 = poller_after(p, combos, s.start_pressed, s.stop_pressed, s.now_ms);
    let running2 = if a == PollAction::Started {
        true
    } else if a == PollAction::Stopped {
        false
    } else {
        running
    };
    assert(start_fires(p, s.start_pressed, s.now_ms));
    assert(count_fire(a) == 1);
    assert(forall|i: int|
        0 <= i < samples.drop_first().len() ==> (#[trigger] samples.drop_first()[i]) == samples[i
            + 1]);
    lemma_held_start_no_fire(p2, running2, combos, samples.drop_first());
    assert(run_polls(p, running, combos, samples).2 == count_fire(a) + run_polls(
        p2,
        running2,
        combos,
        samples.drop_first(),
    ).2);
}

/// The debounce window over two distinct presses: press, release, press
/// again, with the stop combo released throughout and a fresh poller. The
/// first press fires. The second press is a clean edge, yet it fires only
/// when it falls after the debounce window that the first action opened;
/// within the window the two presses collapse to one action.
pub proof fn lemma_debounce_two_presses(
    running: bool,
    combos: HotkeySpec,
    t1: u64,
    t2: u64,
    t3: u64,
)
    requires
        t1 <= t2 <= t3,
    ensures
        ({
            let samples = seq![
                PollSample { start_pressed: true, stop_pressed: false, now_ms: t1 },
                PollSample { start_pressed: false, stop_pressed: false, now_ms: t2 },
                PollSample { start_pressed: true, stop_pressed: false, now_ms: t3 },
            ];
            run_polls(initial_poller(), running, combos, samples).2 == if t3 > t1 + DEBOUNCE_MS {
                2int
            } else {
                1int
            }
        }),
{
    let samples = seq![
        PollSample { start_pressed: true, stop_pressed: false, now_ms: t1 },
        PollSample { start_pressed: false, stop_pressed: false, now_ms: t2 },
        PollSample { start_pressed: true, stop_pressed: false, now_ms: t3 },
    ];
    let p0 = initial_poller();
    let s0 = samples[0];
    let a0 = action_of(p0, running, combos, s0.start_pressed, s0.stop_pressed, s0.now_ms);
    let p1 = poller_after(p0, combos, s0.start_pressed, s0.stop_pressed, s0.now_ms);
    let running1 = if a0 == PollAction::Started {
        true
    } else if a0 == PollAction::Stopped {
        false
    } else {
        running
    };
    assert(start_fires(p0, true, t1));
    assert(count_fire(a0) == 1);
    assert(p1.last_action_ms == Some(t1) && !p1.stop_was_pressed);
    let rest1 = samples.drop_first();
    assert(rest1.len() == 2 && rest1[0] == samples[1] && rest1[1] == samples[2]);
    let s1 = rest1[0];
    let a1 = action_of(p1, running1, combos, s1.start_pressed, s1.stop_pressed, s1.now_ms);
    let p2 = poller_after(p1, combos, s1.start_pressed, s1.stop_pressed, s1.now_ms);
    assert(a1 == PollAction::Idle);
    assert(p2 == (HotkeyPoller {
        start_was_pressed: false,
        stop_was_pressed: false,
        last_action_ms: Some(t1),
    }));
    let rest2 = rest1.drop_first();
    assert(rest2.len() == 1 && rest2[0] == samples[2]);
    let s2 = rest2[0];
    let a2 = action_of(p2, running1, combos, s2.start_pressed, s2.stop_pressed, s2.now_ms);
    let p3 = poller_after(p2, combos, s2.start_pressed, s2.stop_pressed, s2.now_ms);
    let running2 = if a2 == PollAction::Started {
        true
    } else if a2 == PollAction::Stopped {
        false
    } else {
        running1
    };
    assert(start_fires(p2, true, t3) == (t3 > t1 + DEBOUNCE_MS));
    assert(!stop_fires(p2, combos, s2.start_pressed, s2.stop_pressed, s2.now_ms));
    assert(count_fire(a2) == if t3 > t1 + DEBOUNCE_MS {
        1int
    } else {
        0int
    });
    let rest3 = rest2.drop_first();
    assert(rest3.len() == 0);
    assert(run_polls(p3, running2, combos, rest3).2 == 0);
    assert(run_polls(p2, running1, combos, rest2).2 == count_fire(a2) + run_polls(
        p3,
        running2,
        combos,
        rest3,
    ).2);
    assert(run_polls(p1, running1, combos, rest1).2 == count_fire(a1) + run_polls(
        p2,
        running1,
        combos,
        rest2,
    ).2);
    assert(run_polls(p0, running, combos, samples).2 == count_fire(a0) + run_polls(
        p1,
        running1,
        combos,
        rest1,
    ).2);
}

/// With one combo doing double duty as both start and stop, the stop-only
/// branch is skipped entirely: it never fires, and its edge-detection flag
/// never moves, so a single press cannot act twice.
pub proof fn lemma_same_combo_skips_stop_branch(
    p: HotkeyPoller,
    combos: HotkeySpec,
    start_pressed: bool,
    stop_pressed: bool,
    now_ms: u64,
)
    requires
        combos.same_combo(),
    ensures
        !stop_fires(p, combos, start_pressed, stop_pressed, now_ms),
        poller_after(p, combos, start_pressed, stop_pressed, now_ms).stop_was_pressed
            == p.stop_was_pressed,
{
}

/// Handle to the polling task's shared flags: the stop signal the task
/// checks at each loop-top, and the alive marker it clears on exit.
#[derive(Clone, Copy, PartialEq, Eq, Structural, Debug)]
pub struct GlobalHotkeyThread {
    pub should_stop: bool,
    pub thread_running: bool,
}

impl GlobalHotkeyThread {
    pub fn new() -> (t: Self)
        ensures
            t == (GlobalHotkeyThread { should_stop: false, thread_running: false }),
    {
        GlobalHotkeyThread { should_stop: false, thread_running: false }
    }

    /// Mark the polling task live and clear any stale stop signal; also sets
    /// the shared thread-alive marker the status surface shows.
    pub fn start(&mut self, state: &mut ClickerState)
        ensures
            *final(self) == (GlobalHotkeyThread { should_stop: false, thread_running: true }),
            *final(state) == (ClickerState { hotkey_thread_running: true, ..*old(state) }),
    {
        self.should_stop = false;
        self.thread_running = true;
        state.set_hotkey_thread_running(true);
    }

    /// Set the cooperative stop signal; the polling task observes it within
    /// one poll period and exits.
    pub fn signal_stop(&mut self)
        ensures
            *final(self) == (GlobalHotkeyThread { should_stop: true, ..*old(self) }),
    {
        self.should_stop = true;
    }

    /// The polling task clears its alive marker here, as its last step.
    pub fn mark_exited(&mut self)
        ensures
            *final(self) == (GlobalHotkeyThread { thread_running: false, ..*old(self) }),
    {
        self.thread_running = false;
    }

    pub fn stop_requested(&self) -> (r: bool)
        ensures
            r == self.should_stop,
    {
        self.should_stop
    }

    pub fn is_running(&self) -> (r: bool)
        ensures
            r == self.thread_running,
    {
        self.thread_running
    }
}

/// The status line shown while polling is active, naming both combos.
pub open spec fn active_status(
    start_modifier: ModifierKey,
    start_key: FunctionKey,
    stop_modifier: ModifierKey,
    stop_key: FunctionKey,
) -> Seq<char> {
    "Global hotkeys active: "@ + start_modifier.label() + start_key.label() + " (Start/Stop) | "@
        + stop_modifier.label() + stop_key.label() + " (Stop)"@
}

/// Owner of the hotkey feature: whether polling is enabled, which combos it
/// watches, the status line the settings surface shows, and the handle to the
/// polling task's shared flags while one is live.
pub struct HotkeyManager {
    pub enabled: bool,
    pub start_modifier: ModifierKey,
    pub start_key: FunctionKey,
    pub stop_modifier: ModifierKey,
    pub stop_key: FunctionKey,
    pub status: String,
    pub hotkey_thread: Option<GlobalHotkeyThread>,
}

impl HotkeyManager {
    pub fn new() -> (m: Self)
        ensures
            !m.enabled,
            m.start_modifier == ModifierKey::NoModifier,
            m.start_key == FunctionKey::F6,
            m.stop_modifier == ModifierKey::NoModifier,
            m.stop_key == FunctionKey::F7,
            m.status@ == "Ready to start global hotkey polling"@,
            m.hotkey_thread is None,
    {
        HotkeyManager {
            enabled: false,
            start_modifier: ModifierKey::NoModifier,
            start_key: FunctionKey::F6,
            stop_modifier: ModifierKey::NoModifier,
            stop_key: FunctionKey::F7,
            status: "Ready to start global hotkey polling".to_owned(),
            hotkey_thread: None,
        }
    }

    /// Save a combo configuration without touching the polling task. Saving
    /// never fails: the combos are plain values with no invalid combination.
    pub fn register(
        &mut self,
        start_mod: ModifierKey,
        start_key: FunctionKey,
        stop_mod: ModifierKey,
        stop_key: FunctionKey,
    ) -> (r: Result<(), String>)
        ensures
            r == Result::<(), String>::Ok(()),
            final(self).start_modifier == start_mod,
            final(self).start_key == start_key,
            final(self).stop_modifier == stop_mod,
            final(self).stop_key == stop_key,
            final(self).status@ == "Hotkey configuration saved"@,
            final(self).enabled == old(self).enabled,
            final(self).hotkey_thread == old(self).hotkey_thread,
    {
        self.start_modifier = start_mod;
        self.start_key = start_key;
        self.stop_modifier = stop_mod;
        self.stop_key = stop_key;
        self.status = "Hotkey configuration saved".to_owned();
        Ok(())
    }

    pub fn unregister(&mut self)
        ensures
            final(self).status@ == "Hotkeys unregistered"@,
            final(self).enabled == old(self).enabled,
            final(self).start_modifier == old(self).start_modifier,
            final(self).start_key == old(self).start_key,
            final(self).stop_modifier == old(self).stop_modifier,
            final(self).stop_key == old(self).stop_key,
            final(self).hotkey_thread == old(self).hotkey_thread,
    {
        self.status = "Hotkeys unregistered".to_owned();
    }

    /// Polling never goes through OS-level hotkey registration, so nothing is
    /// ever registered.
    pub fn is_registered(&self) -> (r: bool)
        ensures
            !r,
    {
        false
    }

    /// Begin watching the given combos: signal any previous polling task to
    /// stop, hand out a freshly started task handle, and mark the feature
    /// enabled. The caller runs the polling loop against the new handle.
    pub fn start_polling(
        &mut self,
        start_mod: ModifierKey,
        start_key: FunctionKey,
        stop_mod: ModifierKey,
        stop_key: FunctionKey,
        state: &mut ClickerState,
    )
        ensures
            final(self).enabled,
            final(self).start_modifier == start_mod,
            final(self).start_key == start_key,
            final(self).stop_modifier == stop_mod,
            final(self).stop_key == stop_key,
            final(self).hotkey_thread == Some(
                GlobalHotkeyThread { should_stop: false, thread_running: true },
            ),
            final(self).status@ == active_status(start_mod, start_key, stop_mod, stop_key),
            *final(state) == (ClickerState { hotkey_thread_running: true, ..*old(state) }),
    {
        match &mut self.hotkey_thread {
            Some(thread) => thread.signal_stop(),
            None => {},
        }
        let mut thread = GlobalHotkeyThread::new();
        thread.start(state);
        self.hotkey_thread = Some(thread);
        self.enabled = true;
        self.start_modifier = start_mod;
        self.start_key = start_key;
        self.stop_modifier = stop_mod;
        self.stop_key = stop_key;
        let mut status = "Global hotkeys active: ".to_owned();
        let part = start_mod.to_string();
        status.append(part.as_str());
        let part = start_key.to_string();
        status.append(part.as_str());
        status.append(" (Start/Stop) | ");
        let part = stop_mod.to_string();
        status.append(part.as_str());
        let part = stop_key.to_string();
        status.append(part.as_str());
        status.append(" (Stop)");
        self.status = status;
    }

    /// Signal the polling task to stop and drop its handle; the task observes
    /// the signal within one poll period. The caller does the short bounded
    /// wait for the task to mark itself exited.
    pub fn stop_polling(&mut self)
        ensures
            !final(self).enabled,
            final(self).hotkey_thread is None,
            final(self).status@ == "Global hotkey polling stopped"@,
            final(self).start_modifier == old(self).start_modifier,
            final(self).start_key == old(self).start_key,
            final(self).stop_modifier == old(self).stop_modifier,
            final(self).stop_key == old(self).stop_key,
    {
        match &mut self.hotkey_thread {
            Some(thread) => thread.signal_stop(),
            None => {},
        }
        self.hotkey_thread = None;
        self.enabled = false;
        self.status = "Global hotkey polling stopped".to_owned();
    }

    pub fn is_enabled(&self) -> (r: bool)
        ensures
            r == self.enabled,
    {
        self.enabled
    }

    pub fn is_thread_running(&self) -> (r: bool)
        ensures
            r == match self.hotkey_thread {
                Some(t) => t.thread_running,
                None => false,
            },
    {
        match &self.hotkey_thread {
            Some(thread) => thread.is_running(),
            None => false,
        }
    }

    pub fn get_status(&self) -> (r: &str)
        ensures
            r@ == self.status@,
    {
        self.status.as_str()
    }
}

} // verus!
