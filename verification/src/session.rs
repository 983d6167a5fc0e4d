use vstd::prelude::*;

use crate::config::{ClickMode, ClickType, ClickingConfig, MouseButton};
use crate::state::ClickerState;

verus! {

/// One synthesized click, as the action loop hands it to the platform layer:
/// which button, whether to double-click, and where to move the pointer first
/// (`None` keeps the pointer where it is).
#[derive(Clone, Copy, PartialEq, Eq, Debug)]
pub struct ClickCommand {
    pub button: MouseButton,
    pub double_click: bool,
    pub move_to: Option<(i32, i32)>,
}

/// The click the given settings snapshot asks for on every loop pass.
pub open spec fn click_command_of(c: ClickingConfig) -> ClickCommand {
    ClickCommand {
        button: c.mouse_button,
        double_click: c.click_type == ClickType::Double,
        move_to: if c.use_current_position {
            None
        } else {
            Some((c.cursor_x, c.cursor_y))
        },
    }
}

/// Build the click that one pass of the action loop performs under `c`.
pub fn click_command(c: &ClickingConfig) -> (cmd: ClickCommand)
    ensures
        cmd == click_command_of(*c),
{
    ClickCommand {
        button: c.mouse_button,
        double_click: match c.click_type {
            ClickType::Double => true,
            ClickType::Single => false,
        },
        move_to: if c.use_current_position {
            None
        } else {
            Some((c.cursor_x, c.cursor_y))
        },
    }
}

/// Relies on fastrand::u32: a sample from the inclusive range `0..=max`,
/// drawn from the crate's thread-local generator. The range is never empty,
/// so the call cannot panic; beyond membership in the range nothing holds of
/// the result, since it depends on the generator's hidden state.
#[verifier::external_body]
fn random_offset_sample(max: u32) -> (r: u32)
    ensures
        r <= max,
{
    fastrand::u32(0..=max)
}

/// What the pause after a click may be: exactly the configured interval, or,
/// with the random offset enabled, the interval lengthened by at most the
/// configured maximum (the sum saturates rather than wraps).
pub open spec fn valid_sleep_ms(c: ClickingConfig, s: u64) -> bool {
    if c.random_offset && c.random_offset_ms > 0 {
        c.interval_ms <= s && s <= c.interval_ms + c.random_offset_ms
    } else {
        s == c.interval_ms
    }
}

/// How long the loop pauses before its next pass: the configured interval,
/// plus a fresh uniformly random offset on every pass when jitter is enabled.
pub fn compute_sleep_ms(c: &ClickingConfig) -> (s: u64)
    ensures
        valid_sleep_ms(*c, s),
{
    let mut sleep_ms = c.interval_ms;
    if c.random_offset && c.random_offset_ms > 0 {
        let offset = random_offset_sample(c.random_offset_ms) as u64;
        sleep_ms = if sleep_ms <= u64::MAX - offset {
            sleep_ms + offset
        } else {
            u64::MAX
        };
    }
    sleep_ms
}

/// What one pass of the action loop decided: perform a click and pause, or
/// leave the loop (the running flag has just been cleared).
#[derive(Clone, Copy, PartialEq, Eq, Debug)]
pub enum TickStep {
    Click { command: ClickCommand, sleep_ms: u64 },
    Done,
}

/// The loop-top continuation test: the running flag holds, and a fixed repeat
/// count has not yet been reached. The count check is the self-terminating
/// exit, distinct from an external stop clearing the flag.
pub open spec fn session_continues(state: ClickerState, performed: u32, c: ClickingConfig) -> bool {
    state.running && match c.click_mode {
        ClickMode::RepeatCount(max_clicks) => performed < max_clicks,
        ClickMode::RepeatUntilStopped => true,
    }
}

/// One pass of the action loop: check the continuation condition at loop-top;
/// either count one click and say what to perform and how long to pause, or
/// clear the running flag and report the session over. The caller performs
/// the click and the pause between passes.
pub fn session_tick(state: &mut ClickerState, performed: &mut u32, c: &ClickingConfig) -> (step:
    TickStep)
    requires
        session_continues(*old(state), *old(performed), *c) ==> {
            &&& old(state).click_count < u32::MAX
            &&& *old(performed) < u32::MAX
        },
    ensures
        final(state).click_count >= old(state).click_count,
        session_continues(*old(state), *old(performed), *c) ==> {
            &&& step matches TickStep::Click { command, sleep_ms } && command == click_command_of(
                *c,
            ) && valid_sleep_ms(*c, sleep_ms)
            &&& *final(performed) == *old(performed) + 1
            &&& *final(state) == (ClickerState {
                click_count: (old(state).click_count + 1) as u32,
                ..*old(state)
            })
        },
        !session_continues(*old(state), *old(performed), *c) ==> {
            &&& step == TickStep::Done
            &&& *final(performed) == *old(performed)
            &&& *final(state) == (ClickerState { running: false, ..*old(state) })
        },
{
    let continues = state.is_running() && match c.click_mode {
        ClickMode::RepeatCount(max_clicks) => *performed < max_clicks,
        ClickMode::RepeatUntilStopped => true,
    };
    if !continues {
        state.stop();
        return TickStep::Done;
    }
    let command = click_command(c);
    let sleep_ms = compute_sleep_ms(c);
    *performed = *performed + 1;
    state.increment_click_count();
    TickStep::Click { command, sleep_ms }
}

/// How many clicks a session makes in at most `max_ticks` loop passes: a
/// fixed repeat count caps it at the count, and the pass budget caps it
/// always.
pub open spec fn capped_clicks(c: ClickingConfig, max_ticks: u32) -> int {
    match c.click_mode {
        ClickMode::RepeatCount(max_clicks) => if max_clicks <= max_ticks {
            max_clicks as int
        } else {
            max_ticks as int
        },
        ClickMode::RepeatUntilStopped => max_ticks as int,
    }
}

/// Drive the action loop for at most `max_ticks` passes with no external stop,
/// collecting the clicks it asks for. A session with a fixed repeat count of
/// `n < max_ticks` performs exactly `n` clicks and then clears the running
/// flag by itself; an unbounded session uses the whole budget, keeps running,
/// and its click count grows by exactly one per pass.
pub fn run_session(state: &mut ClickerState, c: &ClickingConfig, max_ticks: u32) -> (log: Vec<
    ClickCommand,
>)
    requires
        old(state).click_count + capped_clicks(*c, max_ticks) <= u32::MAX,
    ensures
        final(state).click_count >= old(state).click_count,
        log.len() == if old(state).running {
            capped_clicks(*c, max_ticks)
        } else {
            0
        },
        forall|i: int| 0 <= i < log.len() ==> log[i] == click_command_of(*c),
        *final(state) == (ClickerState {
            running: old(state).running && match c.click_mode {
                ClickMode::RepeatCount(max_clicks) => max_clicks >= max_ticks,
                ClickMode::RepeatUntilStopped => true,
            },
            click_count: (old(state).click_count + log.len()) as u32,
            ..*old(state)
        }),
{
    let ghost count0 = state.click_count;
    let ghost running0 = state.running;
    let mut log: Vec<ClickCommand> = Vec::new();
    let mut performed: u32 = 0;
    let mut ticks: u32 = 0;
    while ticks < max_ticks
        invariant_except_break
            ticks <= max_ticks,
            performed == ticks,
            log.len() == performed,
            forall|i: int| 0 <= i < log.len() ==> log[i] == click_command_of(*c),
            state.running == running0,
            !running0 ==> performed == 0,
            c.click_mode matches ClickMode::RepeatCount(max_clicks) ==> performed <= max_clicks,
            *state == (ClickerState {
                click_count: (count0 + performed) as u32,
                ..*old(state)
            }),
            count0 == old(state).click_count,
            running0 == old(state).running,
            count0 + capped_clicks(*c, max_ticks) <= u32::MAX,
        ensures
            log.len() == performed,
            forall|i: int| 0 <= i < log.len() ==> log[i] == click_command_of(*c),
            performed == if running0 {
                capped_clicks(*c, max_ticks)
            } else {
                0
            },
            state.running == (running0 && match c.click_mode {
                ClickMode::RepeatCount(max_clicks) => max_clicks >= max_ticks,
                ClickMode::RepeatUntilStopped => true,
            }),
            state.click_count == count0 + performed,
            state.should_start == old(state).should_start,
            state.should_stop == old(state).should_stop,
            state.hotkey_thread_running == old(state).hotkey_thread_running,
            state.clicking_config == old(state).clicking_config,
        decreases max_ticks - ticks,
    {
        match session_tick(state, &mut performed, c) {
            TickStep::Click { command, sleep_ms: _ } => {
                log.push(command);
            },
            TickStep::Done => {
                break ;
            },
        }
        ticks = ticks + 1;
    }
    log
}

} // verus!
