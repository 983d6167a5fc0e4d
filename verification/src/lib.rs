pub mod config;
pub mod controller;
pub mod hotkey;
pub mod keys;
pub mod session;
pub mod state;

pub use config::{ClickMode, ClickType, ClickingConfig, MouseButton};
pub use controller::NClickerApp;
pub use hotkey::{GlobalHotkeyThread, HotkeyManager, HotkeyPoller, PollAction, PollSample};
pub use keys::{FunctionKey, HotkeySpec, ModifierKey};
pub use session::{ClickCommand, TickStep};
pub use state::ClickerState;

use vstd::prelude::*;

verus! {

/// Interval floor, in milliseconds: a session whose configured interval merges
/// to zero runs at this cadence instead, so the loop always makes progress.
pub const MIN_INTERVAL_MS: u64 = 100;

/// The configured interval as entered in separate hour/minute/second/millisecond
/// fields, merged to a single number of milliseconds, before the floor is applied.
pub open spec fn raw_interval_ms(hours: u32, minutes: u32, seconds: u32, milliseconds: u32) -> int {
    (hours * 3600 + minutes * 60 + seconds) * 1000 + milliseconds
}

/// The interval a session actually uses: the raw total, except that a raw
/// total of zero is coerced to the floor rather than rejected.
pub open spec fn effective_interval_ms(
    hours: u32,
    minutes: u32,
    seconds: u32,
    milliseconds: u32,
) -> int {
    if raw_interval_ms(hours, minutes, seconds, milliseconds) == 0 {
        MIN_INTERVAL_MS as int
    } else {
        raw_interval_ms(hours, minutes, seconds, milliseconds)
    }
}

/// Merge the interval fields to one effective millisecond value, applying the
/// floor to a raw total of zero.
pub fn merge_interval_ms(hours: u32, minutes: u32, seconds: u32, milliseconds: u32) -> (r: u64)
    ensures
        r == effective_interval_ms(hours, minutes, seconds, milliseconds),
        r >= 1,
{
    let total_ms: u64 = (hours as u64 * 3600 + minutes as u64 * 60 + seconds as u64) * 1000
        + milliseconds as u64;
    if total_ms == 0 {
        MIN_INTERVAL_MS
    } else {
        total_ms
    }
}

} // verus!
