use vstd::prelude::*;

verus! {

/// Which mouse button the synthesized click presses.
#[derive(Clone, Copy, PartialEq, Eq, Structural, Debug)]
pub enum MouseButton {
    Left,
    Right,
}

/// Whether one click or a double click is synthesized per loop pass.
#[derive(Clone, Copy, PartialEq, Eq, Structural, Debug)]
pub enum ClickType {
    Single,
    Double,
}

/// How the session decides to end on its own: after a fixed number of clicks,
/// or never (an explicit stop is then the only way out).
#[derive(Clone, Copy, PartialEq, Eq, Structural, Debug)]
pub enum ClickMode {
    RepeatCount(u32),
    RepeatUntilStopped,
}

/// Immutable snapshot of the clicking settings, captured once per start
/// request. A running session never sees later edits to the live settings.
#[derive(Clone, Copy, PartialEq, Eq, Structural, Debug)]
pub struct ClickingConfig {
    pub interval_ms: u64,
    pub mouse_button: MouseButton,
    pub click_type: ClickType,
    pub click_mode: ClickMode,
    pub use_current_position: bool,
    pub cursor_x: i32,
    pub cursor_y: i32,
    pub random_offset: bool,
    pub random_offset_ms: u32,
}

impl ClickingConfig {
    /// A snapshot as the settings surface hands it out: the interval has had
    /// its floor applied, and a fixed repeat count is at least one.
    pub open spec fn wf(self) -> bool {
        &&& self.interval_ms >= 1
        &&& self.click_mode matches ClickMode::RepeatCount(n) ==> n >= 1
    }
}

} // verus!
