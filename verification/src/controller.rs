use vstd::prelude::*;

use crate::config::{ClickMode, ClickType, ClickingConfig, MouseButton};
use crate::effective_interval_ms;
use crate::hotkey::{active_status, GlobalHotkeyThread, HotkeyManager};
use crate::keys::{FunctionKey, ModifierKey};
use crate::merge_interval_ms;
use crate::state::ClickerState;

verus! {

/// The live settings the UI collaborator edits, together with the shared
/// session state and the hotkey feature: the facade the render loop calls.
/// Edits to the settings fields have no effect on a running session; each
/// start captures an immutable snapshot of them.
pub struct NClickerApp {
    pub hours: u32,
    pub minutes: u32,
    pub seconds: u32,
    pub milliseconds: u32,
    pub random_offset: bool,
    pub random_offset_ms: u32,
    pub mouse_button: MouseButton,
    pub click_type: ClickType,
    pub click_mode: ClickMode,
    pub repeat_count: u32,
    pub use_current_position: bool,
    pub cursor_x: i32,
    pub cursor_y: i32,
    pub hotkeys_enabled: bool,
    pub start_modifier: ModifierKey,
    pub start_key: FunctionKey,
    pub stop_modifier: ModifierKey,
    pub stop_key: FunctionKey,
    pub clicker_state: ClickerState,
    pub hotkey_manager: HotkeyManager,
}

impl NClickerApp {
    /// The settings surface keeps a fixed repeat count at one or more.
    pub open spec fn wf(self) -> bool {
        &&& self.repeat_count >= 1
        &&& self.click_mode matches ClickMode::RepeatCount(n) ==> n >= 1
    }

    /// The snapshot a start request captures from the current settings.
    pub open spec fn config_of(self) -> ClickingConfig {
        ClickingConfig {
            interval_ms: effective_interval_ms(
                self.hours,
                self.minutes,
                self.seconds,
                self.milliseconds,
            ) as u64,
            mouse_button: self.mouse_button,
            click_type: self.click_type,
            click_mode: self.click_mode,
            use_current_position: self.use_current_position,
            cursor_x: self.cursor_x,
            cursor_y: self.cursor_y,
            random_offset: self.random_offset,
            random_offset_ms: self.random_offset_ms,
        }
    }

    pub fn calculate_interval_ms(&self) -> (r: u64)
        ensures
            r == effective_interval_ms(self.hours, self.minutes, self.seconds, self.milliseconds),
            r >= 1,
    {
        merge_interval_ms(self.hours, self.minutes, self.seconds, self.milliseconds)
    }

    pub fn get_start_hotkey_string(&self) -> (s: String)
        ensures
            s@ == self.start_modifier.label() + self.start_key.label(),
    {
        let mut s = self.start_modifier.to_string();
        let key = self.start_key.to_string();
        s.append(key.as_str());
        s
    }

    pub fn get_stop_hotkey_string(&self) -> (s: String)
        ensures
            s@ == self.stop_modifier.label() + self.stop_key.label(),
    {
        let mut s = self.stop_modifier.to_string();
        let key = self.stop_key.to_string();
        s.append(key.as_str());
        s
    }

    /// Capture the immutable snapshot a session runs with.
    pub fn get_clicking_config(&self) -> (c: ClickingConfig)
        requires
            self.wf(),
        ensures
            c == self.config_of(),
            c.wf(),
    {
        ClickingConfig {
            interval_ms: self.calculate_interval_ms(),
            mouse_button: self.mouse_button,
            click_type: self.click_type,
            click_mode: self.click_mode,
            use_current_position: self.use_current_position,
            cursor_x: self.cursor_x,
            cursor_y: self.cursor_y,
            random_offset: self.random_offset,
            random_offset_ms: self.random_offset_ms,
        }
    }

    /// Start a session from the current settings. A start while a session is
    /// already running is a no-op: nothing changes, no second loop appears.
    pub fn start_clicking(&mut self)
        requires
            old(self).wf(),
        ensures
            old(self).clicker_state.running ==> *final(self) == *old(self),
            !old(self).clicker_state.running ==> *final(self) == (NClickerApp {
                clicker_state: ClickerState {
                    running: true,
                    click_count: 0,
                    clicking_config: Some(old(self).config_of()),
                    ..old(self).clicker_state
                },
                ..*old(self)
            }),
    {
        if self.clicker_state.is_running() {
            return ;
        }
        let config = self.get_clicking_config();
        self.clicker_state.start_clicking_with_config(config);
    }

    /// Request that the running session end; its loop observes the cleared
    /// flag at the next loop-top check.
    pub fn stop_clicking(&mut self)
        ensures
            *final(self) == (NClickerApp {
                clicker_state: ClickerState { running: false, ..old(self).clicker_state },
                ..*old(self)
            }),
    {
        self.clicker_state.stop_clicking();
    }

    /// Hand the hotkey feature the current combos and a freshly started
    /// polling-task handle; a no-op while hotkeys are disabled.
    pub fn start_hotkey_polling(&mut self)
        ensures
            !old(self).hotkeys_enabled ==> *final(self) == *old(self),
            old(self).hotkeys_enabled ==> {
                &&& *final(self) == (NClickerApp {
                    clicker_state: ClickerState {
                        hotkey_thread_running: true,
                        ..old(self).clicker_state
                    },
                    hotkey_manager: final(self).hotkey_manager,
                    ..*old(self)
                })
                &&& final(self).hotkey_manager.enabled
                &&& final(self).hotkey_manager.start_modifier == old(self).start_modifier
                &&& final(self).hotkey_manager.start_key == old(self).start_key
                &&& final(self).hotkey_manager.stop_modifier == old(self).stop_modifier
                &&& final(self).hotkey_manager.stop_key == old(self).stop_key
                &&& final(self).hotkey_manager.hotkey_thread == Some(
                    GlobalHotkeyThread { should_stop: false, thread_running: true },
                )
                &&& final(self).hotkey_manager.status@ == active_status(
                    old(self).start_modifier,
                    old(self).start_key,
                    old(self).stop_modifier,
                    old(self).stop_key,
                )
            },
    {
        if !self.hotkeys_enabled {
            return ;
        }
        self.hotkey_manager.start_polling(
            self.start_modifier,
            self.start_key,
            self.stop_modifier,
            self.stop_key,
            &mut self.clicker_state,
        );
    }

    /// Signal the polling task to stop and clear the shared thread-alive
    /// marker the status surface shows.
    pub fn stop_hotkey_polling(&mut self)
        ensures
            *final(self) == (NClickerApp {
                clicker_state: ClickerState {
                    hotkey_thread_running: false,
                    ..old(self).clicker_state
                },
                hotkey_manager: final(self).hotkey_manager,
                ..*old(self)
            }),
            !final(self).hotkey_manager.enabled,
            final(self).hotkey_manager.hotkey_thread is None,
            final(self).hotkey_manager.status@ == "Global hotkey polling stopped"@,
            final(self).hotkey_manager.start_modifier == old(self).hotkey_manager.start_modifier,
            final(self).hotkey_manager.start_key == old(self).hotkey_manager.start_key,
            final(self).hotkey_manager.stop_modifier == old(self).hotkey_manager.stop_modifier,
            final(self).hotkey_manager.stop_key == old(self).hotkey_manager.stop_key,
    {
        self.hotkey_manager.stop_polling();
        self.clicker_state.set_hotkey_thread_running(false);
    }
}

impl Default for NClickerApp {
    /// The settings each process start begins from: a one-second interval,
    /// left single clicks at the current pointer position repeating until
    /// stopped, and hotkeys enabled on F6 (toggle) and F7 (stop).
    fn default() -> (app: Self)
        ensures
            app.wf(),
            app.hours == 0,
            app.minutes == 0,
            app.seconds == 1,
            app.milliseconds == 0,
            !app.random_offset,
            app.random_offset_ms == 100,
            app.mouse_button == MouseButton::Left,
            app.click_type == ClickType::Single,
            app.click_mode == ClickMode::RepeatUntilStopped,
            app.repeat_count == 1,
            app.use_current_position,
            app.cursor_x == 0,
            app.cursor_y == 0,
            app.hotkeys_enabled,
            app.start_modifier == ModifierKey::NoModifier,
            app.start_key == FunctionKey::F6,
            app.stop_modifier == ModifierKey::NoModifier,
            app.stop_key == FunctionKey::F7,
            app.clicker_state == (ClickerState {
                running: false,
                click_count: 0,
                should_start: false,
                should_stop: false,
                hotkey_thread_running: false,
                clicking_config: None,
            }),
            !app.hotkey_manager.enabled,
            app.hotkey_manager.hotkey_thread is None,
    {
        NClickerApp {
            hours: 0,
            minutes: 0,
            seconds: 1,
            milliseconds: 0,
            random_offset: false,
            random_offset_ms: 100,
            mouse_button: MouseButton::Left,
            click_type: ClickType::Single,
            click_mode: ClickMode::RepeatUntilStopped,
            repeat_count: 1,
            use_current_position: true,
            cursor_x: 0,
            cursor_y: 0,
            hotkeys_enabled: true,
            start_modifier: ModifierKey::NoModifier,
            start_key: FunctionKey::F6,
            stop_modifier: ModifierKey::NoModifier,
            stop_key: FunctionKey::F7,
            clicker_state: ClickerState::new(),
            hotkey_manager: HotkeyManager::new(),
        }
    }
}

} // verus!
