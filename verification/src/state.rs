use vstd::prelude::*;

use crate::config::ClickingConfig;

verus! {

/// The session state every task reads and writes: the running flag is the
/// single source of truth for whether the action loop continues, the click
/// count is what the status surface shows, the request flags carry start and
/// stop intents from the poller to the settings surface, and the thread-alive
/// marker tracks the hotkey poller. Each handle the tasks share guards one
/// value of this type; every method here is one atomic operation on it.
#[derive(Clone, Copy, PartialEq, Eq, Structural, Debug)]
pub struct ClickerState {
    pub running: bool,
    pub click_count: u32,
    pub should_start: bool,
    pub should_stop: bool,
    pub hotkey_thread_running: bool,
    pub clicking_config: Option<ClickingConfig>,
}

impl ClickerState {
    pub fn new() -> (s: Self)
        ensures
            s == (ClickerState {
                running: false,
                click_count: 0,
                should_start: false,
                should_stop: false,
                hotkey_thread_running: false,
                clicking_config: None,
            }),
    {
        ClickerState {
            running: false,
            click_count: 0,
            should_start: false,
            should_stop: false,
            hotkey_thread_running: false,
            clicking_config: None,
        }
    }

    /// Mark a fresh session: the click count resets to zero exactly here, on
    /// the transition into the running state.
    pub fn start(&mut self)
        ensures
            *final(self) == (ClickerState { running: true, click_count: 0, ..*old(self) }),
    {
        self.running = true;
        self.click_count = 0;
    }

    /// Clear the running flag; the action loop observes this at its next
    /// loop-top check and exits.
    pub fn stop(&mut self)
        ensures
            *final(self) == (ClickerState { running: false, ..*old(self) }),
    {
        self.running = false;
    }

    /// Begin a session with a captured settings snapshot. Starting while a
    /// session is already running is a no-op: at most one session is active,
    /// and a duplicate start must never reset the count or the snapshot.
    pub fn start_clicking_with_config(&mut self, config: ClickingConfig)
        ensures
            old(self).running ==> *final(self) == *old(self),
            !old(self).running ==> *final(self) == (ClickerState {
                running: true,
                click_count: 0,
                clicking_config: Some(config),
                ..*old(self)
            }),
    {
        if self.running {
            return ;
        }
        self.running = true;
        self.click_count = 0;
        self.clicking_config = Some(config);
    }

    /// Request that the running session end; a no-op when none is running.
    pub fn stop_clicking(&mut self)
        ensures
            *final(self) == (ClickerState { running: false, ..*old(self) }),
    {
        self.running = false;
    }

    pub fn is_running(&self) -> (r: bool)
        ensures
            r == self.running,
    {
        self.running
    }

    pub fn get_click_count(&self) -> (n: u32)
        ensures
            n == self.click_count,
    {
        self.click_count
    }

    pub fn increment_click_count(&mut self)
        requires
            old(self).click_count < u32::MAX,
        ensures
            *final(self) == (ClickerState {
                click_count: (old(self).click_count + 1) as u32,
                ..*old(self)
            }),
    {
        self.click_count = self.click_count + 1;
    }

    pub fn request_start(&mut self)
        ensures
            *final(self) == (ClickerState { should_start: true, ..*old(self) }),
    {
        self.should_start = true;
    }

    pub fn request_stop(&mut self)
        ensures
            *final(self) == (ClickerState { should_stop: true, ..*old(self) }),
    {
        self.should_stop = true;
    }

    /// Consume a pending start request: reports whether one was pending and
    /// clears it in the same atomic step, so one request is acted on once.
    pub fn check_and_clear_start_request(&mut self) -> (was_pending: bool)
        ensures
            was_pending == old(self).should_start,
            *final(self) == (ClickerState { should_start: false, ..*old(self) }),
    {
        if self.should_start {
            self.should_start = false;
            true
        } else {
            false
        }
    }

    /// Consume a pending stop request, as `check_and_clear_start_request`
    /// does for starts.
    pub fn check_and_clear_stop_request(&mut self) -> (was_pending: bool)
        ensures
            was_pending == old(self).should_stop,
            *final(self) == (ClickerState { should_stop: false, ..*old(self) }),
    {
        if self.should_stop {
            self.should_stop = false;
            true
        } else {
            false
        }
    }

    pub fn is_hotkey_thread_running(&self) -> (r: bool)
        ensures
            r == self.hotkey_thread_running,
    {
        self.hotkey_thread_running
    }

    pub fn set_hotkey_thread_running(&mut self, running: bool)
        ensures
            *final(self) == (ClickerState { hotkey_thread_running: running, ..*old(self) }),
    {
        self.hotkey_thread_running = running;
    }
}

} // verus!
