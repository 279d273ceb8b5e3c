//! The click runner: presses and releases one mouse button at a cadence.
use crate::cadence::{delay_possible, next_delay_ms};
use crate::injector::{injection_error, ActionOutcome, MouseAction};
use crate::mouse_button::SerializableMouseButton;
use crate::task::{BackgroundTask, TaskHandle};
use vstd::prelude::*;

verus! {

/// Settings of the click runner, persisted between runs.
#[derive(Clone, Copy, Debug, PartialEq, Eq, Structural)]
pub struct ClickerConfig {
    pub click_interval_ms: u64,
    pub mouse_button: SerializableMouseButton,
    pub random_delay_enabled: bool,
    pub random_delay_min_ms: u64,
    pub random_delay_max_ms: u64,
}

impl ClickerConfig {
    /// The settings used when none were saved.
    pub open spec fn spec_default() -> ClickerConfig {
        ClickerConfig {
            click_interval_ms: 1000,
            mouse_button: SerializableMouseButton::Left,
            random_delay_enabled: false,
            random_delay_min_ms: 0,
            random_delay_max_ms: 500,
        }
    }

    /// Whether `d` is a wait that this cadence can produce after a click.
    pub open spec fn delay_possible(&self, d: u64) -> bool {
        delay_possible(
            self.click_interval_ms,
            self.random_delay_enabled,
            self.random_delay_min_ms,
            self.random_delay_max_ms,
            d,
        )
    }

    /// Draws the wait after one click.
    pub fn next_delay_ms(&self) -> (r: u64)
        ensures
            self.delay_possible(r),
    {
        next_delay_ms(
            self.click_interval_ms,
            self.random_delay_enabled,
            self.random_delay_min_ms,
            self.random_delay_max_ms,
        )
    }
}

impl Default for ClickerConfig {
    fn default() -> (r: ClickerConfig)
        ensures
            r == ClickerConfig::spec_default(),
    {
        ClickerConfig {
            click_interval_ms: 1000,
            mouse_button: SerializableMouseButton::Left,
            random_delay_enabled: false,
            random_delay_min_ms: 0,
            random_delay_max_ms: 500,
        }
    }
}

/// Repeatedly clicks a mouse button on a background loop that can be
/// started and stopped from the control thread.
#[derive(Debug)]
pub struct Clicker {
    pub config: ClickerConfig,
    pub task: BackgroundTask,
}

/// What the background loop of a started click runner works with: a copy
/// of the settings taken at start, and the shared flag and counter.
#[derive(Debug)]
pub struct ClickLoop {
    pub config: ClickerConfig,
    pub handle: TaskHandle,
}

impl Default for Clicker {
    fn default() -> (r: Clicker)
        ensures
            r.config == ClickerConfig::spec_default(),
            !r.running(),
    {
        Clicker::new(ClickerConfig::default())
    }
}

impl Clicker {
    /// Whether the runner is switched on.
    pub open spec fn running(&self) -> bool {
        self.task.running()
    }

    /// A stopped click runner with the given settings and a zero count.
    pub fn new(config: ClickerConfig) -> (r: Clicker)
        ensures
            r.config == config,
            !r.running(),
    {
        Clicker { config, task: BackgroundTask::new() }
    }

    /// Starts clicking unless already started. Returns the loop to run on a
    /// background thread, with a copy of the current settings, only to the
    /// call that switched the runner on; later edits of the settings do not
    /// reach that loop.
    pub fn start_clicking(&mut self) -> (r: Option<ClickLoop>)
        ensures
            final(self).config == old(self).config,
            final(self).running(),
            r.is_some() == !old(self).running(),
            r matches Some(l) ==> l.config == old(self).config,
    {
        match self.task.try_start() {
            Some(handle) => Some(ClickLoop { config: self.config, handle }),
            None => None,
        }
    }

    /// Switches the runner off; its loop ends before its next click.
    pub fn stop_clicking(&mut self)
        ensures
            final(self).config == old(self).config,
            !final(self).running(),
    {
        self.task.stop();
    }

    /// Switches the runner off when it is on, and on when it is off; in the
    /// latter case the loop to run is handed out as by `start_clicking`.
    pub fn toggle_clicking(&mut self) -> (r: Option<ClickLoop>)
        ensures
            final(self).config == old(self).config,
            final(self).running() == !old(self).running(),
            r.is_some() == !old(self).running(),
            r matches Some(l) ==> l.config == old(self).config,
    {
        if self.task.is_running() {
            self.stop_clicking();
            None
        } else {
            self.start_clicking()
        }
    }

    /// Whether the runner is switched on.
    pub fn is_clicking(&self) -> (r: bool)
        ensures
            r == self.running(),
    {
        self.task.is_running()
    }

    /// The number of clicks made since creation or the last reset.
    pub fn get_click_count(&self) -> u64 {
        self.task.action_count()
    }

    /// Sets the click count back to zero, running or not.
    pub fn reset_click_count(&self) {
        self.task.reset_count();
    }

    pub fn get_interval(&self) -> (r: u64)
        ensures
            r == self.config.click_interval_ms,
    {
        self.config.click_interval_ms
    }

    pub fn set_interval(&mut self, interval: u64)
        ensures
            final(self).config == (ClickerConfig { click_interval_ms: interval, ..old(self).config }),
            final(self).running() == old(self).running(),
    {
        self.config.click_interval_ms = interval;
    }

    pub fn get_mouse_button(&self) -> (r: SerializableMouseButton)
        ensures
            r == self.config.mouse_button,
    {
        self.config.mouse_button
    }

    pub fn set_mouse_button(&mut self, button: SerializableMouseButton)
        ensures
            final(self).config == (ClickerConfig { mouse_button: button, ..old(self).config }),
            final(self).running() == old(self).running(),
    {
        self.config.mouse_button = button;
    }

    pub fn is_random_delay(&self) -> (r: bool)
        ensures
            r == self.config.random_delay_enabled,
    {
        self.config.random_delay_enabled
    }

    pub fn set_random_delay(&mut self, enabled: bool)
        ensures
            final(self).config == (ClickerConfig { random_delay_enabled: enabled, ..old(self).config }),
            final(self).running() == old(self).running(),
    {
        self.config.random_delay_enabled = enabled;
    }

    /// The bounds `(min, max)` of the extra delay, in milliseconds.
    pub fn get_random_delay_range(&self) -> (r: (u64, u64))
        ensures
            r == (self.config.random_delay_min_ms, self.config.random_delay_max_ms),
    {
        (self.config.random_delay_min_ms, self.config.random_delay_max_ms)
    }

    pub fn set_random_delay_range(&mut self, min: u64, max: u64)
        ensures
            final(self).config == (ClickerConfig {
                random_delay_min_ms: min,
                random_delay_max_ms: max,
                ..old(self).config
            }),
            final(self).running() == old(self).running(),
    {
        self.config.random_delay_min_ms = min;
        self.config.random_delay_max_ms = max;
    }

    pub fn get_config(&self) -> (r: ClickerConfig)
        ensures
            r == self.config,
    {
        self.config
    }

    /// Replaces the settings. A loop already running keeps the copy it
    /// started with.
    pub fn set_config(&mut self, config: ClickerConfig)
        ensures
            final(self).config == config,
            final(self).running() == old(self).running(),
    {
        self.config = config;
    }
}

impl ClickLoop {
    /// Whether the loop is to click again.
    pub fn should_continue(&self) -> bool {
        self.handle.should_continue()
    }

    /// The input of the next iteration: a click of the configured button.
    pub fn next_action(&self) -> (r: MouseAction)
        ensures
            r == MouseAction::Click(self.config.mouse_button),
    {
        MouseAction::Click(self.config.mouse_button)
    }

    /// Counts the click just attempted, whether or not the injection
    /// succeeded, passes on its error, and draws the wait before the next
    /// click.
    pub fn finish_action(&self, result: Result<(), String>) -> (r: ActionOutcome)
        ensures
            r.error == injection_error(result),
            self.config.delay_possible(r.delay_ms),
    {
        self.handle.record_action();
        let error = match result {
            Ok(()) => None,
            Err(e) => Some(e),
        };
        ActionOutcome { error, delay_ms: self.config.next_delay_ms() }
    }
}

} // verus!
