//! The move runner: displaces the pointer by a random vector at a cadence.
use crate::cadence::{delay_possible, next_delay_ms};
use crate::injector::{injection_error, ActionOutcome, MouseAction};
use crate::random::random_i32_inclusive;
use crate::task::{BackgroundTask, TaskHandle};
use vstd::prelude::*;

verus! {

/// Settings of the move runner, persisted between runs.
#[derive(Clone, Copy, Debug, PartialEq, Eq, Structural)]
pub struct MouseMoverConfig {
    pub move_interval_ms: u64,
    pub max_distance: i32,
    pub random_delay_enabled: bool,
    pub random_delay_min_ms: u64,
    pub random_delay_max_ms: u64,
}

/// How far the pointer may travel along each axis in one move. The
/// settings call for a distance of zero or more; a negative one is read as
/// zero, so that the draw never works on an empty range.
pub open spec fn reach(max_distance: i32) -> int {
    if max_distance < 0 {
        0
    } else {
        max_distance as int
    }
}

/// A displacement that one move may make: each component within
/// `[-reach, reach]`.
pub open spec fn displacement_possible(max_distance: i32, d: (i32, i32)) -> bool {
    -reach(max_distance) <= d.0 <= reach(max_distance) && -reach(max_distance) <= d.1
        <= reach(max_distance)
}

/// Draws a relative displacement whose two components are drawn
/// independently and uniformly from `[-max_distance, max_distance]`.
pub fn draw_displacement(max_distance: i32) -> (r: (i32, i32))
    ensures
        displacement_possible(max_distance, r),
        max_distance <= 0 ==> r == (0i32, 0i32),
{
    let m: i32 = if max_distance < 0 {
        0
    } else {
        max_distance
    };
    let dx = random_i32_inclusive(-m, m);
    let dy = random_i32_inclusive(-m, m);
    (dx, dy)
}

impl MouseMoverConfig {
    /// The settings used when none were saved.
    pub open spec fn spec_default() -> MouseMoverConfig {
        MouseMoverConfig {
            move_interval_ms: 100,
            max_distance: 100,
            random_delay_enabled: false,
            random_delay_min_ms: 0,
            random_delay_max_ms: 200,
        }
    }

    /// Whether `d` is a wait that this cadence can produce after a move.
    pub open spec fn delay_possible(&self, d: u64) -> bool {
        delay_possible(
            self.move_interval_ms,
            self.random_delay_enabled,
            self.random_delay_min_ms,
            self.random_delay_max_ms,
            d,
        )
    }

    /// Draws the wait after one move.
    pub fn next_delay_ms(&self) -> (r: u64)
        ensures
            self.delay_possible(r),
    {
        next_delay_ms(
            self.move_interval_ms,
            self.random_delay_enabled,
            self.random_delay_min_ms,
            self.random_delay_max_ms,
        )
    }
}

impl Default for MouseMoverConfig {
    fn default() -> (r: MouseMoverConfig)
        ensures
            r == MouseMoverConfig::spec_default(),
    {
        MouseMoverConfig {
            move_interval_ms: 100,
            max_distance: 100,
            random_delay_enabled: false,
            random_delay_min_ms: 0,
            random_delay_max_ms: 200,
        }
    }
}

/// Repeatedly nudges the mouse pointer on a background loop that can be
/// started and stopped from the control thread.
#[derive(Debug)]
pub struct MouseMover {
    pub config: MouseMoverConfig,
    pub task: BackgroundTask,
}

/// What the background loop of a started move runner works with: a copy
/// of the settings taken at start, and the shared flag and counter.
#[derive(Debug)]
pub struct MoveLoop {
    pub config: MouseMoverConfig,
    pub handle: TaskHandle,
}

impl Default for MouseMover {
    fn default() -> (r: MouseMover)
        ensures
            r.config == MouseMoverConfig::spec_default(),
            !r.running(),
    {
        MouseMover::new(MouseMoverConfig::default())
    }
}

impl MouseMover {
    /// Whether the runner is switched on.
    pub open spec fn running(&self) -> bool {
        self.task.running()
    }

    /// A stopped move runner with the given settings and a zero count.
    pub fn new(config: MouseMoverConfig) -> (r: MouseMover)
        ensures
            r.config == config,
            !r.running(),
    {
        MouseMover { config, task: BackgroundTask::new() }
    }

    /// Starts moving unless already started. Returns the loop to run on a
    /// background thread, with a copy of the current settings, only to the
    /// call that switched the runner on; later edits of the settings do not
    /// reach that loop.
    pub fn start_moving(&mut self) -> (r: Option<MoveLoop>)
        ensures
            final(self).config == old(self).config,
            final(self).running(),
            r.is_some() == !old(self).running(),
            r matches Some(l) ==> l.config == old(self).config,
    {
        match self.task.try_start() {
            Some(handle) => Some(MoveLoop { config: self.config, handle }),
            None => None,
        }
    }

    /// Switches the runner off; its loop ends before its next move.
    pub fn stop_moving(&mut self)
        ensures
            final(self).config == old(self).config,
            !final(self).running(),
    {
        self.task.stop();
    }

    /// Switches the runner off when it is on, and on when it is off; in the
    /// latter case the loop to run is handed out as by `start_moving`.
    pub fn toggle_moving(&mut self) -> (r: Option<MoveLoop>)
        ensures
            final(self).config == old(self).config,
            final(self).running() == !old(self).running(),
            r.is_some() == !old(self).running(),
            r matches Some(l) ==> l.config == old(self).config,
    {
        if self.task.is_running() {
            self.stop_moving();
            None
        } else {
            self.start_moving()
        }
    }

    /// Whether the runner is switched on.
    pub fn is_moving(&self) -> (r: bool)
        ensures
            r == self.running(),
    {
        self.task.is_running()
    }

    /// The number of moves made since creation or the last reset.
    pub fn get_move_count(&self) -> u64 {
        self.task.action_count()
    }

    /// Sets the move count back to zero, running or not.
    pub fn reset_move_count(&self) {
        self.task.reset_count();
    }

    pub fn get_interval(&self) -> (r: u64)
        ensures
            r == self.config.move_interval_ms,
    {
        self.config.move_interval_ms
    }

    pub fn set_interval(&mut self, interval: u64)
        ensures
            final(self).config == (MouseMoverConfig { move_interval_ms: interval, ..old(self).config }),
            final(self).running() == old(self).running(),
    {
        self.config.move_interval_ms = interval;
    }

    pub fn get_max_distance(&self) -> (r: i32)
        ensures
            r == self.config.max_distance,
    {
        self.config.max_distance
    }

    pub fn set_max_distance(&mut self, distance: i32)
        ensures
            final(self).config == (MouseMoverConfig { max_distance: distance, ..old(self).config }),
            final(self).running() == old(self).running(),
    {
        self.config.max_distance = distance;
    }

    pub fn is_random_delay(&self) -> (r: bool)
        ensures
            r == self.config.random_delay_enabled,
    {
        self.config.random_delay_enabled
    }

    pub fn set_random_delay(&mut self, enabled: bool)
        ensures
            final(self).config == (MouseMoverConfig { random_delay_enabled: enabled, ..old(self).config }),
            final(self).running() == old(self).running(),
    {
        self.config.random_delay_enabled = enabled;
    }

    /// The bounds `(min, max)` of the extra delay, in milliseconds.
    pub fn get_random_delay_range(&self) -> (r: (u64, u64))
        ensures
            r == (self.config.random_delay_min_ms, self.config.random_delay_max_ms),
    {
        (self.config.random_delay_min_ms, self.config.random_delay_max_ms)
    }

    pub fn set_random_delay_range(&mut self, min: u64, max: u64)
        ensures
            final(self).config == (MouseMoverConfig {
                random_delay_min_ms: min,
                random_delay_max_ms: max,
                ..old(self).config
            }),
            final(self).running() == old(self).running(),
    {
        self.config.random_delay_min_ms = min;
        self.config.random_delay_max_ms = max;
    }

    pub fn get_config(&self) -> (r: MouseMoverConfig)
        ensures
            r == self.config,
    {
        self.config
    }

    /// Replaces the settings. A loop already running keeps the copy it
    /// started with.
    pub fn set_config(&mut self, config: MouseMoverConfig)
        ensures
            final(self).config == config,
            final(self).running() == old(self).running(),
    {
        self.config = config;
    }
}

impl MoveLoop {
    /// Whether the loop is to move again.
    pub fn should_continue(&self) -> bool {
        self.handle.should_continue()
    }

    /// The input of the next iteration: a move by a freshly drawn
    /// displacement within the configured distance.
    pub fn next_action(&self) -> (r: MouseAction)
        ensures
            r matches MouseAction::Move { dx, dy } && displacement_possible(
                self.config.max_distance,
                (dx, dy),
            ),
            self.config.max_distance <= 0 ==> r == (MouseAction::Move { dx: 0, dy: 0 }),
    {
        let (dx, dy) = draw_displacement(self.config.max_distance);
        MouseAction::Move { dx, dy }
    }

    /// Counts the move just attempted, whether or not the injection
    /// succeeded, passes on its error, and draws the wait before the next
    /// move.
    pub fn finish_action(&self, result: Result<(), String>) -> (r: ActionOutcome)
        ensures
            r.error == injection_error(result),
            self.config.delay_possible(r.delay_ms),
    {
        self.handle.record_action();
        let error = match result {
            Ok(()) => None,
            Err(e) => Some(e),
        };
        ActionOutcome { error, delay_ms: self.config.next_delay_ms() }
    }
}

} // verus!
