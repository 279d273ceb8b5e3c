//! The on/off flag and action counter that a runner shares with its
//! background loop. Both live in std atomics, so either side can read or
//! write them without a lock.
//!
//! Only the owner of a `BackgroundTask` writes the flag (the loop side reads
//! it), and every write goes through `&mut self`; the task therefore keeps a
//! plain copy of it, which the contracts speak of through `running()`. The
//! counter is written by the loop thread, so its value is not tracked.
use std::sync::atomic::{AtomicBool, AtomicU64, Ordering};
use std::sync::Arc;
use vstd::prelude::*;

verus! {

/// Control side of a toggleable background task: owned by the runner that
/// starts and stops the loop.
#[derive(Debug)]
pub struct BackgroundTask {
    on: bool,
    running: Arc<AtomicBool>,
    count: Arc<AtomicU64>,
}

/// Loop side of a toggleable background task: handed to the thread that
/// performs the actions, sharing the flag of one episode and the counter of
/// the task it came from.
#[derive(Debug)]
pub struct TaskHandle {
    running: Arc<AtomicBool>,
    count: Arc<AtomicU64>,
}

impl BackgroundTask {
    /// Whether the task is switched on.
    pub closed spec fn running(&self) -> bool {
        self.on
    }

    /// A stopped task whose counter is zero.
    pub fn new() -> (r: BackgroundTask)
        ensures
            !r.running(),
    {
        BackgroundTask {
            on: false,
            running: Arc::new(AtomicBool::new(false)),
            count: Arc::new(AtomicU64::new(0)),
        }
    }

    /// Switches the task on. Only a call that finds it off gets a handle for
    /// the loop; a call on a running task gets `None`, and `&mut self` keeps
    /// two starts from racing. Each episode gets a flag of its own, so a loop
    /// of an earlier episode that has not yet seen its stop (it may still be
    /// sleeping) never sees the new episode's flag and still exits. The
    /// counter is shared by all episodes.
    pub fn try_start(&mut self) -> (r: Option<TaskHandle>)
        ensures
            final(self).running(),
            r.is_some() == !old(self).running(),
    {
        if self.on {
            None
        } else {
            self.on = true;
            self.running = Arc::new(AtomicBool::new(true));
            Some(TaskHandle { running: Arc::clone(&self.running), count: Arc::clone(&self.count) })
        }
    }

    /// Switches the task off. The loop sees it before its next action.
    pub fn stop(&mut self)
        ensures
            !final(self).running(),
    {
        self.on = false;
        self.running.store(false, Ordering::SeqCst);
    }

    /// Whether the task is switched on.
    pub fn is_running(&self) -> (r: bool)
        ensures
            r == self.running(),
    {
        self.on
    }

    /// Reads the number of completed actions.
    pub fn action_count(&self) -> u64 {
        self.count.load(Ordering::SeqCst)
    }

    /// Sets the number of completed actions back to zero.
    pub fn reset_count(&self) {
        self.count.store(0, Ordering::SeqCst);
    }
}

impl TaskHandle {
    /// Whether the loop is to perform another action.
    pub fn should_continue(&self) -> bool {
        self.running.load(Ordering::SeqCst)
    }

    /// Counts one completed action.
    pub fn record_action(&self) {
        self.count.fetch_add(1, Ordering::SeqCst);
    }
}

} // verus!
