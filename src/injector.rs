//! One iteration of a runner's loop, as the library hands it to the code
//! that injects mouse input: the action to perform, then what came of it.
use crate::mouse_button::SerializableMouseButton;
use vstd::prelude::*;

verus! {

/// The input that one iteration of a runner's loop injects.
#[derive(Clone, Copy, Debug, PartialEq, Eq, Structural)]
pub enum MouseAction {
    /// Press and release the button once.
    Click(SerializableMouseButton),
    /// Move the pointer by `(dx, dy)` from where it stands.
    Move { dx: i32, dy: i32 },
}

/// What one iteration of a runner's loop came to: the error of the
/// injection, if it failed, and how long the loop is to wait before the
/// next one.
#[derive(Clone, Debug, PartialEq, Eq)]
pub struct ActionOutcome {
    pub error: Option<String>,
    pub delay_ms: u64,
}

/// The error that an injection reported, if any.
pub open spec fn injection_error(result: Result<(), String>) -> Option<String> {
    match result {
        Ok(()) => None,
        Err(e) => Some(e),
    }
}

} // verus!
