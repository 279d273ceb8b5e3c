//! Core of a desktop mouse automation utility: two toggleable background
//! runners, one that clicks a mouse button and one that nudges the pointer,
//! each with a configurable, optionally jittered cadence.
mod random;

pub mod cadence;
pub mod mouse_button;
pub mod task;
pub mod clicker;
pub mod mouse_mover;
pub mod hotkey;
pub mod injector;
