use vstd::prelude::*;

verus! {

/// The mouse button that the click runner presses and releases.
#[derive(Clone, Copy, Debug, PartialEq, Eq, Structural)]
pub enum SerializableMouseButton {
    Left,
    Middle,
    Right,
}

} // verus!
