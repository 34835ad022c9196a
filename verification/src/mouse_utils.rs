//! Pointer-button edge detection over explicit state: the platform hands in
//! the raw button flags, the engine remembers last frame's.

use vstd::prelude::*;

verus! {

/// The raw button flags of one frame.
#[derive(Clone, Copy, Debug, PartialEq, Eq, Structural)]
pub struct MouseButtons {
    pub left: bool,
    pub right: bool,
}

/// What the edge detector remembers between frames.
#[derive(Clone, Copy, Debug, PartialEq, Eq, Structural)]
pub struct MouseState {
    pub left_prev: bool,
    pub right_prev: bool,
}

impl MouseState {
    /// Before the first frame no button was held.
    pub fn init() -> (r: MouseState)
        ensures
            r == (MouseState { left_prev: false, right_prev: false }),
    {
        MouseState { left_prev: false, right_prev: false }
    }
}

/// End-of-frame bookkeeping: remember this frame's buttons.
pub fn tic(state: &mut MouseState, now: &MouseButtons)
    ensures
        *final(state) == (MouseState { left_prev: now.left, right_prev: now.right }),
{
    state.left_prev = now.left;
    state.right_prev = now.right;
}

/// The primary button went down this frame.
pub fn mouse_left_pressed(state: &MouseState, now: &MouseButtons) -> (r: bool)
    ensures
        r == (!state.left_prev && now.left),
{
    !state.left_prev && now.left
}

/// The primary button is held.
pub fn mouse_left_hold(now: &MouseButtons) -> (r: bool)
    ensures
        r == now.left,
{
    now.left
}

/// The secondary button went down this frame.
pub fn mouse_right_pressed(state: &MouseState, now: &MouseButtons) -> (r: bool)
    ensures
        r == (!state.right_prev && now.right),
{
    !state.right_prev && now.right
}

} // verus!
