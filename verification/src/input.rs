//! The mouse input hand-off to the emulated core: motion deltas accumulate,
//! absolute coordinates are replaced.

use vstd::prelude::*;

verus! {

use vstd::wrapping::i32_specs;

/// One mouse event from the window system: relative motion and the absolute
/// pointer position.
pub struct MouseInput {
    pub motion_x: isize,
    pub motion_y: isize,
    pub abs_x: usize,
    pub abs_y: usize,
}

/// The accumulated mouse state the emulated core consumes.
#[derive(Clone, Copy, PartialEq, Eq, Structural, Debug)]
pub struct MouseState {
    pub motion_x: i32,
    pub motion_y: i32,
    pub abs_x: i32,
    pub abs_y: i32,
}

/// Folds one mouse event into the consumed state: the motion deltas
/// accumulate — wrapping, as the core's 32-bit counters do — and the absolute
/// position is replaced.
pub fn set_mouse(state: &mut MouseState, input: MouseInput)
    ensures
        final(state).motion_x == i32_specs::wrapping_add(
            old(state).motion_x,
            input.motion_x as i32,
        ),
        final(state).motion_y == i32_specs::wrapping_add(
            old(state).motion_y,
            input.motion_y as i32,
        ),
        final(state).abs_x == input.abs_x as i32,
        final(state).abs_y == input.abs_y as i32,
{
    state.motion_x = state.motion_x.wrapping_add(#[verifier::truncate] (input.motion_x as i32));
    state.motion_y = state.motion_y.wrapping_add(#[verifier::truncate] (input.motion_y as i32));
    state.abs_x = #[verifier::truncate] (input.abs_x as i32);
    state.abs_y = #[verifier::truncate] (input.abs_y as i32);
}

} // verus!
