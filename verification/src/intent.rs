//! The per-frame input snapshot the host hands to the simulation.

use vstd::prelude::*;

verus! {

/// One frame's worth of player intent. The `_pressed` fields carry
/// pressed-this-frame edge semantics; the `_held` fields carry held state.
/// Jumps key off the edge field alone — holding the jump keys only aims
/// shots upward, through `aim_up_held`.
#[derive(Clone, Copy, PartialEq, Eq, Debug)]
pub struct Intent {
    pub move_left: bool,
    pub move_right: bool,
    pub jump_pressed: bool,
    pub jump_held: bool,
    pub shoot_pressed: bool,
    pub aim_up_held: bool,
    pub restart_pressed: bool,
}

impl Intent {
    /// An intent with nothing pressed.
    pub fn idle() -> (r: Intent)
        ensures
            r == (Intent {
                move_left: false,
                move_right: false,
                jump_pressed: false,
                jump_held: false,
                shoot_pressed: false,
                aim_up_held: false,
                restart_pressed: false,
            }),
    {
        Intent {
            move_left: false,
            move_right: false,
            jump_pressed: false,
            jump_held: false,
            shoot_pressed: false,
            aim_up_held: false,
            restart_pressed: false,
        }
    }
}

/// The signed horizontal axis a pair of direction intents yields:
/// `-1`, `0` or `1`.
pub open spec fn move_axis_m(intent: Intent) -> int {
    (if intent.move_right { 1int } else { 0int }) - (if intent.move_left { 1int } else { 0int })
}

} // verus!
