//! The player entity's stored attributes and the one per-tick decision
//! the input handler makes that is plain logic: which way the sprite
//! faces. The velocity integration itself works on the physics
//! engine's floating-point vectors and stays with the host loop.

use vstd::prelude::*;

verus! {

/// The player's attributes. They are stored state only: no rule in
/// this crate reads them. Speed is in pixels per second.
#[derive(Clone, Copy, Debug, PartialEq, Eq, Structural)]
pub struct Player {
    pub health: usize,
    pub speed: u64,
}

impl Player {
    pub fn new() -> (p: Player)
        ensures
            p == (Player { health: 5usize, speed: 1000u64 }),
    {
        Player { health: 5, speed: 1000 }
    }
}

/// Which way the sprite faces after one poll of the movement keys:
/// the right key turns it right (mirroring off), the left key turns it
/// left (mirroring on) and wins when both are held, and with neither
/// held the facing is kept.
pub fn facing_flip(flip_x: bool, right_pressed: bool, left_pressed: bool) -> (r: bool)
    ensures
        r == if left_pressed {
            true
        } else if right_pressed {
            false
        } else {
            flip_x
        },
{
    let mut r: bool = flip_x;
    if right_pressed {
        r = false;
    }
    if left_pressed {
        r = true;
    }
    r
}

} // verus!
