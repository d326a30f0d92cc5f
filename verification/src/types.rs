//! Directions shared by the player and the fish.

use vstd::prelude::*;

verus! {

/// Which way a moving thing is headed: along the shore in either
/// direction, or straight up (a fish floating to the surface).
#[derive(Clone, Copy, Debug, PartialEq, Eq, Structural)]
pub enum Dir {
    Forward,
    Backward,
    Up,
}

} // verus!
