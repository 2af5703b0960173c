//! Simulation rules for a small 2D space scene: a sprite animation clock,
//! the background-music playlist protocol, and the choice of asteroid sprites.

pub mod animation;
pub mod asteroids;
pub mod audio;

use vstd::prelude::*;

verus! {

} // verus!
