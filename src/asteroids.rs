use vstd::prelude::*;
use rand::Rng;

verus! {

/// Sprites in the asteroid sheet for dust and small asteroids.
pub const NUM_SMALL_TEXTURES: usize = 13;

/// Sprites in the asteroid sheet for large asteroids.
pub const NUM_LARGE_TEXTURES: usize = 11;

/// The size class of an asteroid, which decides its sprite family.
#[derive(Debug, Clone, Copy, PartialEq, Eq, Structural)]
pub enum AsteroidSize {
    Dust,
    Small,
    Large,
}

/// How many sprites an asteroid of `size` can be drawn with.
pub open spec fn texture_count_of(size: AsteroidSize) -> nat {
    match size {
        AsteroidSize::Dust | AsteroidSize::Small => NUM_SMALL_TEXTURES as nat,
        AsteroidSize::Large => NUM_LARGE_TEXTURES as nat,
    }
}

impl AsteroidSize {
    /// How many sprites an asteroid of this size can be drawn with.
    pub fn texture_count(&self) -> (r: usize)
        ensures
            r == texture_count_of(*self),
            r > 0,
    {
        match self {
            AsteroidSize::Dust | AsteroidSize::Small => NUM_SMALL_TEXTURES,
            AsteroidSize::Large => NUM_LARGE_TEXTURES,
        }
    }
}

/// Relies on rand's `thread_rng().gen_range(0..n)`: a value in `[0, n)`,
/// which panics on an empty range.
#[verifier::external_body]
fn random_below(n: usize) -> (r: usize)
    requires
        n > 0,
    ensures
        r < n,
{
    rand::thread_rng().gen_range(0..n)
}

/// Picks at random the atlas index of a sprite for an asteroid of `size`,
/// among the sprites of its family.
pub fn sprite_index(size: AsteroidSize) -> (r: usize)
    ensures
        r < texture_count_of(size),
{
    let n = size.texture_count();
    random_below(n)
}

} // verus!
