use vstd::arithmetic::div_mod::{
    lemma_add_mod_noop_right,
    lemma_fundamental_div_mod,
    lemma_mod_pos_bound,
    lemma_small_mod,
};
use vstd::prelude::*;

verus! {

/// Frames in the planet sprite sheet: a grid of 40 columns by 30 rows.
pub const PLANET_FRAMES: usize = 40 * 30;

/// How long each planet frame stays on screen, in nanoseconds (40 ms).
pub const PLANET_TICK_NANOS: u64 = 40_000_000;

/// Why an animation could not be configured.
#[derive(Debug, Clone, Copy, PartialEq, Eq, Structural)]
pub enum AnimationError {
    /// The sprite sheet would have no frames to cycle through.
    NoFrames,
    /// A frame would last no time at all.
    ZeroTick,
}

/// The mathematical state of an animation clock.
pub struct AnimationState {
    /// Number of frames in the cycle.
    pub frames: nat,
    /// Length of one frame, in nanoseconds.
    pub tick: nat,
    /// Time accumulated toward the next frame change, in nanoseconds.
    pub elapsed: nat,
    /// The frame currently shown.
    pub frame: nat,
    /// Whether the most recent update completed at least one frame period.
    pub changed: bool,
}

impl AnimationState {
    pub open spec fn wf(self) -> bool {
        &&& self.frames > 0
        &&& self.tick > 0
        &&& self.elapsed < self.tick
        &&& self.frame < self.frames
    }

    /// How many whole frame periods run out when `delta` nanoseconds pass.
    pub open spec fn periods_in(self, delta: nat) -> nat {
        (self.elapsed + delta) / self.tick
    }

    /// The state after `delta` nanoseconds have passed: the timer repeats,
    /// the frame moves on by one for each period that ran out, wrapping, and
    /// the animation counts as changed when at least one did.
    pub open spec fn advanced(self, delta: nat) -> AnimationState {
        let total = self.elapsed + delta;
        AnimationState {
            frames: self.frames,
            tick: self.tick,
            elapsed: total % self.tick,
            frame: (self.frame + self.periods_in(delta)) % self.frames,
            changed: total >= self.tick,
        }
    }

    /// The state after one update for each of `deltas`, in order.
    pub open spec fn run(self, deltas: Seq<nat>) -> AnimationState
        decreases deltas.len(),
    {
        if deltas.len() == 0 {
            self
        } else {
            self.run(deltas.drop_last()).advanced(deltas.last())
        }
    }

    /// How many frame periods ran out over the updates in `deltas`.
    pub open spec fn elapses(self, deltas: Seq<nat>) -> nat
        decreases deltas.len(),
    {
        if deltas.len() == 0 {
            0
        } else {
            self.elapses(deltas.drop_last()) + self.run(deltas.drop_last()).periods_in(
                deltas.last(),
            )
        }
    }
}

/// The time that `deltas` add up to.
pub open spec fn total_time(deltas: Seq<nat>) -> nat
    decreases deltas.len(),
{
    if deltas.len() == 0 {
        0
    } else {
        total_time(deltas.drop_last()) + deltas.last()
    }
}

/// However the time is split into updates, the animation changes frame once
/// for every whole period of accumulated time: the time accumulated equals
/// the number of periods that ran out times the period plus what is left
/// toward the next one, and the frame has moved on by that number, wrapping.
pub proof fn lemma_frame_advances_per_period(s: AnimationState, deltas: Seq<nat>)
    requires
        s.wf(),
    ensures
        s.run(deltas).wf(),
        s.run(deltas).frames == s.frames,
        s.run(deltas).tick == s.tick,
        s.elapsed + total_time(deltas) == s.elapses(deltas) * s.tick + s.run(deltas).elapsed,
        s.run(deltas).frame == (s.frame + s.elapses(deltas)) as int % (s.frames as int),
    decreases deltas.len(),
{
    if deltas.len() == 0 {
        lemma_small_mod(s.frame, s.frames);
    } else {
        let prefix = deltas.drop_last();
        let d = deltas.last();
        lemma_frame_advances_per_period(s, prefix);
        let p = s.run(prefix);
        let e = s.elapses(prefix);
        let x = p.elapsed + d;
        let k = p.periods_in(d);
        lemma_fundamental_div_mod(x as int, s.tick as int);
        lemma_mod_pos_bound(x as int, s.tick as int);
        assert(0 <= x as int / s.tick as int) by {
            vstd::arithmetic::div_mod::lemma_div_pos_is_pos(x as int, s.tick as int);
        }
        assert((e + k) * s.tick == e * s.tick + s.tick * k) by (nonlinear_arith);
        lemma_add_mod_noop_right(k as int, (s.frame + e) as int, s.frames as int);
        lemma_mod_pos_bound((s.frame + e + k) as int, s.frames as int);
    }
}

/// Starting from the beginning of a period, updates that add up to exactly
/// `n` periods leave the timer at the beginning of a period again, with the
/// frame moved on by `n`, wrapping.
pub proof fn lemma_whole_periods(s: AnimationState, deltas: Seq<nat>, n: nat)
    requires
        s.wf(),
        s.elapsed == 0,
        total_time(deltas) == n * s.tick,
    ensures
        s.elapses(deltas) == n,
        s.run(deltas).elapsed == 0,
        s.run(deltas).frame == (s.frame + n) as int % (s.frames as int),
{
    lemma_frame_advances_per_period(s, deltas);
    let e = s.elapses(deltas);
    let r = s.run(deltas).elapsed;
    assert(e == n && r == 0) by (nonlinear_arith)
        requires
            e * s.tick + r == n * s.tick,
            r < s.tick,
            0 < s.tick,
    ;
}

/// A sprite animation that cycles through a fixed number of frames at a
/// fixed rate, driven by the time that passes between updates.
pub struct PlanetAnimation {
    frames: usize,
    tick_nanos: u64,
    elapsed_nanos: u64,
    frame: usize,
    changed: bool,
}

impl View for PlanetAnimation {
    type V = AnimationState;

    closed spec fn view(&self) -> AnimationState {
        AnimationState {
            frames: self.frames as nat,
            tick: self.tick_nanos as nat,
            elapsed: self.elapsed_nanos as nat,
            frame: self.frame as nat,
            changed: self.changed,
        }
    }
}

impl PlanetAnimation {
    pub open spec fn wf(&self) -> bool {
        self@.wf()
    }

    /// The planet's animation: every frame of its sheet, 40 ms each, from the first.
    pub fn new() -> (r: Self)
        ensures
            r.wf(),
            r@.frames == PLANET_FRAMES,
            r@.tick == PLANET_TICK_NANOS,
            r@.elapsed == 0,
            r@.frame == 0,
            !r@.changed,
    {
        PlanetAnimation {
            frames: PLANET_FRAMES,
            tick_nanos: PLANET_TICK_NANOS,
            elapsed_nanos: 0,
            frame: 0,
            changed: false,
        }
    }

    /// An animation of `frames` frames, each shown for `tick_nanos` nanoseconds.
    /// Both must be positive.
    pub fn with_config(frames: usize, tick_nanos: u64) -> (r: Result<Self, AnimationError>)
        ensures
            frames == 0 ==> r == Err::<Self, AnimationError>(AnimationError::NoFrames),
            frames > 0 && tick_nanos == 0 ==> r == Err::<Self, AnimationError>(
                AnimationError::ZeroTick,
            ),
            frames > 0 && tick_nanos > 0 ==> (r matches Ok(a) && {
                &&& a.wf()
                &&& a@.frames == frames
                &&& a@.tick == tick_nanos
                &&& a@.elapsed == 0
                &&& a@.frame == 0
                &&& !a@.changed
            }),
    {
        if frames == 0 {
            Err(AnimationError::NoFrames)
        } else if tick_nanos == 0 {
            Err(AnimationError::ZeroTick)
        } else {
            Ok(PlanetAnimation { frames, tick_nanos, elapsed_nanos: 0, frame: 0, changed: false })
        }
    }

    /// Lets `delta_nanos` nanoseconds pass. The frame moves on by one for
    /// each frame period that runs out, wrapping to the first, and the
    /// animation is marked changed until the next update when at least one
    /// did.
    pub fn update_timer(&mut self, delta_nanos: u64)
        requires
            old(self).wf(),
        ensures
            final(self).wf(),
            final(self)@ == old(self)@.advanced(delta_nanos as nat),
    {
        let total: u128 = self.elapsed_nanos as u128 + delta_nanos as u128;
        let tick: u128 = self.tick_nanos as u128;
        let frames: u128 = self.frames as u128;
        proof {
            lemma_mod_pos_bound(total as int, tick as int);
            vstd::arithmetic::div_mod::lemma_div_is_ordered_by_denominator(total as int, 1, tick as int);
        }
        let periods: u128 = total / tick;
        proof {
            lemma_mod_pos_bound((self.frame as u128 + periods) as int, frames as int);
        }
        self.elapsed_nanos = (total % tick) as u64;
        self.frame = ((self.frame as u128 + periods) % frames) as usize;
        self.changed = total >= tick;
    }

    /// Whether the frame changed in the most recent update.
    pub fn changed(&self) -> (r: bool)
        ensures
            r == self@.changed,
    {
        self.changed
    }

    /// The index of the current frame in the sprite atlas.
    pub fn get_atlas_index(&self) -> (r: usize)
        ensures
            r == self@.frame,
    {
        self.frame
    }
}

} // verus!
