//! The fixed-rate simulation clock of the main loop: frame time goes into an
//! accumulator, and whole ticks are taken out of it.

use vstd::prelude::*;

use crate::fps::MAX_DURATION_NANOS;

verus! {

/// Ticks that `acc + frame` nanoseconds hold.
pub open spec fn ticks_in(acc: int, frame: int, tick: int) -> int {
    (acc + frame) / tick
}

/// What is left of `acc + frame` after the whole ticks are taken out.
pub open spec fn rest_after(acc: int, frame: int, tick: int) -> int {
    (acc + frame) % tick
}

/// A fixed-step clock: it runs one simulation tick for every `tick`
/// nanoseconds of frame time and carries the remainder over.
pub struct FixedStep {
    accumulator: u128,
    tick: u128,
}

impl FixedStep {
    /// Frame time carried over, in nanoseconds.
    pub closed spec fn accumulated(&self) -> u128 {
        self.accumulator
    }

    /// Length of one tick, in nanoseconds.
    pub closed spec fn tick_len(&self) -> u128 {
        self.tick
    }

    /// The carried time is always less than one tick.
    #[verifier::type_invariant]
    spec fn carry_below_tick(self) -> bool {
        self.accumulator < self.tick
    }

    /// A clock with ticks of `tick_nanos` and nothing accumulated.
    pub fn new(tick_nanos: u128) -> (c: Self)
        requires
            tick_nanos > 0,
        ensures
            c.accumulated() == 0,
            c.tick_len() == tick_nanos,
    {
        Self { accumulator: 0, tick: tick_nanos }
    }

    /// Frame time carried over, in nanoseconds.
    pub fn accumulated_nanos(&self) -> (a: u128)
        ensures
            a == self.accumulated(),
            a < self.tick_len(),
    {
        proof {
            use_type_invariant(self);
        }
        self.accumulator
    }

    /// Adds a frame of `frame_nanos` and returns how many ticks to run: as
    /// many whole ticks as the accumulator now holds. They are taken out and
    /// the rest is carried over.
    pub fn advance(&mut self, frame_nanos: u128) -> (ticks: u128)
        requires
            old(self).accumulated() + frame_nanos <= MAX_DURATION_NANOS,
        ensures
            final(self).tick_len() == old(self).tick_len(),
            ticks == ticks_in(old(self).accumulated() as int, frame_nanos as int, old(self).tick_len() as int),
            final(self).accumulated() == rest_after(
                old(self).accumulated() as int,
                frame_nanos as int,
                old(self).tick_len() as int,
            ),
            old(self).accumulated() + frame_nanos == ticks * old(self).tick_len() + final(self).accumulated(),
            final(self).accumulated() < final(self).tick_len(),
    {
        proof {
            use_type_invariant(&*self);
        }
        let total = self.accumulator + frame_nanos;
        let ticks = total / self.tick;
        let rest = total % self.tick;
        proof {
            vstd::arithmetic::div_mod::lemma_fundamental_div_mod(total as int, self.tick as int);
        }
        self.accumulator = rest;
        ticks
    }
}

/// Total ticks that a run of frames yields from a clock that starts with
/// `acc` carried over, and what it carries at the end.
pub open spec fn run(acc: int, frames: Seq<int>, tick: int) -> (int, int)
    decreases frames.len(),
{
    if frames.len() == 0 {
        (0, acc)
    } else {
        let (t, a) = run(acc, frames.drop_last(), tick);
        (t + ticks_in(a, frames.last(), tick), rest_after(a, frames.last(), tick))
    }
}

/// The sum of the frame times.
pub open spec fn total_time(frames: Seq<int>) -> int
    decreases frames.len(),
{
    if frames.len() == 0 {
        0
    } else {
        total_time(frames.drop_last()) + frames.last()
    }
}

/// No frame time is lost or invented: over any run of frames, the ticks run
/// times the tick length, plus what is carried at the end, equals what was
/// carried at the start plus all the frame time; and the carry stays below
/// one tick.
pub proof fn lemma_no_time_lost(acc: int, frames: Seq<int>, tick: int)
    requires
        tick > 0,
        0 <= acc < tick,
        forall|i: int| 0 <= i < frames.len() ==> frames[i] >= 0,
    ensures
        run(acc, frames, tick).0 * tick + run(acc, frames, tick).1 == acc + total_time(frames),
        0 <= run(acc, frames, tick).1 < tick,
        run(acc, frames, tick).0 >= 0,
    decreases frames.len(),
{
    if frames.len() > 0 {
        let p = frames.drop_last();
        lemma_no_time_lost(acc, p, tick);
        let (t, a) = run(acc, p, tick);
        let f = frames.last();
        vstd::arithmetic::div_mod::lemma_fundamental_div_mod(a + f, tick);
        vstd::arithmetic::div_mod::lemma_mod_bound(a + f, tick);
        vstd::arithmetic::div_mod::lemma_div_pos_is_pos(a + f, tick);
        assert((t + (a + f) / tick) * tick == t * tick + ((a + f) / tick) * tick) by (nonlinear_arith);
    }
}

} // verus!
