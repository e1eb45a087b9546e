//! Counting frames over one-second windows to report a frame rate.

use vstd::prelude::*;

verus! {

/// Nanoseconds in one second.
pub const NANOS_PER_SEC: u128 = 1_000_000_000u128;

/// The longest `std::time::Duration`, in nanoseconds.
pub const MAX_DURATION_NANOS: u128 = 18_446_744_073_709_551_615_999_999_999u128;

/// A closed counting window: how many frames it held and how long it lasted.
/// The frame rate it reports is `frames` per `elapsed_nanos`.
pub struct FpsSample {
    pub frames: u32,
    pub elapsed_nanos: u128,
}

/// A frame counter. It adds up frame times until more than one second has
/// passed, then hands out the window and starts a new one.
pub struct FPS {
    fps_timer: u128,
    fps_frames: u32,
}

impl FPS {
    /// Time counted in the open window, in nanoseconds.
    pub closed spec fn timer(&self) -> u128 {
        self.fps_timer
    }

    /// Frames counted in the open window.
    pub closed spec fn frames(&self) -> u32 {
        self.fps_frames
    }

    /// The open window never holds more than one second.
    #[verifier::type_invariant]
    spec fn window_bounded(self) -> bool {
        self.fps_timer <= NANOS_PER_SEC
    }

    /// A counter with an empty window.
    pub fn new() -> (f: Self)
        ensures
            f.timer() == 0,
            f.frames() == 0,
    {
        Self { fps_timer: 0, fps_frames: 0 }
    }

    /// Time counted in the open window, in nanoseconds.
    pub fn elapsed_nanos(&self) -> (t: u128)
        ensures
            t == self.timer(),
            t <= NANOS_PER_SEC,
    {
        proof {
            use_type_invariant(self);
        }
        self.fps_timer
    }

    /// Frames counted in the open window.
    pub fn frame_count(&self) -> (n: u32)
        ensures
            n == self.frames(),
    {
        self.fps_frames
    }

    /// Counts one frame that took `dt_nanos`. When the window then holds more
    /// than one second it is closed and returned, and a new one starts.
    pub fn fps(&mut self, dt_nanos: u128) -> (sample: Option<FpsSample>)
        requires
            old(self).timer() + dt_nanos <= MAX_DURATION_NANOS,
            old(self).frames() < u32::MAX,
        ensures
            ({
                let t = old(self).timer() + dt_nanos;
                let n = old(self).frames() + 1;
                if t > NANOS_PER_SEC {
                    &&& sample == Some(FpsSample { frames: n as u32, elapsed_nanos: t as u128 })
                    &&& final(self).timer() == 0
                    &&& final(self).frames() == 0
                } else {
                    &&& sample is None
                    &&& final(self).timer() == t
                    &&& final(self).frames() == n
                }
            }),
            final(self).timer() <= NANOS_PER_SEC,
    {
        proof {
            use_type_invariant(&*self);
        }
        let timer = self.fps_timer + dt_nanos;
        let frames = self.fps_frames + 1;
        if timer > NANOS_PER_SEC {
            self.fps_timer = 0;
            self.fps_frames = 0;
            Some(FpsSample { frames, elapsed_nanos: timer })
        } else {
            self.fps_timer = timer;
            self.fps_frames = frames;
            None
        }
    }
}

/// The state after counting the frames `dts` from a window holding `timer`
/// nanoseconds and `frames` frames, by the rule of `FPS::fps`: the open
/// window's time and frames, and the frames and time of all windows closed
/// on the way.
pub open spec fn count_frames(timer: int, frames: int, dts: Seq<int>) -> (int, int, int, int)
    decreases dts.len(),
{
    if dts.len() == 0 {
        (timer, frames, 0, 0)
    } else {
        let (t, n, closed_frames, closed_time) = count_frames(timer, frames, dts.drop_last());
        let t2 = t + dts.last();
        if t2 > NANOS_PER_SEC {
            (0, 0, closed_frames + n + 1, closed_time + t2)
        } else {
            (t2, n + 1, closed_frames, closed_time)
        }
    }
}

/// The sum of the frame times.
pub open spec fn sum_of(dts: Seq<int>) -> int
    decreases dts.len(),
{
    if dts.len() == 0 {
        0
    } else {
        sum_of(dts.drop_last()) + dts.last()
    }
}

/// Every frame and every nanosecond is counted in exactly one window: the
/// closed windows and the open one together hold all frames and all time
/// counted, and the open window never holds more than one second.
pub proof fn lemma_every_frame_counted_once(timer: int, frames: int, dts: Seq<int>)
    requires
        0 <= timer <= NANOS_PER_SEC,
        forall|i: int| 0 <= i < dts.len() ==> dts[i] >= 0,
    ensures
        ({
            let (t, n, closed_frames, closed_time) = count_frames(timer, frames, dts);
            &&& closed_frames + n == frames + dts.len()
            &&& closed_time + t == timer + sum_of(dts)
            &&& 0 <= t <= NANOS_PER_SEC
        }),
    decreases dts.len(),
{
    if dts.len() > 0 {
        lemma_every_frame_counted_once(timer, frames, dts.drop_last());
    }
}

} // verus!
