//! Fixed-step frame pacing with a drift reset.
use vstd::prelude::*;

verus! {

/// Target interval between presented frames, in microseconds (a 60 Hz mode).
pub const FRAME_INTERVAL_US: u64 = 16666;

/// Elapsed time at or beyond which the clock resets instead of catching up.
pub const DRIFT_THRESHOLD_US: u64 = 100_000;

/// How long the presentation loop sleeps before checking the clock again.
pub const PACING_SLEEP_US: u64 = 1000;

/// What one look at the clock decided.
#[derive(Clone, Copy, Debug, PartialEq, Eq, Structural)]
pub enum FrameTick {
    /// The next frame is not due yet: sleep and look again.
    Wait,
    /// A frame is due; the clock moved forward by exactly one interval.
    Advance,
    /// A frame is due after a long stall; the clock was set to the present time.
    Reset,
}

/// The time at which the last frame was presented, in microseconds on a
/// monotonic clock.
#[derive(Clone, Copy, Debug)]
pub struct FrameClock {
    pub last_frame_us: u64,
}

/// Time since the last frame; a reading earlier than the last frame counts
/// as no time at all.
pub open spec fn elapsed(last: u64, now: u64) -> int {
    if now >= last {
        now - last
    } else {
        0
    }
}

/// The decision taken at `now` by a clock whose last frame was at `last`.
pub open spec fn tick_of(last: u64, now: u64) -> FrameTick {
    if elapsed(last, now) < FRAME_INTERVAL_US {
        FrameTick::Wait
    } else if elapsed(last, now) >= DRIFT_THRESHOLD_US {
        FrameTick::Reset
    } else {
        FrameTick::Advance
    }
}

/// The last-frame time after that decision.
pub open spec fn last_after(last: u64, now: u64) -> int {
    match tick_of(last, now) {
        FrameTick::Wait => last as int,
        FrameTick::Advance => last + FRAME_INTERVAL_US,
        FrameTick::Reset => now as int,
    }
}

impl FrameClock {
    /// A clock whose last frame was at `now_us`.
    pub fn new(now_us: u64) -> (r: FrameClock)
        ensures
            r.last_frame_us == now_us,
    {
        FrameClock { last_frame_us: now_us }
    }

    /// Looks at the clock at `now_us` and moves it if a frame is due.
    pub fn tick(&mut self, now_us: u64) -> (r: FrameTick)
        ensures
            r == tick_of(old(self).last_frame_us, now_us),
            final(self).last_frame_us == last_after(old(self).last_frame_us, now_us),
    {
        let elapsed: u64 = if now_us >= self.last_frame_us {
            now_us - self.last_frame_us
        } else {
            0
        };
        if elapsed < FRAME_INTERVAL_US {
            FrameTick::Wait
        } else if elapsed >= DRIFT_THRESHOLD_US {
            self.last_frame_us = now_us;
            FrameTick::Reset
        } else {
            self.last_frame_us = self.last_frame_us + FRAME_INTERVAL_US;
            FrameTick::Advance
        }
    }
}

/// A frame is presented at most once per look at the clock, and only when at
/// least one interval has passed; within the drift threshold the clock moves
/// by exactly one interval, and beyond it the clock jumps to the present time,
/// after which nothing more is due at that time: an overrun yields one frame,
/// never a burst of catch-up frames.
pub proof fn lemma_pacing(last: u64, now: u64)
    ensures
        elapsed(last, now) < FRAME_INTERVAL_US ==> tick_of(last, now) == FrameTick::Wait
            && last_after(last, now) == last,
        FRAME_INTERVAL_US <= elapsed(last, now) < DRIFT_THRESHOLD_US ==> tick_of(last, now)
            == FrameTick::Advance && last_after(last, now) == last + FRAME_INTERVAL_US,
        elapsed(last, now) >= DRIFT_THRESHOLD_US ==> tick_of(last, now) == FrameTick::Reset
            && last_after(last, now) == now && tick_of(now, now) == FrameTick::Wait,
        last_after(last, now) <= now || last_after(last, now) == last,
{
}

} // verus!
