//! The frame clock: elapsed simulation time, the time between frames, and
//! frames per second counted over windows of one second.

use crate::constants::FPS_WINDOW;
use crate::constants::SECONDS_PER_MILLISECOND;
use crate::fixed::Fixed;
use vstd::prelude::*;

verus! {

/// The clock's state. Timestamps are in milliseconds, times in seconds.
#[derive(Clone, Copy, Debug, PartialEq, Eq, Structural)]
pub struct FrameStats {
    /// Seconds simulated so far.
    pub simulation_time: Fixed,
    /// Timestamp of the last frame.
    pub last_frame_timestamp: Fixed,
    /// Frames counted in the window that is open.
    pub frame_count: u32,
    /// Timestamp at which the open window began.
    pub fps_window_start: Fixed,
    /// Frames counted in the last window that closed.
    pub current_fps: u32,
}

/// What one tick of the clock reports.
#[derive(Clone, Copy, Debug, PartialEq, Eq, Structural)]
pub struct FrameTick {
    pub delta_seconds: Fixed,
    pub simulation_time: Fixed,
    pub fps: u32,
}

impl FrameStats {
    /// The clock before the first frame: everything at zero.
    pub open spec fn initial() -> FrameStats {
        FrameStats {
            simulation_time: Fixed { raw: 0 },
            last_frame_timestamp: Fixed { raw: 0 },
            frame_count: 0,
            fps_window_start: Fixed { raw: 0 },
            current_fps: 0,
        }
    }

    /// Seconds from the last frame to a frame at `now`.
    pub open spec fn delta_spec(self, now: Fixed) -> Fixed {
        now.sub_spec(self.last_frame_timestamp).mul_spec(Fixed { raw: SECONDS_PER_MILLISECOND })
    }

    /// Whether a frame at `now` closes the open window: a second or more has
    /// passed since it began.
    pub open spec fn window_elapsed(self, now: Fixed) -> bool {
        now.sub_spec(self.fps_window_start).raw >= FPS_WINDOW
    }

    /// The clock after a frame at `now`. The frame is counted first; where it
    /// closes the window, the count becomes the frames per second and a new
    /// window begins at `now`.
    pub open spec fn ticked(self, now: Fixed) -> FrameStats {
        FrameStats {
            simulation_time: self.simulation_time.add_spec(self.delta_spec(now)),
            last_frame_timestamp: now,
            frame_count: if self.window_elapsed(now) {
                0
            } else {
                (self.frame_count + 1) as u32
            },
            fps_window_start: if self.window_elapsed(now) {
                now
            } else {
                self.fps_window_start
            },
            current_fps: if self.window_elapsed(now) {
                (self.frame_count + 1) as u32
            } else {
                self.current_fps
            },
        }
    }

    /// The clock after frames at each of `times` in turn.
    pub open spec fn ticked_all(self, times: Seq<Fixed>) -> FrameStats
        decreases times.len(),
    {
        if times.len() == 0 {
            self
        } else {
            self.ticked_all(times.drop_last()).ticked(times.last())
        }
    }

    /// A clock at time zero that has seen no frame.
    pub fn new() -> (r: FrameStats)
        ensures
            r == FrameStats::initial(),
    {
        FrameStats {
            simulation_time: Fixed { raw: 0 },
            last_frame_timestamp: Fixed { raw: 0 },
            frame_count: 0,
            fps_window_start: Fixed { raw: 0 },
            current_fps: 0,
        }
    }

    /// Advances the clock to a frame at `now`, a timestamp in milliseconds.
    ///
    /// A frame within the open window is counted and leaves the frames per
    /// second and the window's start as they were. A frame that closes the
    /// window reports the frames counted, itself included, starts the count
    /// again at zero and the next window at `now`. The simulation time does
    /// not run backwards as long as the timestamps do not.
    pub fn tick(&mut self, now: Fixed) -> (r: FrameTick)
        requires
            old(self).frame_count < u32::MAX,
        ensures
            *final(self) == old(self).ticked(now),
            r.delta_seconds == old(self).delta_spec(now),
            r.simulation_time == final(self).simulation_time,
            r.fps == final(self).current_fps,
            final(self).last_frame_timestamp == now,
            !old(self).window_elapsed(now) ==> {
                &&& final(self).frame_count == old(self).frame_count + 1
                &&& final(self).current_fps == old(self).current_fps
                &&& r.fps == old(self).current_fps
                &&& final(self).fps_window_start == old(self).fps_window_start
            },
            old(self).window_elapsed(now) ==> {
                &&& final(self).frame_count == 0
                &&& final(self).current_fps == old(self).frame_count + 1
                &&& r.fps == old(self).frame_count + 1
                &&& final(self).fps_window_start == now
            },
            now.raw >= old(self).last_frame_timestamp.raw ==> old(self).simulation_time.raw
                <= final(self).simulation_time.raw,
    {
        let delta = now.saturating_sub(self.last_frame_timestamp).saturating_mul(
            Fixed { raw: SECONDS_PER_MILLISECOND },
        );
        self.last_frame_timestamp = now;
        self.frame_count = self.frame_count + 1;
        if now.saturating_sub(self.fps_window_start).raw >= FPS_WINDOW {
            self.current_fps = self.frame_count;
            self.frame_count = 0;
            self.fps_window_start = now;
        }
        self.simulation_time = self.simulation_time.saturating_add(delta);
        FrameTick {
            delta_seconds: delta,
            simulation_time: self.simulation_time,
            fps: self.current_fps,
        }
    }
}

/// Two frames a second apart are one second of simulation apart.
pub proof fn lemma_second_between_frames(stats: FrameStats, first: Fixed, second: Fixed)
    requires
        second.raw - first.raw == FPS_WINDOW,
    ensures
        stats.ticked(first).delta_spec(second).raw == 1_000_000,
{
}

/// Frames that come before the open window's second is over are counted and
/// leave the frames per second as they were.
pub proof fn lemma_frames_within_window_accumulate(stats: FrameStats, times: Seq<Fixed>)
    requires
        stats.frame_count + times.len() <= u32::MAX,
        forall|i: int| 0 <= i < times.len() ==> !stats.window_elapsed(#[trigger] times[i]),
    ensures
        stats.ticked_all(times).frame_count == stats.frame_count + times.len(),
        stats.ticked_all(times).current_fps == stats.current_fps,
        stats.ticked_all(times).fps_window_start == stats.fps_window_start,
    decreases times.len(),
{
    if times.len() > 0 {
        let earlier = times.drop_last();
        assert forall|i: int| 0 <= i < earlier.len() implies !stats.window_elapsed(
            #[trigger] earlier[i],
        ) by {
            assert(earlier[i] == times[i]);
        }
        lemma_frames_within_window_accumulate(stats, earlier);
        assert(!stats.window_elapsed(times.last()));
    }
}

/// The frame that comes once the second is over reports the frames counted
/// in the window, itself included, and starts the count again at zero.
pub proof fn lemma_window_close_reports_count(stats: FrameStats, times: Seq<Fixed>, closing: Fixed)
    requires
        stats.frame_count + times.len() < u32::MAX,
        forall|i: int| 0 <= i < times.len() ==> !stats.window_elapsed(#[trigger] times[i]),
        stats.window_elapsed(closing),
    ensures
        stats.ticked_all(times).ticked(closing).current_fps == stats.frame_count + times.len() + 1,
        stats.ticked_all(times).ticked(closing).frame_count == 0,
        stats.ticked_all(times).ticked(closing).fps_window_start == closing,
{
    lemma_frames_within_window_accumulate(stats, times);
}

} // verus!
