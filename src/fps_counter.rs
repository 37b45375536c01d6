//! Frame-rate measurement: the time between the last two frames, sampled
//! every half second for display.

use vstd::prelude::*;
use crate::rendering::{CssColor, CssFont, Pso};
use crate::utils::{Timer, TimerView};

verus! {

/// How often the shown frame time is refreshed.
pub const REFRESH_PERIOD: u32 = 500;

/// What the counter holds: the last frame's timestamp, its refresh timer and
/// the frame time sampled at the last refresh (none before the first).
pub struct FpsView {
    pub last_frame_ts: u32,
    pub timer: TimerView,
    pub frame_time: Option<u32>,
}

impl FpsView {
    /// The counter after a frame at `ts`: when the refresh timer fires, the
    /// time since the previous frame becomes the shown frame time.
    pub open spec fn next(self, ts: u32) -> FpsView {
        if !self.timer.is_due(ts) {
            FpsView { last_frame_ts: ts, ..self }
        } else {
            FpsView {
                last_frame_ts: ts,
                timer: self.timer.fired(ts),
                frame_time: Some((ts - self.last_frame_ts) as u32),
            }
        }
    }
}

/// Frame-rate counter.
pub struct FpsCounter {
    last_frame_ts: u32,
    timer: Timer,
    frame_time: Option<u32>,
}

impl View for FpsCounter {
    type V = FpsView;

    closed spec fn view(&self) -> FpsView {
        FpsView { last_frame_ts: self.last_frame_ts, timer: self.timer@, frame_time: self.frame_time }
    }
}

impl FpsCounter {
    /// A counter whose first refresh comes at 500.
    pub fn new() -> (r: FpsCounter)
        ensures
            r@.last_frame_ts == 0,
            r@.timer == TimerView::interval_spec(0, REFRESH_PERIOD),
            r@.frame_time is None,
    {
        FpsCounter {
            last_frame_ts: 0,
            timer: Timer::interval(0, REFRESH_PERIOD),
            frame_time: None,
        }
    }

    /// Record a frame at `ts`. When the refresh timer fires, the time since
    /// the previous frame becomes the shown frame time.
    pub fn update(&mut self, ts: u32)
        requires
            old(self)@.last_frame_ts <= ts,
            old(self)@.timer.is_due(ts) ==> old(self)@.timer.can_fire_at(ts),
        ensures
            final(self)@ == old(self)@.next(ts),
    {
        if self.timer.check(ts).is_some() {
            self.frame_time = Some(ts - self.last_frame_ts);
        }
        self.last_frame_ts = ts;
    }

    /// The frame time sampled at the last refresh, in the timestamps' unit.
    pub fn frame_time(&self) -> (r: Option<u32>)
        ensures
            r == self@.frame_time,
    {
        self.frame_time
    }

    /// Timestamp of the last recorded frame.
    pub fn last_frame_ts(&self) -> (r: u32)
        ensures
            r == self@.last_frame_ts,
    {
        self.last_frame_ts
    }

    /// The style of the counter's text: black, 20 pixel monospace.
    pub fn pso(&self) -> (r: Pso)
        ensures
            r.fill_color matches Some(c) && c.red() == 0 && c.green() == 0 && c.blue() == 0,
            r.font matches Some(f) && f.size_spec() == 20 && f.family_spec() == "Courier New"@,
    {
        Pso { fill_color: Some(CssColor::new(0, 0, 0)), font: Some(CssFont::monospace(20)) }
    }
}

} // verus!
