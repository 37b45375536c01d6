//! Small helpers shared by the entities: clamping and a timestamp-driven timer.

use vstd::prelude::*;

verus! {

/// The value of `val` bounded to `[min, max]`: `min` below the range, `max`
/// above it, `val` itself otherwise.
pub open spec fn cap_spec(val: int, min: int, max: int) -> int {
    if val < min {
        min
    } else if val > max {
        max
    } else {
        val
    }
}

/// Bound `val` to `[min, max]`.
pub fn cap(val: i64, min: i64, max: i64) -> (r: i64)
    ensures
        r == cap_spec(val as int, min as int, max as int),
{
    if val < min {
        min
    } else if val > max {
        max
    } else {
        val
    }
}

/// What a timer holds: the next deadline, for a repeating timer its period,
/// and for a one-shot timer whether it has already fired.
pub struct TimerView {
    pub deadline: u32,
    pub period: Option<u32>,
    pub spent: bool,
}

impl TimerView {
    /// A check at `ts` fires the timer: it has not fired for good yet and its
    /// deadline is reached.
    pub open spec fn is_due(self, ts: u32) -> bool {
        !self.spent && ts >= self.deadline
    }

    /// The timer after it fired at `ts`: a repeating timer is re-armed
    /// `period` after the firing time (not after the missed deadline); a
    /// one-shot timer is spent and never fires again.
    pub open spec fn fired(self, ts: u32) -> TimerView {
        match self.period {
            Some(p) => TimerView { deadline: (ts + p) as u32, period: self.period, spent: false },
            None => TimerView { spent: true, ..self },
        }
    }

    /// Re-arming at `ts` stays within the range of timestamps.
    pub open spec fn can_fire_at(self, ts: u32) -> bool {
        match self.period {
            Some(p) => ts + p <= u32::MAX,
            None => true,
        }
    }

    /// A repeating timer armed at `now`.
    pub open spec fn interval_spec(now: u32, period: u32) -> TimerView {
        TimerView { deadline: (now + period) as u32, period: Some(period), spent: false }
    }
}

/// A deadline driven by timestamps handed in from outside, either one-shot or
/// repeating.
#[derive(Clone, Copy)]
pub struct Timer {
    future_ts: u32,
    interval: Option<u32>,
    spent: bool,
}

impl View for Timer {
    type V = TimerView;

    closed spec fn view(&self) -> TimerView {
        TimerView { deadline: self.future_ts, period: self.interval, spent: self.spent }
    }
}

impl Timer {
    /// A one-shot timer that fires once, at the first check at or after `time`.
    pub fn once(time: u32) -> (r: Timer)
        ensures
            r@ == (TimerView { deadline: time, period: None, spent: false }),
    {
        Timer { future_ts: time, interval: None, spent: false }
    }

    /// A repeating timer whose first deadline is `now + interval`.
    pub fn interval(now: u32, interval: u32) -> (r: Timer)
        requires
            now + interval <= u32::MAX,
        ensures
            r@ == TimerView::interval_spec(now, interval),
    {
        Timer { future_ts: now + interval, interval: Some(interval), spent: false }
    }

    /// Check the timer at time `ts`. Before the deadline, or once a one-shot
    /// timer has fired, nothing happens and `None` comes back. Otherwise the
    /// timer fires: the result is the deviation `ts - deadline`; a repeating
    /// timer is re-armed at `ts + period`, a one-shot timer is spent.
    pub fn check(&mut self, ts: u32) -> (r: Option<u32>)
        requires
            old(self)@.is_due(ts) ==> old(self)@.can_fire_at(ts),
        ensures
            !old(self)@.is_due(ts) ==> r is None && final(self)@ == old(self)@,
            ts < old(self)@.deadline ==> r is None && final(self)@ == old(self)@,
            old(self)@.is_due(ts) ==> r == Some((ts - old(self)@.deadline) as u32)
                && final(self)@ == old(self)@.fired(ts),
            !old(self)@.spent && ts == old(self)@.deadline ==> r == Some(0u32),
            old(self)@.period is None && old(self)@.is_due(ts) ==> final(self)@.spent,
    {
        if !self.spent && ts >= self.future_ts {
            let off = ts - self.future_ts;
            match self.interval {
                Some(i) => {
                    self.future_ts = ts + i;
                },
                None => {
                    self.spent = true;
                },
            }
            Some(off)
        } else {
            None
        }
    }
}

/// A one-shot timer fires at most once: after it has fired, every later
/// check returns nothing and leaves it as it is.
pub proof fn lemma_once_fires_at_most_once(t: TimerView, ts: u32, later: u32)
    requires
        t.period is None,
        t.is_due(ts),
    ensures
        t.fired(ts).spent,
        !t.fired(ts).is_due(later),
{
}

} // verus!
