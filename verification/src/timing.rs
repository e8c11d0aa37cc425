//! The shim's clocks, as nanosecond counts on a monotonic clock: whether an interval has
//! passed, and the throttle that paces live-value events.
use vstd::prelude::*;

verus! {

/// Live values go out at most once per this many nanoseconds (about 30 per second).
pub const LIVE_VALUES_INTERVAL_NS: u64 = 33_000_000;

/// A pressure sample is taken at most once per second.
pub const PRESSURE_SAMPLE_INTERVAL_NS: u64 = 1_000_000_000;

/// Pressure control acts at most once per three seconds.
pub const PRESSURE_CONTROL_INTERVAL_NS: u64 = 3_000_000_000;

/// The time from `earlier` to `now`, or zero where `earlier` is the later one.
pub open spec fn spec_elapsed(earlier: u64, now: u64) -> nat {
    if now >= earlier {
        (now - earlier) as nat
    } else {
        0
    }
}

/// Whether at least `interval` has passed from `earlier` to `now`.
pub fn elapsed_at_least(earlier: u64, now: u64, interval: u64) -> (r: bool)
    ensures
        r == (spec_elapsed(earlier, now) >= interval),
{
    now.saturating_sub(earlier) >= interval
}

/// Whether a pressure sample is due at `now`: where none was taken in this window, or
/// a second has passed since the last one.
pub open spec fn spec_sample_due(last_sample: Option<u64>, now: u64) -> bool {
    match last_sample {
        None => true,
        Some(last) => spec_elapsed(last, now) >= PRESSURE_SAMPLE_INTERVAL_NS,
    }
}

/// Whether a pressure sample is due at `now`.
pub fn sample_due(last_sample: Option<u64>, now: u64) -> (r: bool)
    ensures
        r == spec_sample_due(last_sample, now),
{
    match last_sample {
        None => true,
        Some(last) => elapsed_at_least(last, now, PRESSURE_SAMPLE_INTERVAL_NS),
    }
}

/// Paces live-value events: one goes out only where the interval has passed since the
/// last one.
#[derive(Clone, Copy, Debug, PartialEq, Eq, Structural)]
pub struct EmitThrottle {
    /// When the last event went out (or the throttle was started).
    pub last_emit: u64,
}

impl EmitThrottle {
    /// A throttle started at `now`.
    pub fn new(now: u64) -> (t: EmitThrottle)
        ensures
            t.last_emit == now,
    {
        EmitThrottle { last_emit: now }
    }

    /// Whether an event is due at `now` for a throttle that last fired at `last_emit`.
    pub open spec fn spec_due(self, now: u64) -> bool {
        spec_elapsed(self.last_emit, now) >= LIVE_VALUES_INTERVAL_NS
    }

    /// The throttle after being asked at `now`.
    pub open spec fn after_poll(self, now: u64) -> EmitThrottle {
        if self.spec_due(now) {
            EmitThrottle { last_emit: now }
        } else {
            self
        }
    }

    /// Asks at `now` whether an event goes out; where it does, `now` becomes the time of
    /// the last event.
    pub fn poll(&mut self, now: u64) -> (due: bool)
        ensures
            due == old(self).spec_due(now),
            *final(self) == old(self).after_poll(now),
    {
        if elapsed_at_least(self.last_emit, now, LIVE_VALUES_INTERVAL_NS) {
            self.last_emit = now;
            true
        } else {
            false
        }
    }
}

/// Two live-value events are at least the interval apart: after the throttle fired at
/// `now`, it does not fire again before the interval has passed.
pub proof fn law_emit_spacing(t: EmitThrottle, now: u64, later: u64)
    requires
        t.spec_due(now),
        now <= later,
        later < now + LIVE_VALUES_INTERVAL_NS,
    ensures
        !t.after_poll(now).spec_due(later),
{
}


/// An interval has passed exactly when `now` is at least `interval` after `earlier`; a
/// clock reading before `earlier` counts as no time passed.
pub proof fn law_elapsed_is_the_difference(earlier: u64, now: u64, interval: u64)
    ensures
        now >= earlier ==> (spec_elapsed(earlier, now) >= interval <==> now - earlier >= interval),
        now < earlier ==> (spec_elapsed(earlier, now) >= interval <==> interval == 0),
        spec_elapsed(earlier, earlier) == 0,
{
}

/// The first sample of a window is always due; a later one is due exactly when a second
/// has passed since the last.
pub proof fn law_sampling_once_per_second(last: u64, now: u64)
    ensures
        spec_sample_due(None, now),
        now >= last ==> (spec_sample_due(Some(last), now) <==> now - last >= 1_000_000_000),
        now < last ==> !spec_sample_due(Some(last), now),
{
}

/// The throttle fires exactly when 33 ms have passed since it last fired, and then
/// restarts its interval at that moment.
pub proof fn law_throttle_fires_on_interval(t: EmitThrottle, now: u64)
    requires
        now >= t.last_emit,
    ensures
        t.spec_due(now) <==> now - t.last_emit >= 33_000_000,
        t.spec_due(now) ==> t.after_poll(now).last_emit == now,
        !t.spec_due(now) ==> t.after_poll(now) == t,
{
}

} // verus!
