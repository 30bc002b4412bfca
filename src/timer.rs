use vstd::prelude::*;

verus! {

/// Nanoseconds in one period of the 60 Hz timer rate, rounded down: a
/// period has passed once strictly more than this has elapsed.
pub const TIMER_SPEED_NS: u64 = 16_666_666;

/// Relies on time::precise_time_ns: the reading of a nanosecond counter
/// since an unspecified epoch. Nothing is promised of the value.
pub assume_specification[ time::precise_time_ns ]() -> u64;

/// Whether at least 1/60 s separates the reference time `at` from `now`
/// (both in nanoseconds); a `now` before `at` is no elapsed time.
pub open spec fn period_elapsed(at: u64, now: u64) -> bool {
    now >= at && (now - at) * 60 >= 1_000_000_000
}

/// Value and reference time of a timer after a tick at `now`: a running
/// timer whose period has elapsed loses exactly one and takes `now` as its
/// new reference; otherwise nothing changes.
pub open spec fn ticked(value: u8, at: u64, now: u64) -> (u8, u64) {
    if value > 0 && period_elapsed(at, now) {
        ((value - 1) as u8, now)
    } else {
        (value, at)
    }
}

/// Decay follows the clock, not the number of ticks: a second tick at the
/// same instant changes nothing, so any number of ticks at one instant
/// decrement a timer at most once.
pub proof fn lemma_tick_same_instant(value: u8, at: u64, now: u64)
    ensures
        ticked(ticked(value, at, now).0, ticked(value, at, now).1, now) == ticked(value, at, now),
{
}

/// An 8-bit counter that decays toward zero at 60 Hz of wall-clock time,
/// however often it is ticked.
pub struct Timer {
    value: u8,
    at: u64,
}

impl Timer {
    /// The counter.
    pub closed spec fn spec_value(&self) -> u8 {
        self.value
    }

    /// Time of the last decrement, or of creation, in nanoseconds.
    pub closed spec fn spec_at(&self) -> u64 {
        self.at
    }

    /// A stopped timer whose reference time is the clock's reading now.
    pub fn new() -> (r: Timer)
        ensures
            r.spec_value() == 0,
    {
        Timer::starting_at(time::precise_time_ns())
    }

    /// A stopped timer whose reference time is `now` nanoseconds.
    pub fn starting_at(now: u64) -> (r: Timer)
        ensures
            r.spec_value() == 0,
            r.spec_at() == now,
    {
        Timer { value: 0, at: now }
    }

    /// The counter.
    pub fn get_value(&self) -> (r: u8)
        ensures
            r == self.spec_value(),
    {
        self.value
    }

    /// Sets the counter at once; the reference time stays.
    pub fn set_value(&mut self, value: u8)
        ensures
            final(self).spec_value() == value,
            final(self).spec_at() == old(self).spec_at(),
    {
        self.value = value;
    }

    /// Decrements a running timer by one if at least 1/60 s has passed
    /// between its reference time and `now`, and then takes `now` as the
    /// reference time.
    pub fn tick(&mut self, now: u64)
        ensures
            (final(self).spec_value(), final(self).spec_at()) == ticked(
                old(self).spec_value(),
                old(self).spec_at(),
                now,
            ),
    {
        if self.value > 0 && now >= self.at && now - self.at > TIMER_SPEED_NS {
            self.value = self.value - 1;
            self.at = now;
        }
    }

    /// Ticks the timer against the clock's reading now.
    pub fn cycle(&mut self)
        ensures
            exists|now: u64|
                (final(self).spec_value(), final(self).spec_at()) == #[trigger] ticked(
                    old(self).spec_value(),
                    old(self).spec_at(),
                    now,
                ),
    {
        let now = time::precise_time_ns();
        self.tick(now);
    }
}

} // verus!
