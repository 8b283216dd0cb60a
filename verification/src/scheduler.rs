use crate::clock::{checked_duration_since, duration_as_nanos, duration_nanos, instant_nanos};
use std::time::{Duration, Instant};
use vstd::prelude::*;

verus! {

/// What one look at the clock means for the schedule.
#[derive(Copy, Clone, PartialEq, Eq, Debug, Structural)]
pub enum Tick {
    /// The interval has not passed yet.
    Wait,
    /// The interval has passed: the action is due.
    Due,
    /// The clock shows a time before the previous tick.
    Rewound,
}

impl Tick {
    /// The tick for the time elapsed since the previous tick, `None` where
    /// the clock went backwards, and the interval, both in nanoseconds.
    pub open spec fn classify_spec(elapsed: Option<nat>, interval: nat) -> Tick {
        match elapsed {
            None => Tick::Rewound,
            Some(e) => if e >= interval {
                Tick::Due
            } else {
                Tick::Wait
            },
        }
    }

    /// The tick for the time elapsed since the previous tick, `None` where
    /// the clock went backwards, and the interval, both in nanoseconds.
    pub fn classify(elapsed: Option<u128>, interval: u128) -> (tick: Tick)
        ensures
            tick == Tick::classify_spec(
                match elapsed {
                    None => None,
                    Some(e) => Some(e as nat),
                },
                interval as nat,
            ),
    {
        match elapsed {
            None => Tick::Rewound,
            Some(e) => if e >= interval {
                Tick::Due
            } else {
                Tick::Wait
            },
        }
    }

    /// Whether the previous tick moves to the time of this look at the
    /// clock: it does unless the schedule is waiting.
    pub open spec fn resets(self) -> bool {
        self != Tick::Wait
    }
}

/// What a [`Scheduler`] stands for, in nanoseconds: the place in time of the
/// previous tick and the length of the interval.
pub ghost struct Schedule {
    pub previous_tick: int,
    pub interval: nat,
}

impl Schedule {
    /// The time elapsed from the previous tick to `now`, or `None` where
    /// `now` lies before the previous tick.
    pub open spec fn elapsed(self, now: int) -> Option<nat> {
        if now < self.previous_tick {
            None
        } else {
            Some((now - self.previous_tick) as nat)
        }
    }

    /// The tick that a look at the clock at `now` gives.
    pub open spec fn tick(self, now: int) -> Tick {
        Tick::classify_spec(self.elapsed(now), self.interval)
    }

    /// The schedule after a look at the clock at `now`.
    pub open spec fn after(self, now: int) -> Schedule {
        if self.tick(now).resets() {
            Schedule { previous_tick: now, interval: self.interval }
        } else {
            self
        }
    }

    /// A look at a clock that went backwards is never due, and moves the
    /// previous tick to the time seen.
    pub proof fn lemma_rewound_resets(self, now: int)
        requires
            now < self.previous_tick,
        ensures
            self.tick(now) == Tick::Rewound,
            self.after(now).previous_tick == now,
    {
    }

    /// While less than the interval has passed since the previous tick, the
    /// action is not due and the schedule stays as it is; from the interval
    /// on it is due, and the previous tick moves to the time seen.
    pub proof fn lemma_due_from_interval_on(self, now: int)
        requires
            self.previous_tick <= now,
        ensures
            now - self.previous_tick < self.interval ==> self.tick(now) == Tick::Wait && self.after(
                now,
            ) == self,
            now - self.previous_tick >= self.interval ==> self.tick(now) == Tick::Due && self.after(
                now,
            ).previous_tick == now,
    {
    }

    /// After a tick that was due at `now`, the action is not due again
    /// before a whole interval has passed since `now`.
    pub proof fn lemma_not_due_again_within_interval(self, now: int, later: int)
        requires
            self.tick(now) == Tick::Due,
            now <= later < now + self.interval,
        ensures
            self.after(now).tick(later) == Tick::Wait,
    {
    }

    /// The interval never changes, and the previous tick is always a time
    /// that the clock has shown.
    pub proof fn lemma_after_keeps_interval(self, now: int)
        ensures
            self.after(now).interval == self.interval,
            self.after(now).previous_tick == now || self.after(now).previous_tick
                == self.previous_tick,
    {
    }
}

/// Decides at each look at the clock whether a periodic action is due.
///
/// Each interval is measured from the previous tick, not from a fixed
/// origin, so a late look at the clock is followed by one tick and not by a
/// burst of them.
#[derive(Debug)]
pub struct Scheduler {
    prev: Instant,
    interval: Duration,
}

impl View for Scheduler {
    type V = Schedule;

    closed spec fn view(&self) -> Schedule {
        Schedule { previous_tick: instant_nanos(self.prev), interval: duration_nanos(self.interval) }
    }
}

impl Clone for Scheduler {
    fn clone(&self) -> (copy: Scheduler)
        ensures
            copy == *self,
    {
        Scheduler { prev: self.prev, interval: self.interval }
    }
}

impl Scheduler {
    /// The instant of the previous tick.
    pub closed spec fn spec_previous_tick(&self) -> Instant {
        self.prev
    }

    /// The interval between two ticks.
    pub closed spec fn spec_interval(&self) -> Duration {
        self.interval
    }

    /// The view holds the place of the previous tick and the length of the
    /// interval.
    pub proof fn lemma_view(self)
        ensures
            self@.previous_tick == instant_nanos(self.spec_previous_tick()),
            self@.interval == duration_nanos(self.spec_interval()),
    {
    }

    /// A scheduler whose first interval starts at `now`.
    pub fn new(now: Instant, interval: Duration) -> (s: Scheduler)
        ensures
            s.spec_previous_tick() == now,
            s.spec_interval() == interval,
            s@ == (Schedule {
                previous_tick: instant_nanos(now),
                interval: duration_nanos(interval),
            }),
    {
        Scheduler { prev: now, interval }
    }

    /// The instant of the previous tick.
    #[verifier::when_used_as_spec(spec_previous_tick)]
    pub fn previous_tick(&self) -> (t: Instant)
        ensures
            t == self.spec_previous_tick(),
    {
        self.prev
    }

    /// The interval between two ticks.
    #[verifier::when_used_as_spec(spec_interval)]
    pub fn interval(&self) -> (d: Duration)
        ensures
            d == self.spec_interval(),
    {
        self.interval
    }

    /// Looks at the clock, which shows `now`, and says what that means for
    /// the schedule. The previous tick moves to `now` when the action is
    /// due, and also when `now` lies before the previous tick: a clock that
    /// went backwards neither blocks the schedule nor makes it fire.
    pub fn tick(&mut self, now: Instant) -> (tick: Tick)
        ensures
            tick == old(self)@.tick(instant_nanos(now)),
            final(self)@ == old(self)@.after(instant_nanos(now)),
            final(self).spec_interval() == old(self).spec_interval(),
            final(self).spec_previous_tick() == if tick.resets() {
                now
            } else {
                old(self).spec_previous_tick()
            },
    {
        let elapsed = match checked_duration_since(now, self.prev) {
            None => None,
            Some(time_since) => Some(duration_as_nanos(time_since)),
        };
        let tick = Tick::classify(elapsed, duration_as_nanos(self.interval));
        match tick {
            Tick::Wait => {},
            Tick::Due | Tick::Rewound => {
                self.prev = now;
            },
        }
        tick
    }

    /// Looks at the clock, which shows `now`. Returns whether the action is
    /// due: whether at least the interval has passed since the previous
    /// tick. The previous tick moves as [`Scheduler::tick`] says.
    pub fn update(&mut self, now: Instant) -> (due: bool)
        ensures
            due == (old(self)@.tick(instant_nanos(now)) == Tick::Due),
            final(self)@ == old(self)@.after(instant_nanos(now)),
            final(self).spec_interval() == old(self).spec_interval(),
            final(self).spec_previous_tick() == if old(self)@.tick(instant_nanos(now)).resets() {
                now
            } else {
                old(self).spec_previous_tick()
            },
    {
        match self.tick(now) {
            Tick::Due => true,
            Tick::Wait | Tick::Rewound => false,
        }
    }
}

} // verus!
