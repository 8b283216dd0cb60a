use argon_fan_ctl::{Scheduler, Tick, UpdateIntervalSeconds};
use std::time::{Duration, Instant};

#[test]
fn tolerates_windback() {
    let dur = Duration::from_secs(100);
    let past = Instant::now();
    let first = Instant::now();
    let mut sched = Scheduler::new(first, dur);
    assert_eq!(sched.update(Instant::now()), false);
    assert_eq!(sched.previous_tick(), first);
    assert_eq!(sched.update(past), false);
    assert_eq!(sched.previous_tick(), past);
}

#[test]
fn due_after_interval_and_not_before() {
    let t0 = Instant::now();
    let mut sched = Scheduler::new(t0, Duration::from_secs(100));
    assert_eq!(sched.update(t0 + Duration::from_secs(50)), false);
    assert_eq!(sched.previous_tick(), t0);
    let t1 = t0 + Duration::from_secs(150);
    assert_eq!(sched.update(t1), true);
    assert_eq!(sched.previous_tick(), t1);
    assert_eq!(sched.update(t1 + Duration::from_secs(10)), false);
    assert_eq!(sched.previous_tick(), t1);
    assert_eq!(sched.interval(), Duration::from_secs(100));
}

#[test]
fn due_exactly_at_interval() {
    let t0 = Instant::now();
    let mut sched = Scheduler::new(t0, Duration::from_secs(100));
    assert_eq!(sched.update(t0 + Duration::from_nanos(99_999_999_999)), false);
    assert_eq!(sched.previous_tick(), t0);
    let t1 = t0 + Duration::from_secs(100);
    assert_eq!(sched.update(t1), true);
    assert_eq!(sched.previous_tick(), t1);
}

#[test]
fn backwards_time_resets_previous_tick() {
    let t0 = Instant::now();
    let start = t0 + Duration::from_secs(1000);
    let mut sched = Scheduler::new(start, Duration::from_secs(100));
    // The clock shows a time long before the previous tick.
    assert_eq!(sched.update(t0), false);
    assert_eq!(sched.previous_tick(), t0);
    // The next interval is measured from the time it fell back to.
    assert_eq!(sched.update(t0 + Duration::from_secs(99)), false);
    assert_eq!(sched.previous_tick(), t0);
    assert_eq!(sched.update(t0 + Duration::from_secs(100)), true);
    assert_eq!(sched.previous_tick(), t0 + Duration::from_secs(100));
}

#[test]
fn missed_ticks_are_not_caught_up() {
    let t0 = Instant::now();
    let mut sched = Scheduler::new(t0, Duration::from_secs(10));
    // Five intervals pass unseen: one tick, then waiting again.
    let late = t0 + Duration::from_secs(50);
    assert_eq!(sched.update(late), true);
    assert_eq!(sched.update(late + Duration::from_secs(1)), false);
    assert_eq!(sched.update(late + Duration::from_secs(9)), false);
    assert_eq!(sched.update(late + Duration::from_secs(10)), true);
}

#[test]
fn zero_interval_is_always_due() {
    let t0 = Instant::now();
    let mut sched = Scheduler::new(t0, Duration::from_secs(0));
    assert_eq!(sched.update(t0), true);
    assert_eq!(sched.update(t0), true);
}

#[test]
fn classify_elapsed_time() {
    assert_eq!(Tick::classify(None, 100), Tick::Rewound);
    assert_eq!(Tick::classify(None, 0), Tick::Rewound);
    assert_eq!(Tick::classify(Some(0), 100), Tick::Wait);
    assert_eq!(Tick::classify(Some(99), 100), Tick::Wait);
    assert_eq!(Tick::classify(Some(100), 100), Tick::Due);
    assert_eq!(Tick::classify(Some(101), 100), Tick::Due);
    assert_eq!(Tick::classify(Some(0), 0), Tick::Due);
    assert_eq!(Tick::classify(Some(u128::MAX), u128::MAX), Tick::Due);
    assert_eq!(Tick::classify(Some(u128::MAX - 1), u128::MAX), Tick::Wait);
}

#[test]
fn cloned_scheduler_ticks_alike() {
    let t0 = Instant::now();
    let mut sched = Scheduler::new(t0, Duration::from_secs(5));
    let mut copy = sched.clone();
    let t1 = t0 + Duration::from_secs(5);
    assert_eq!(sched.update(t1), true);
    assert_eq!(copy.previous_tick(), t0);
    assert_eq!(copy.update(t1), true);
    assert_eq!(copy.previous_tick(), t1);
}

#[test]
fn interval_becomes_duration_of_whole_seconds() {
    let i = UpdateIntervalSeconds::new(30).unwrap();
    assert_eq!(i.to_duration(), Duration::from_secs(30));
    assert_eq!(Duration::from(i), Duration::from_secs(30));
    let longest = UpdateIntervalSeconds::new(u32::MAX).unwrap();
    assert_eq!(longest.to_duration(), Duration::from_secs(4_294_967_295));
    // A scheduler built from it is due after 30 s and not after 29.
    let t0 = Instant::now();
    let mut sched = Scheduler::new(t0, i.into());
    assert_eq!(sched.update(t0 + Duration::from_secs(29)), false);
    assert_eq!(sched.update(t0 + Duration::from_secs(30)), true);
}

#[test]
fn tick_tells_rewound_from_waiting() {
    let t0 = Instant::now();
    let start = t0 + Duration::from_secs(500);
    let mut sched = Scheduler::new(start, Duration::from_secs(100));
    assert_eq!(sched.tick(start + Duration::from_secs(1)), Tick::Wait);
    assert_eq!(sched.previous_tick(), start);
    assert_eq!(sched.tick(t0), Tick::Rewound);
    assert_eq!(sched.previous_tick(), t0);
    assert_eq!(sched.tick(t0 + Duration::from_secs(100)), Tick::Due);
    assert_eq!(sched.previous_tick(), t0 + Duration::from_secs(100));
    assert_eq!(sched.tick(t0 + Duration::from_secs(100)), Tick::Wait);
}
