//! The fixed-timestep scheduler: when a simulation tick is due, and when
//! the simulation gives up on ticks it has missed.

use vstd::prelude::*;

verus! {

/// A tick whose time lies more than this many tick durations in the past is
/// dropped.
pub const MAX_BACKLOG_TICKS: u64 = 3;

/// What the scheduler decides when it is asked at some time.
#[derive(Clone, Copy, Debug, PartialEq, Eq, Structural)]
pub enum TickDecision {
    /// No tick is due.
    Idle,
    /// A tick was due `elapsed` nanoseconds ago, which is too long: it is
    /// dropped, and no system runs for it.
    Skip { elapsed: u64 },
    /// A tick was due `elapsed` nanoseconds ago and is to run now. The
    /// tick is recorded under the time `tick_time`.
    Run { elapsed: u64, tick_time: u64 },
}

/// The time at which the next tick is due, and the time from one tick to
/// the next, in nanoseconds.
#[derive(Clone, Copy, Debug, PartialEq, Eq, Structural)]
pub struct Scheduler {
    pub next_tick_time: u64,
    pub tick_duration: u64,
}

/// The sum of two times, held at the last time that the clock can show.
pub open spec fn later(time: u64, span: u64) -> u64 {
    if time + span > u64::MAX {
        u64::MAX
    } else {
        (time + span) as u64
    }
}

/// The duration of a tick in nanoseconds at `rate` ticks per second.
pub fn tick_duration(rate: u32) -> (r: u64)
    requires
        rate > 0,
    ensures
        r == 1_000_000_000int / (rate as int),
{
    1_000_000_000u64 / (rate as u64)
}

impl Scheduler {
    /// A scheduler whose first tick is due at `start`.
    pub fn new(start: u64, tick_duration: u64) -> (r: Self)
        ensures
            r == (Scheduler { next_tick_time: start, tick_duration }),
    {
        Scheduler { next_tick_time: start, tick_duration }
    }

    /// Whether a tick is due at `now`: it is once its time has passed.
    pub open spec fn due(self, now: u64) -> bool {
        now > self.next_tick_time
    }

    /// The scheduler after it was asked at `now`: if a tick was due, the
    /// next tick is due one tick duration after that one.
    pub open spec fn after_poll(self, now: u64) -> Scheduler {
        if self.due(now) {
            Scheduler { next_tick_time: later(self.next_tick_time, self.tick_duration), ..self }
        } else {
            self
        }
    }

    /// What the scheduler decides at `now`. A tick that is due runs, unless
    /// it was due more than [`MAX_BACKLOG_TICKS`] tick durations ago: then
    /// it is dropped.
    pub open spec fn decision(self, now: u64) -> TickDecision {
        if !self.due(now) {
            TickDecision::Idle
        } else if now - self.next_tick_time > MAX_BACKLOG_TICKS * self.tick_duration {
            TickDecision::Skip { elapsed: (now - self.next_tick_time) as u64 }
        } else {
            TickDecision::Run {
                elapsed: (now - self.next_tick_time) as u64,
                tick_time: later(self.next_tick_time, self.tick_duration),
            }
        }
    }

    /// Asks the scheduler at the time `now`. The caller asks again and
    /// again within one pass, each time with the time of the moment, and
    /// runs a tick for each `Run`, until the answer is `Idle`.
    pub fn poll(&mut self, now: u64) -> (r: TickDecision)
        ensures
            r == old(self).decision(now),
            *final(self) == old(self).after_poll(now),
    {
        if now > self.next_tick_time {
            let elapsed = now - self.next_tick_time;
            self.next_tick_time = if self.tick_duration > u64::MAX - self.next_tick_time {
                u64::MAX
            } else {
                self.next_tick_time + self.tick_duration
            };
            // If we missed more than a few updates, take the loss and re-synchronize
            let too_late = self.tick_duration <= u64::MAX / MAX_BACKLOG_TICKS && elapsed > MAX_BACKLOG_TICKS
                * self.tick_duration;
            if too_late {
                TickDecision::Skip { elapsed }
            } else {
                TickDecision::Run { elapsed, tick_time: self.next_tick_time }
            }
        } else {
            TickDecision::Idle
        }
    }

    /// The scheduler after it was asked `k` times at the same time `now`.
    pub open spec fn after_polls(self, now: u64, k: nat) -> Scheduler
        decreases k,
    {
        if k == 0 {
            self
        } else {
            self.after_polls(now, (k - 1) as nat).after_poll(now)
        }
    }

    /// What the scheduler decides when it is asked for the `k`-th time at
    /// the same time `now`, counting from zero.
    pub open spec fn decision_at(self, now: u64, k: nat) -> TickDecision {
        self.after_polls(now, k).decision(now)
    }
}

/// While ticks are due, each question moves the next tick on by one tick
/// duration.
pub proof fn lemma_after_polls(s: Scheduler, now: u64, k: nat)
    requires
        s.tick_duration > 0,
        now + s.tick_duration <= u64::MAX,
        k == 0 || now > s.next_tick_time + (k - 1) * s.tick_duration,
    ensures
        s.after_polls(now, k) == (Scheduler {
            next_tick_time: (s.next_tick_time + k * s.tick_duration) as u64,
            ..s
        }),
        k > 0 ==> s.next_tick_time + k * s.tick_duration <= now + s.tick_duration,
    decreases k,
{
    if k > 0 {
        let j = (k - 1) as nat;
        assert(k * s.tick_duration == j * s.tick_duration + s.tick_duration) by (nonlinear_arith)
            requires
                k == j + 1,
        ;
        if j > 0 {
            assert((j - 1) * s.tick_duration <= j * s.tick_duration) by (nonlinear_arith)
                requires
                    s.tick_duration > 0,
            ;
        }
        lemma_after_polls(s, now, j);
    } else {
        assert(0 * s.tick_duration == 0) by (nonlinear_arith);
    }
}

/// Catch-up policy. Within one pass at the time `now`, with the first tick
/// due `gap` nanoseconds before, the `k`-th question meets the tick that
/// was due `gap - k * tick_duration` ago. The tick is dropped if that is
/// more than three tick durations, it runs if that is more than nothing and
/// at most three tick durations, and else the pass is over.
pub proof fn lemma_catch_up(s: Scheduler, now: u64, k: nat)
    requires
        s.tick_duration > 0,
        now + s.tick_duration <= u64::MAX,
    ensures
        ({
            let behind = now - s.next_tick_time - k * s.tick_duration;
            s.decision_at(now, k) == if behind <= 0 {
                TickDecision::Idle
            } else if behind > MAX_BACKLOG_TICKS * s.tick_duration {
                TickDecision::Skip { elapsed: behind as u64 }
            } else {
                TickDecision::Run {
                    elapsed: behind as u64,
                    tick_time: (s.next_tick_time + (k + 1) * s.tick_duration) as u64,
                }
            }
        }),
    decreases k,
{
    let d = s.tick_duration as int;
    let behind = now - s.next_tick_time - k * d;
    assert((k + 1) * d == k * d + d) by (nonlinear_arith);
    assert(k * d >= 0) by (nonlinear_arith)
        requires
            k >= 0,
            d > 0,
    ;
    if k == 0 {
        assert(0 * d == 0) by (nonlinear_arith);
    } else if behind + d > 0 {
        assert((k - 1) * d == k * d - d) by (nonlinear_arith);
        lemma_after_polls(s, now, k);
    } else {
        let j = (k - 1) as nat;
        assert(j * d == k * d - d) by (nonlinear_arith)
            requires
                j == k - 1,
        ;
        lemma_catch_up(s, now, j);
        assert(s.decision_at(now, j) == TickDecision::Idle);
        assert(s.after_polls(now, k) == s.after_polls(now, j));
    }
}

/// A pass never runs more than three ticks, however far the simulation has
/// fallen behind: the ticks that are dropped come first, then at most three
/// run, and three questions after any tick that ran the pass is over.
pub proof fn lemma_bounded_catch_up(s: Scheduler, now: u64, k: nat)
    requires
        s.tick_duration > 0,
        now + s.tick_duration <= u64::MAX,
        s.decision_at(now, k) is Run,
    ensures
        s.decision_at(now, k + 3) == TickDecision::Idle,
        forall|j: nat| j >= k ==> !(#[trigger] s.decision_at(now, j) is Skip),
        forall|j: nat| j < k ==> !(#[trigger] s.decision_at(now, j) is Idle),
{
    let d = s.tick_duration as int;
    lemma_catch_up(s, now, k);
    lemma_catch_up(s, now, k + 3);
    assert((k + 3) * d == k * d + 3 * d) by (nonlinear_arith);
    assert forall|j: nat| j >= k implies !(#[trigger] s.decision_at(now, j) is Skip) by {
        lemma_catch_up(s, now, j);
        assert(j * d >= k * d) by (nonlinear_arith)
            requires
                j >= k,
                d > 0,
        ;
    }
    assert forall|j: nat| j < k implies !(#[trigger] s.decision_at(now, j) is Idle) by {
        lemma_catch_up(s, now, j);
        assert(j * d <= k * d) by (nonlinear_arith)
            requires
                j < k,
                d > 0,
        ;
    }
}

} // verus!
