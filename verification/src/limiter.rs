//! The rate limiter that all callers of one dispatcher share. It keeps the
//! count of permits; waiting for the next refill is the caller's part.

use vstd::prelude::*;
use crate::config::PipelineConfig;

verus! {

/// The answer to a caller that asks for a permit.
#[derive(Clone, Copy, Debug, PartialEq, Eq, Structural)]
pub enum Permit {
    /// A permit was taken: the attempt may start.
    Granted,
    /// No permit is left in this interval: ask again at this time, the next
    /// refill.
    WaitUntil(u64),
}

/// The mathematical content of a [`RateLimiter`]. Times are in milliseconds
/// on a clock that does not run backwards.
pub ghost struct RateLimiterView {
    /// The permits that each interval brings.
    pub permits: nat,
    /// The length of an interval.
    pub interval: nat,
    /// The permits left in the running interval.
    pub remaining: nat,
    /// The time of the next refill.
    pub refill_at: nat,
}

impl RateLimiterView {
    pub open spec fn wf(self) -> bool {
        &&& self.permits > 0
        &&& self.interval > 0
        &&& self.remaining <= self.permits
        &&& self.refill_at <= u64::MAX
    }

    /// The limiter as a caller finds it at time `now`: refilled to the whole
    /// number of permits if the time of the refill has come, with the next
    /// refill one interval later.
    pub open spec fn refilled(self, now: nat) -> RateLimiterView {
        if now >= self.refill_at {
            RateLimiterView {
                remaining: self.permits,
                refill_at: if now + self.interval <= u64::MAX {
                    now + self.interval
                } else {
                    u64::MAX as nat
                },
                ..self
            }
        } else {
            self
        }
    }

    /// What a caller is told at time `now`.
    pub open spec fn answer(self, now: nat) -> Permit {
        if self.refilled(now).remaining > 0 {
            Permit::Granted
        } else {
            Permit::WaitUntil(self.refilled(now).refill_at as u64)
        }
    }

    /// The limiter after a caller has asked at time `now`.
    pub open spec fn asked(self, now: nat) -> RateLimiterView {
        let found = self.refilled(now);
        if found.remaining > 0 {
            RateLimiterView { remaining: (found.remaining - 1) as nat, ..found }
        } else {
            found
        }
    }

    /// The limiter after callers have asked at these times, in this order.
    pub open spec fn asked_all(self, times: Seq<u64>) -> RateLimiterView
        decreases times.len(),
    {
        if times.len() == 0 {
            self
        } else {
            self.asked(times.first() as nat).asked_all(times.drop_first())
        }
    }

    /// What callers that ask at these times, in this order, are told.
    pub open spec fn answers(self, times: Seq<u64>) -> Seq<Permit>
        decreases times.len(),
    {
        if times.len() == 0 {
            Seq::empty()
        } else {
            seq![self.answer(times.first() as nat)] + self.asked(times.first() as nat).answers(
                times.drop_first(),
            )
        }
    }
}

/// The shared count of permits.
#[derive(Debug)]
pub struct RateLimiter {
    permits: u64,
    interval: u64,
    remaining: u64,
    refill_at: u64,
}

impl View for RateLimiter {
    type V = RateLimiterView;

    closed spec fn view(&self) -> RateLimiterView {
        RateLimiterView {
            permits: self.permits as nat,
            interval: self.interval as nat,
            remaining: self.remaining as nat,
            refill_at: self.refill_at as nat,
        }
    }
}

impl RateLimiter {
    #[verifier::type_invariant]
    spec fn valid(self) -> bool {
        self@.wf()
    }

    /// A limiter with the permits and the interval of `config`. Its first
    /// interval starts with the first caller.
    pub fn new(config: &PipelineConfig) -> (limiter: RateLimiter)
        ensures
            limiter@ == (RateLimiterView {
                permits: config@.permits_per_interval,
                interval: config@.interval_millis,
                remaining: 0,
                refill_at: 0,
            }),
            limiter@.wf(),
    {
        RateLimiter {
            permits: config.permits_per_interval(),
            interval: config.interval_millis(),
            remaining: 0,
            refill_at: 0,
        }
    }

    /// Asks for a permit at time `now`. A permit is granted when one is left
    /// once the refill that is due has been made; otherwise the caller is
    /// told the time of the next refill, which lies after `now`.
    pub fn acquire(&mut self, now: u64) -> (permit: Permit)
        ensures
            old(self)@.wf(),
            final(self)@ == old(self)@.asked(now as nat),
            permit == old(self)@.answer(now as nat),
            final(self)@.wf(),
            permit matches Permit::WaitUntil(time) ==> time > now,
        no_unwind
    {
        proof {
            use_type_invariant(&*self);
        }
        if now >= self.refill_at {
            self.remaining = self.permits;
            self.refill_at = if now <= u64::MAX - self.interval {
                now + self.interval
            } else {
                u64::MAX
            };
        }
        if self.remaining > 0 {
            self.remaining = self.remaining - 1;
            Permit::Granted
        } else {
            Permit::WaitUntil(self.refill_at)
        }
    }

    /// The permits left in the running interval.
    pub fn remaining(&self) -> (remaining: u64)
        ensures
            remaining == self@.remaining,
    {
        self.remaining
    }

    /// The time of the next refill.
    pub fn refill_at(&self) -> (time: u64)
        ensures
            time == self@.refill_at,
    {
        self.refill_at
    }
}

/// Within one interval no more calls go through than permits are left, and
/// so no more than the interval brings: of the callers that ask before the
/// next refill, in whatever number, the first `remaining` are granted a
/// permit and every other one is told to wait until that refill.
pub proof fn no_more_than_the_permits(limiter: RateLimiterView, times: Seq<u64>)
    requires
        limiter.wf(),
        forall|i: int| 0 <= i < times.len() ==> (#[trigger] times[i]) < limiter.refill_at,
    ensures
        limiter.answers(times).len() == times.len(),
        forall|i: int|
            0 <= i < times.len() ==> (#[trigger] limiter.answers(times)[i]) == if i
                < limiter.remaining {
                Permit::Granted
            } else {
                Permit::WaitUntil(limiter.refill_at as u64)
            },
        limiter.asked_all(times).refill_at == limiter.refill_at,
        limiter.asked_all(times).remaining == if times.len() <= limiter.remaining {
            limiter.remaining - times.len()
        } else {
            0
        },
        limiter.remaining <= limiter.permits,
    decreases times.len(),
{
    if times.len() > 0 {
        let next = limiter.asked(times.first() as nat);
        let rest = times.drop_first();
        assert forall|i: int| 0 <= i < rest.len() implies (#[trigger] rest[i])
            < next.refill_at by {
            assert(rest[i] == times[i + 1]);
        }
        no_more_than_the_permits(next, rest);
        assert forall|i: int| 0 <= i < times.len() implies (#[trigger] limiter.answers(times)[i])
            == if i < limiter.remaining {
            Permit::Granted
        } else {
            Permit::WaitUntil(limiter.refill_at as u64)
        } by {
            if i > 0 {
                assert(limiter.answers(times)[i] == next.answers(rest)[i - 1]);
            }
        }
    }
}

/// An interval lets through as many calls as it brings permits, and no
/// more: when the first of a run of callers comes at or after the time of
/// the refill, and the others within one interval of it, then the first
/// `permits` of them are granted a permit and every other one is told to
/// wait until the interval is over.
pub proof fn an_interval_lets_its_permits_through(limiter: RateLimiterView, times: Seq<u64>)
    requires
        limiter.wf(),
        times.len() > 0,
        times[0] >= limiter.refill_at,
        times[0] + limiter.interval <= u64::MAX,
        forall|i: int|
            0 <= i < times.len() ==> times[0] <= (#[trigger] times[i]) < times[0]
                + limiter.interval,
    ensures
        limiter.answers(times).len() == times.len(),
        forall|i: int|
            0 <= i < times.len() ==> (#[trigger] limiter.answers(times)[i]) == if i
                < limiter.permits {
                Permit::Granted
            } else {
                Permit::WaitUntil((times[0] + limiter.interval) as u64)
            },
{
    let next = limiter.asked(times[0] as nat);
    let rest = times.drop_first();
    assert forall|i: int| 0 <= i < rest.len() implies (#[trigger] rest[i]) < next.refill_at by {
        assert(rest[i] == times[i + 1]);
    }
    no_more_than_the_permits(next, rest);
    assert forall|i: int| 0 <= i < times.len() implies (#[trigger] limiter.answers(times)[i])
        == if i < limiter.permits {
        Permit::Granted
    } else {
        Permit::WaitUntil((times[0] + limiter.interval) as u64)
    } by {
        if i > 0 {
            assert(limiter.answers(times)[i] == next.answers(rest)[i - 1]);
        }
    }
}

/// A caller that was told to wait is granted a permit when it asks again at
/// the time it was told, or later: nobody waits for ever.
pub proof fn the_refill_grants(limiter: RateLimiterView, now: nat)
    requires
        limiter.wf(),
        now >= limiter.refill_at,
    ensures
        limiter.answer(now) == Permit::Granted,
        limiter.asked(now).remaining == limiter.permits - 1,
{
}

} // verus!
