use bevy::time::Timer;
use std::time::Duration;
use vstd::arithmetic::div_mod::{
    lemma_add_mod_noop_right, lemma_basic_div, lemma_fundamental_div_mod, lemma_mod_bound,
};
use vstd::prelude::*;

verus! {

/// A repeating countdown, in nanoseconds: `elapsed` of the current `period`
/// has passed. The arithmetic of a tick is bevy's; this type keeps the two
/// numbers that a tick reads and writes.
#[derive(Debug, Clone, Copy, PartialEq, Eq, Hash, Structural)]
pub struct AeiouTimer {
    pub period: u64,
    pub elapsed: u64,
}

/// How many periods bevy's timer can count in one tick.
pub const MAX_PERIODS: u64 = 4_294_967_295;

/// One tick of `bevy::time::Timer::tick` on a repeating, running timer of
/// `period` nanoseconds that has `elapsed` behind it.
///
/// Trusted, not proved. The claim, read off bevy's source: the timer adds
/// `delta` to what has elapsed; if the sum reaches the period it reports that
/// it has just finished, and it keeps what is left of the sum once the whole
/// periods are taken out. Two inputs are left out: a period of zero, by which
/// bevy divides, and a sum of more periods than bevy's 32-bit count holds.
#[verifier::external_body]
fn tick_repeating(period: u64, elapsed: u64, delta: u64) -> (after: (u64, bool))
    requires
        0 < period,
        (elapsed + delta) / (period as int) <= MAX_PERIODS,
    ensures
        after.0 == (elapsed + delta) % (period as int),
        after.1 == (elapsed + delta >= period),
{
    let mut timer = Timer::new(Duration::from_nanos(period), true);
    timer.set_elapsed(Duration::from_nanos(elapsed));
    timer.tick(Duration::from_nanos(delta));
    (timer.elapsed().as_nanos() as u64, timer.just_finished())
}

impl AeiouTimer {
    /// A timer is well formed when its period is positive and less than one
    /// period has elapsed.
    pub open spec fn wf(self) -> bool {
        0 < self.period && self.elapsed < self.period
    }

    /// Whether a tick of `delta` nanoseconds completes at least one period.
    pub open spec fn finishes(self, delta: u64) -> bool {
        self.elapsed + delta >= self.period
    }

    /// The timer after a tick of `delta` nanoseconds: time moves on and whole
    /// periods drop out.
    pub open spec fn ticked(self, delta: u64) -> AeiouTimer {
        AeiouTimer {
            period: self.period,
            elapsed: ((self.elapsed + delta) % (self.period as int)) as u64,
        }
    }

    /// Tests the invariant.
    pub fn is_wf(&self) -> (ok: bool)
        ensures
            ok == self.wf(),
    {
        0 < self.period && self.elapsed < self.period
    }

    /// A fresh repeating timer of `period` nanoseconds.
    pub fn new(period: u64) -> (timer: AeiouTimer)
        requires
            0 < period,
        ensures
            timer == (AeiouTimer { period, elapsed: 0 }),
            timer.wf(),
    {
        AeiouTimer { period, elapsed: 0 }
    }

    /// Advances the timer by `delta` nanoseconds and says whether a period
    /// was completed by it. However many periods `delta` spans, the answer is
    /// one yes.
    pub fn tick(&mut self, delta: u64) -> (finished: bool)
        requires
            old(self).wf(),
        ensures
            *final(self) == old(self).ticked(delta),
            finished == old(self).finishes(delta),
            final(self).wf(),
    {
        let period: u64 = self.period;
        let elapsed: u64 = self.elapsed;
        // A tick of more periods than bevy counts is cut down to its last,
        // unfinished period: the periods before it change nothing but the
        // answer, which is yes.
        let far: bool = delta / period >= MAX_PERIODS;
        let step: u64 = if far {
            delta % period
        } else {
            delta
        };
        proof {
            lemma_periods(period as int, elapsed as int, delta as int, step as int);
        }
        let (rest, wrapped): (u64, bool) = tick_repeating(period, elapsed, step);
        self.elapsed = rest;
        far || wrapped
    }
}

/// What `tick` needs of division: with less than a period elapsed, a step
/// that is `delta` or what `delta` leaves over a period spans at most one
/// period more than `delta` does alone, and leaves the same remainder.
proof fn lemma_periods(period: int, elapsed: int, delta: int, step: int)
    requires
        0 <= elapsed < period,
        0 <= delta,
        step == delta || step == delta % period,
    ensures
        0 <= step,
        (elapsed + step) / period <= step / period + 1,
        step == delta % period ==> step / period == 0,
        (elapsed + step) % period == (elapsed + delta) % period,
        0 <= (elapsed + delta) % period < period,
        delta / period >= 1 ==> delta >= period,
{
    lemma_fundamental_div_mod(step, period);
    lemma_fundamental_div_mod(elapsed + step, period);
    lemma_fundamental_div_mod(delta, period);
    lemma_mod_bound(step, period);
    lemma_mod_bound(delta, period);
    lemma_mod_bound(elapsed + step, period);
    lemma_mod_bound(elapsed + delta, period);
    lemma_add_mod_noop_right(elapsed, delta, period);
    let sum = (elapsed + step) / period;
    let alone = step / period;
    assert(sum <= alone + 1) by (nonlinear_arith)
        requires
            0 <= elapsed < period,
            elapsed + step == period * sum + (elapsed + step) % period,
            step == period * alone + step % period,
            0 <= (elapsed + step) % period,
            step % period < period,
    ;
    if step == delta % period {
        lemma_basic_div(step, period);
    }
    assert(delta / period >= 1 ==> delta >= period) by (nonlinear_arith)
        requires
            0 < period,
            delta == period * (delta / period) + delta % period,
            0 <= delta % period,
    ;
}

} // verus!
