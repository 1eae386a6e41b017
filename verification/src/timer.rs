//! A repeating timer measured in nanoseconds, advanced by bevy's `Timer`.

use vstd::prelude::*;

use vstd::arithmetic::div_mod::{lemma_fundamental_div_mod, lemma_fundamental_div_mod_converse};

verus! {

/// One second in nanoseconds.
pub const NANOS_PER_SEC: u64 = 1_000_000_000;

/// Elapsed time of a repeating timer after it was advanced by `delta`: the
/// time wraps around the duration.
pub open spec fn repeating_elapsed(duration: nat, elapsed: nat, delta: nat) -> nat
    recommends
        duration > 0,
{
    if elapsed + delta >= duration {
        (elapsed + delta) % duration
    } else {
        elapsed + delta
    }
}

/// How many times a repeating timer finished while it was advanced by
/// `delta`, as the 32-bit counter of bevy's `Timer` holds it.
pub open spec fn repeating_finishes(duration: nat, elapsed: nat, delta: nat) -> nat
    recommends
        duration > 0,
{
    if elapsed + delta >= duration {
        ((elapsed + delta) / duration) % 0x1_0000_0000
    } else {
        0
    }
}

/// Advances a repeating bevy `Timer` (`TimerMode::Repeating`, not paused)
/// that has the given duration and elapsed time by `delta`, with
/// `Timer::tick`, and returns its new elapsed time and
/// `times_finished_this_tick`. bevy's source adds `delta` to the elapsed time
/// and, once the sum reaches the duration, keeps the remainder of the sum by
/// the duration and counts the quotient (cast to `u32`); otherwise the count
/// is zero. The contract states that.
#[verifier::external_body]
fn tick_repeating(duration_nanos: u64, elapsed_nanos: u64, delta_nanos: u64) -> (r: (u64, u32))
    requires
        duration_nanos > 0,
    ensures
        r.0 == repeating_elapsed(duration_nanos as nat, elapsed_nanos as nat, delta_nanos as nat),
        r.1 == repeating_finishes(duration_nanos as nat, elapsed_nanos as nat, delta_nanos as nat),
{
    let mut timer = bevy::time::Timer::new(
        core::time::Duration::from_nanos(duration_nanos),
        bevy::time::TimerMode::Repeating,
    );
    timer.set_elapsed(core::time::Duration::from_nanos(elapsed_nanos));
    timer.tick(core::time::Duration::from_nanos(delta_nanos));
    (timer.elapsed().as_nanos() as u64, timer.times_finished_this_tick())
}

/// A repeating timer: it finishes each time its elapsed time reaches its
/// duration and then starts over with the remainder.
pub struct RepeatingTimer {
    duration_nanos: u64,
    elapsed_nanos: u64,
}

impl RepeatingTimer {
    /// The duration, in nanoseconds.
    pub closed spec fn duration(self) -> nat {
        self.duration_nanos as nat
    }

    /// The time elapsed since the timer last started over, in nanoseconds.
    pub closed spec fn elapsed(self) -> nat {
        self.elapsed_nanos as nat
    }

    /// A positive duration, and an elapsed time below it.
    pub closed spec fn wf(self) -> bool {
        0 < self.duration_nanos && self.elapsed_nanos < self.duration_nanos
    }

    /// A timer of the given duration that has just started.
    pub fn new(duration_nanos: u64) -> (t: RepeatingTimer)
        requires
            duration_nanos > 0,
        ensures
            t.wf(),
            t.duration() == duration_nanos,
            t.elapsed() == 0,
    {
        RepeatingTimer { duration_nanos, elapsed_nanos: 0 }
    }

    /// A timer of whole seconds that has just started.
    pub fn from_seconds(seconds: u64) -> (t: RepeatingTimer)
        requires
            0 < seconds, seconds * NANOS_PER_SEC <= u64::MAX,
        ensures
            t.wf(),
            t.duration() == seconds * NANOS_PER_SEC,
            t.elapsed() == 0,
    {
        RepeatingTimer::new(seconds * NANOS_PER_SEC)
    }

    /// The duration, in nanoseconds.
    pub fn duration_nanos(&self) -> (r: u64)
        ensures
            r == self.duration(),
    {
        self.duration_nanos
    }

    /// The elapsed time, in nanoseconds.
    pub fn elapsed_nanos(&self) -> (r: u64)
        ensures
            r == self.elapsed(),
    {
        self.elapsed_nanos
    }

    /// Advances the timer by `delta_nanos`; returns whether it finished
    /// during this step (bevy's `just_finished`).
    pub fn tick(&mut self, delta_nanos: u64) -> (just_finished: bool)
        requires
            old(self).wf(),
        ensures
            final(self).wf(),
            final(self).duration() == old(self).duration(),
            final(self).elapsed() == repeating_elapsed(
                old(self).duration(),
                old(self).elapsed(),
                delta_nanos as nat,
            ),
            just_finished == (repeating_finishes(
                old(self).duration(),
                old(self).elapsed(),
                delta_nanos as nat,
            ) > 0),
    {
        let (elapsed, finishes) = tick_repeating(self.duration_nanos, self.elapsed_nanos, delta_nanos);
        proof {
            let d = self.duration_nanos as int;
            let s = self.elapsed_nanos as int + delta_nanos as int;
            if s >= d {
                assert(0 <= s % d < d) by (nonlinear_arith)
                    requires
                        d > 0,
                        s >= 0,
                ;
            }
        }
        self.elapsed_nanos = elapsed;
        finishes > 0
    }

    /// Starts the timer over: the elapsed time becomes zero.
    pub fn reset(&mut self)
        requires
            old(self).wf(),
        ensures
            final(self).wf(),
            final(self).duration() == old(self).duration(),
            final(self).elapsed() == 0,
    {
        self.elapsed_nanos = 0;
    }
}

/// A step that leaves the elapsed time of the timer below its duration does
/// not finish it; a step that reaches the duration does (as long as the
/// step is shorter than 2^32 durations, the width of bevy's counter).
pub proof fn lemma_finishes_iff_duration_reached(duration: nat, elapsed: nat, delta: nat)
    requires
        duration > 0,
        elapsed < duration,
        elapsed + delta < 0x1_0000_0000 * duration,
    ensures
        (repeating_finishes(duration, elapsed, delta) > 0) <==> (elapsed + delta >= duration),
{
    if elapsed + delta >= duration {
        let s = (elapsed + delta) as int;
        let d = duration as int;
        assert(1 <= s / d < 0x1_0000_0000) by (nonlinear_arith)
            requires
                d > 0,
                s >= d,
                s < 0x1_0000_0000 * d,
        ;
    }
}

/// The total of the given frame times.
pub open spec fn total(deltas: Seq<nat>) -> nat
    decreases deltas.len(),
{
    if deltas.len() == 0 {
        0
    } else {
        total(deltas.drop_last()) + deltas.last()
    }
}

/// A repeating timer of the given duration advanced frame by frame by the
/// given frame times: its final elapsed time, and in how many of the frames
/// it finished.
pub open spec fn run_ticks(duration: nat, elapsed: nat, deltas: Seq<nat>) -> (nat, nat)
    decreases deltas.len(),
{
    if deltas.len() == 0 {
        (elapsed, 0)
    } else {
        let before = run_ticks(duration, elapsed, deltas.drop_last());
        let delta = deltas.last();
        (
            repeating_elapsed(duration, before.0, delta),
            before.1 + if repeating_finishes(duration, before.0, delta) > 0 {
                1nat
            } else {
                0nat
            },
        )
    }
}

/// One step of a repeating timer that is no longer than its duration: it
/// finishes at most once, exactly when the total time crosses a multiple of
/// the duration.
proof fn lemma_short_tick(duration: nat, elapsed: nat, delta: nat, before: nat)
    requires
        duration > 0,
        delta <= duration,
        elapsed == before % duration,
    ensures
        repeating_elapsed(duration, elapsed, delta) == (before + delta) % duration,
        (before + delta) / duration == before / duration + if repeating_finishes(
            duration,
            elapsed,
            delta,
        ) > 0 {
            1int
        } else {
            0int
        },
{
    let d = duration as int;
    let t = before as int;
    lemma_fundamental_div_mod(t, d);
    let q = t / d;
    let r = t % d;
    assert(t == q * d + r) by (nonlinear_arith)
        requires
            t == d * q + r,
    ;
    if r + delta >= d {
        assert(t + delta == (q + 1) * d + (r + delta - d)) by (nonlinear_arith)
            requires
                t == q * d + r,
        ;
        lemma_fundamental_div_mod_converse(t + delta, d, q + 1, r + delta - d);
        lemma_fundamental_div_mod_converse(r + delta, d, 1, r + delta - d);
    } else {
        assert(t + delta == q * d + (r + delta)) by (nonlinear_arith)
            requires
                t == q * d + r,
        ;
        lemma_fundamental_div_mod_converse(t + delta, d, q, r + delta);
    }
}

/// A repeating timer that is advanced by frames no longer than its duration
/// finishes once per whole duration of the total time, whatever the frame
/// times are: after the frames, the number of frames in which it finished is
/// the number of whole durations in the elapsed time plus the total, and
/// the elapsed time is what remains.
pub proof fn lemma_ticks_count_whole_durations(duration: nat, elapsed: nat, deltas: Seq<nat>)
    requires
        duration > 0,
        elapsed < duration,
        forall|i: int| 0 <= i < deltas.len() ==> #[trigger] deltas[i] <= duration,
    ensures
        run_ticks(duration, elapsed, deltas) == (
            (elapsed + total(deltas)) % duration,
            (elapsed + total(deltas)) / duration,
        ),
    decreases deltas.len(),
{
    if deltas.len() == 0 {
        vstd::arithmetic::div_mod::lemma_small_mod(elapsed, duration);
        lemma_fundamental_div_mod_converse(elapsed as int, duration as int, 0, elapsed as int);
    } else {
        let init = deltas.drop_last();
        assert forall|i: int| 0 <= i < init.len() implies #[trigger] init[i] <= duration by {
            assert(init[i] == deltas[i]);
        }
        lemma_ticks_count_whole_durations(duration, elapsed, init);
        let before = elapsed + total(init);
        assert(deltas[deltas.len() - 1] <= duration);
        lemma_short_tick(duration, before % duration, deltas.last(), before);
    }
}

/// Each frame time is at most the total.
pub proof fn lemma_total_bounds_each(deltas: Seq<nat>, i: int)
    requires
        0 <= i < deltas.len(),
    ensures
        deltas[i] <= total(deltas),
    decreases deltas.len(),
{
    if i < deltas.len() - 1 {
        lemma_total_bounds_each(deltas.drop_last(), i);
    }
}

} // verus!
