//! The repeating interval timer that paces the machine.
//!
//! The timer itself is `bevy::time::Timer`. Verus cannot look inside it, so
//! this module names the parts of its state that the machine depends on and
//! states, without proof, what the timer operations the machine uses do to
//! them.

use bevy::time::Timer;
use bevy::time::TimerMode;
use std::time::Duration;
use vstd::prelude::*;

verus! {

/// `bevy::time::Timer`, opaque to the verifier.
#[verifier::external_type_specification]
#[verifier::external_body]
pub struct ExTimer(Timer);

/// The length of a duration in nanoseconds.
pub uninterp spec fn duration_nanos(d: Duration) -> nat;

/// The time a timer has accumulated towards its next interval, in
/// nanoseconds.
pub uninterp spec fn timer_elapsed(t: Timer) -> nat;

/// The length of a timer's interval in nanoseconds.
pub uninterp spec fn timer_period(t: Timer) -> nat;

/// Whether the timer completed an interval during its latest tick.
pub uninterp spec fn timer_fired(t: Timer) -> bool;

/// Whether the timer is a repeating timer that has not been paused.
pub uninterp spec fn timer_active(t: Timer) -> bool;

/// The longest duration `Duration` can hold, in nanoseconds.
pub open spec fn max_duration_nanos() -> nat {
    18_446_744_073_709_551_615_999_999_999
}

/// Whether a repeating timer with `elapsed` nanoseconds on it and an interval
/// of `period` nanoseconds reports a completed interval after `delta` more
/// nanoseconds. The timer counts the completed intervals in 32 bits and
/// reports whether that count is nonzero; a zero interval always completes.
pub open spec fn fires(elapsed: nat, period: nat, delta: nat) -> bool {
    period == 0 || ((elapsed + delta) / period) % 0x1_0000_0000 != 0
}

/// The time left on a repeating timer after a tick: whole intervals are
/// dropped.
pub open spec fn carry(elapsed: nat, period: nat, delta: nat) -> nat {
    if period == 0 {
        0
    } else {
        (elapsed + delta) % period
    }
}

/// `Duration::from_nanos`: the duration that is `nanos` nanoseconds long.
pub assume_specification[ Duration::from_nanos ](nanos: u64) -> (d: Duration)
    ensures
        duration_nanos(d) == nanos,
;

/// `Duration::as_nanos`: the length of the duration in nanoseconds, which is
/// never more than `Duration::MAX` holds.
pub assume_specification[ Duration::as_nanos ](d: &Duration) -> (nanos: u128)
    ensures
        nanos == duration_nanos(*d),
        nanos <= max_duration_nanos(),
;

/// `Timer::new` in repeating mode: a fresh timer with nothing elapsed, not
/// finished and not paused, whose interval is `period`.
#[verifier::external_body]
pub(crate) fn repeating_timer(period: Duration) -> (t: Timer)
    ensures
        timer_elapsed(t) == 0,
        timer_period(t) == duration_nanos(period),
        !timer_fired(t),
        timer_active(t),
{
    Timer::new(period, TimerMode::Repeating)
}

/// `Timer::tick` on a repeating, unpaused timer: adds `delta` to the elapsed
/// time, records whether at least one interval was completed, and keeps the
/// remainder. The sum must fit in a `Duration`, since the timer adds the two
/// with `+`, and the interval in 64 bits of nanoseconds, since the timer
/// rebuilds the remainder from a `u64`.
#[verifier::external_body]
pub(crate) fn tick_timer(t: &mut Timer, delta: Duration)
    requires
        timer_active(*old(t)),
        timer_period(*old(t)) <= u64::MAX,
        timer_elapsed(*old(t)) + duration_nanos(delta) <= max_duration_nanos(),
    ensures
        timer_active(*final(t)),
        timer_period(*final(t)) == timer_period(*old(t)),
        timer_fired(*final(t)) == fires(
            timer_elapsed(*old(t)),
            timer_period(*old(t)),
            duration_nanos(delta),
        ),
        timer_elapsed(*final(t)) == carry(
            timer_elapsed(*old(t)),
            timer_period(*old(t)),
            duration_nanos(delta),
        ),
{
    t.tick(delta);
}

/// `Timer::elapsed`: the time accumulated towards the next interval.
#[verifier::external_body]
pub(crate) fn timer_elapsed_time(t: &Timer) -> (elapsed: Duration)
    ensures
        duration_nanos(elapsed) == timer_elapsed(*t),
{
    t.elapsed()
}

/// `Timer::just_finished`: whether the latest tick completed an interval.
#[verifier::external_body]
pub(crate) fn timer_just_finished(t: &Timer) -> (fired: bool)
    ensures
        fired == timer_fired(*t),
{
    t.just_finished()
}

} // verus!
