//! Envelope generators: state machines that drive a value up and down at
//! fixed rates while a key is pressed and let go.

pub mod adsr;
pub mod ar;

pub use self::adsr::Adsr;
pub use self::ar::Ar;

use vstd::prelude::*;
use crate::traits::{
    is_difference,
    is_ge,
    is_gt,
    is_le,
    is_product,
    is_quotient,
    is_sum,
    Sample,
};

verus! {

/// A generator of samples: a unit that gives one sample for each tick, and
/// takes none.
pub trait Generator<T: Sample>: View + Sized {
    /// From `before`, a tick may lead to `after` and the output `out`.
    spec fn ticks(before: Self::V, after: Self::V, out: T) -> bool;

    /// `after` is `before` put back to where a new generator starts.
    spec fn resets(before: Self::V, after: Self::V) -> bool;

    /// The output most recently produced in `state`.
    spec fn last_out_spec(state: Self::V) -> T;

    /// Advances the generator by one sample and returns it.
    fn tick(&mut self) -> (out: T)
        ensures
            Self::ticks(old(self)@, final(self)@, out),
    ;

    /// Returns the last computed output sample.
    fn last_out(&self) -> (out: T)
        ensures
            out == Self::last_out_spec(self@),
    ;

    /// Puts the generator back to where it started.
    fn reset(&mut self)
        ensures
            Self::resets(old(self)@, final(self)@),
    ;
}

/// An envelope generator: a generator that a key drives. Pressing and
/// letting go of the key are the only transitions that come from outside; every
/// other one is taken in a tick, when the value reaches a bound.
pub trait EnvGenerator<T: Sample>: Generator<T> {
    /// The state once the key is down.
    spec fn gated_on(state: Self::V) -> Self::V;

    /// The state once the key is up.
    spec fn gated_off(state: Self::V) -> Self::V;

    /// Takes the key as pressed: the envelope starts to rise.
    fn gate_on(&mut self)
        ensures
            final(self)@ == Self::gated_on(old(self)@),
    ;

    /// Takes the key as let go: the envelope starts to fall, unless it is
    /// idle.
    fn gate_off(&mut self)
        ensures
            final(self)@ == Self::gated_off(old(self)@),
    ;
}

/// `next` may be `value` after a step of `rate` upwards that stops at
/// `bound`: `value + rate`, or `bound` itself where that sum is found at or
/// above it, which `reached` tells.
pub open spec fn is_risen<T: Sample>(value: T, rate: T, bound: T, next: T, reached: bool) -> bool {
    exists|raised: T|
        {
            &&& is_sum(value, rate, raised)
            &&& is_ge(raised, bound, reached)
            &&& next == if reached {
                bound
            } else {
                raised
            }
        }
}

/// `next` may be `value` after a step of `rate` downwards that stops at
/// `bound`: `value - rate`, or `bound` itself where that difference is
/// found at or below it, which `reached` tells.
pub open spec fn is_fallen<T: Sample>(value: T, rate: T, bound: T, next: T, reached: bool) -> bool {
    exists|lowered: T|
        {
            &&& is_difference(value, rate, lowered)
            &&& is_le(lowered, bound, reached)
            &&& next == if reached {
                bound
            } else {
                lowered
            }
        }
}

/// `next` may be `value` after a step of `rate` towards `level` that stops
/// there: downwards if `value` is found above `level`, upwards if not.
pub open spec fn is_approached<T: Sample>(
    value: T,
    rate: T,
    level: T,
    next: T,
    reached: bool,
) -> bool {
    exists|above: bool|
        {
            &&& is_gt(value, level, above)
            &&& if above {
                is_fallen(value, rate, level, next, reached)
            } else {
                is_risen(value, rate, level, next, reached)
            }
        }
}

/// `rate` may be the step per sample that covers `span` in `time` seconds
/// at `sample_rate` samples per second: `span / (time * sample_rate)`.
pub open spec fn is_rate<T: Sample>(span: T, time: T, sample_rate: T, rate: T) -> bool {
    exists|samples: T| is_product(time, sample_rate, samples) && is_quotient(span, samples, rate)
}

/// Steps `value` up by `rate` and stops at `bound`.
pub fn rise<T: Sample>(value: T, rate: T, bound: T) -> (step: (T, bool))
    ensures
        is_risen(value, rate, bound, step.0, step.1),
{
    let raised = value.add(rate);
    if raised.ge(bound) {
        (bound, true)
    } else {
        (raised, false)
    }
}

/// Steps `value` down by `rate` and stops at `bound`.
pub fn fall<T: Sample>(value: T, rate: T, bound: T) -> (step: (T, bool))
    ensures
        is_fallen(value, rate, bound, step.0, step.1),
{
    let lowered = value.sub(rate);
    if lowered.le(bound) {
        (bound, true)
    } else {
        (lowered, false)
    }
}

/// Steps `value` by `rate` towards `level` and stops there.
pub fn approach<T: Sample>(value: T, rate: T, level: T) -> (step: (T, bool))
    ensures
        is_approached(value, rate, level, step.0, step.1),
{
    if value.gt(level) {
        fall(value, rate, level)
    } else {
        rise(value, rate, level)
    }
}

/// Computes the step per sample that covers `span` in `time` seconds at
/// `sample_rate` samples per second.
pub fn rate_of<T: Sample>(span: T, time: T, sample_rate: T) -> (rate: T)
    ensures
        is_rate(span, time, sample_rate, rate),
{
    span.div(time.mul(sample_rate))
}

/// A step upwards never ends above its bound: what it gives is the bound
/// itself, or a value that was found not to be at or above the bound.
pub proof fn lemma_rise_stops_at_bound<T: Sample>(
    value: T,
    rate: T,
    bound: T,
    next: T,
    reached: bool,
)
    requires
        is_risen(value, rate, bound, next, reached),
    ensures
        reached ==> next == bound,
        !reached ==> is_ge(next, bound, false),
{
}

/// A step downwards never ends below its bound: what it gives is the bound
/// itself, or a value that was found not to be at or below the bound.
pub proof fn lemma_fall_stops_at_bound<T: Sample>(
    value: T,
    rate: T,
    bound: T,
    next: T,
    reached: bool,
)
    requires
        is_fallen(value, rate, bound, next, reached),
    ensures
        reached ==> next == bound,
        !reached ==> is_le(next, bound, false),
{
}

} // verus!
