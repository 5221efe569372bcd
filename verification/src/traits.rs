//! The arithmetic a sample type offers, and the contracts shared by every
//! stateful unit.

use vstd::prelude::*;

verus! {

/// The arithmetic of a sample type.
///
/// Every unit of this crate is generic over its sample type and computes
/// through this trait alone. The trait promises nothing about what an
/// operation returns: an implementation may round as it likes, and need not
/// even return the same value twice. The contracts of the crate are
/// therefore relations. `is_sum(a, b, r)` says that `r` is a value that
/// `a.add(b)` may return, and a filter's contract says through which chain
/// of such operations its output came about. What is proved holds of every
/// implementation; for one whose operations are functions of their operands,
/// such as IEEE 754 arithmetic, the relations pin each result down.
///
/// An operation is expected to return on every operand: a unit of this
/// crate returns from a call if the arithmetic under it does.
pub trait Sample: Copy + Sized {
    /// The additive identity.
    fn zero() -> Self;

    /// The multiplicative identity.
    fn one() -> Self;

    /// `self + rhs`.
    fn add(self, rhs: Self) -> Self;

    /// `self - rhs`.
    fn sub(self, rhs: Self) -> Self;

    /// `self * rhs`.
    fn mul(self, rhs: Self) -> Self;

    /// `self / rhs`.
    fn div(self, rhs: Self) -> Self;

    /// `-self`.
    fn neg(self) -> Self;

    /// The absolute value of `self`.
    fn abs(self) -> Self;

    /// The square root of `self`.
    fn sqrt(self) -> Self;

    /// `e` to the power of `self`.
    fn exp(self) -> Self;

    /// The cosine of `self`, in radians.
    fn cos(self) -> Self;

    /// The sine of `self`, in radians.
    fn sin(self) -> Self;

    /// `self` to the power of `exponent`.
    fn powf(self, exponent: Self) -> Self;

    /// The logarithm of `self` to the base ten.
    fn log10(self) -> Self;

    /// `self < rhs`.
    fn lt(self, rhs: Self) -> bool;

    /// `self <= rhs`.
    fn le(self, rhs: Self) -> bool;

    /// `self > rhs`.
    fn gt(self, rhs: Self) -> bool;

    /// `self >= rhs`.
    fn ge(self, rhs: Self) -> bool;

    /// `self` and `rhs` are the same number.
    fn equals(self, rhs: Self) -> bool;

    /// `self` is neither infinite nor NaN.
    fn is_finite(self) -> bool;

    /// The sample nearest to the count `n`.
    fn from_usize(n: usize) -> Self;

    /// The integral part of `self` as a count: fractions are dropped, values
    /// out of range go to the nearest bound, NaN goes to zero.
    fn to_usize(self) -> usize;
}

/// Constants of a floating-point sample type.
pub trait FloatConst: Sized {
    /// The ratio of a circle's circumference to its diameter.
    fn pi() -> Self;

    /// The number two.
    fn two() -> Self;
}

/// `r` may come back from `T::zero()`.
#[verifier::inline]
pub open spec fn is_zero<T: Sample>(r: T) -> bool {
    call_ensures(T::zero, (), r)
}

/// `r` may come back from `T::one()`.
#[verifier::inline]
pub open spec fn is_one<T: Sample>(r: T) -> bool {
    call_ensures(T::one, (), r)
}

/// `r` may come back from `a.add(b)`.
#[verifier::inline]
pub open spec fn is_sum<T: Sample>(a: T, b: T, r: T) -> bool {
    call_ensures(T::add, (a, b), r)
}

/// `r` may come back from `a.sub(b)`.
#[verifier::inline]
pub open spec fn is_difference<T: Sample>(a: T, b: T, r: T) -> bool {
    call_ensures(T::sub, (a, b), r)
}

/// `r` may come back from `a.mul(b)`.
#[verifier::inline]
pub open spec fn is_product<T: Sample>(a: T, b: T, r: T) -> bool {
    call_ensures(T::mul, (a, b), r)
}

/// `r` may come back from `a.div(b)`.
#[verifier::inline]
pub open spec fn is_quotient<T: Sample>(a: T, b: T, r: T) -> bool {
    call_ensures(T::div, (a, b), r)
}

/// `r` may come back from `a.neg()`.
#[verifier::inline]
pub open spec fn is_negation<T: Sample>(a: T, r: T) -> bool {
    call_ensures(T::neg, (a,), r)
}

/// `r` may come back from `a.abs()`.
#[verifier::inline]
pub open spec fn is_abs<T: Sample>(a: T, r: T) -> bool {
    call_ensures(T::abs, (a,), r)
}

/// `r` may come back from `a.sqrt()`.
#[verifier::inline]
pub open spec fn is_sqrt<T: Sample>(a: T, r: T) -> bool {
    call_ensures(T::sqrt, (a,), r)
}

/// `r` may come back from `a.exp()`.
#[verifier::inline]
pub open spec fn is_exp<T: Sample>(a: T, r: T) -> bool {
    call_ensures(T::exp, (a,), r)
}

/// `r` may come back from `a.cos()`.
#[verifier::inline]
pub open spec fn is_cos<T: Sample>(a: T, r: T) -> bool {
    call_ensures(T::cos, (a,), r)
}

/// `r` may come back from `a.sin()`.
#[verifier::inline]
pub open spec fn is_sin<T: Sample>(a: T, r: T) -> bool {
    call_ensures(T::sin, (a,), r)
}

/// `r` may come back from `a.powf(exponent)`.
#[verifier::inline]
pub open spec fn is_power<T: Sample>(a: T, exponent: T, r: T) -> bool {
    call_ensures(T::powf, (a, exponent), r)
}

/// `r` may come back from `a.log10()`.
#[verifier::inline]
pub open spec fn is_log10<T: Sample>(a: T, r: T) -> bool {
    call_ensures(T::log10, (a,), r)
}

/// `a.lt(b)` may answer `r`.
#[verifier::inline]
pub open spec fn is_lt<T: Sample>(a: T, b: T, r: bool) -> bool {
    call_ensures(T::lt, (a, b), r)
}

/// `a.le(b)` may answer `r`.
#[verifier::inline]
pub open spec fn is_le<T: Sample>(a: T, b: T, r: bool) -> bool {
    call_ensures(T::le, (a, b), r)
}

/// `a.gt(b)` may answer `r`.
#[verifier::inline]
pub open spec fn is_gt<T: Sample>(a: T, b: T, r: bool) -> bool {
    call_ensures(T::gt, (a, b), r)
}

/// `a.ge(b)` may answer `r`.
#[verifier::inline]
pub open spec fn is_ge<T: Sample>(a: T, b: T, r: bool) -> bool {
    call_ensures(T::ge, (a, b), r)
}

/// `a.equals(b)` may answer `r`.
#[verifier::inline]
pub open spec fn is_equals<T: Sample>(a: T, b: T, r: bool) -> bool {
    call_ensures(T::equals, (a, b), r)
}

/// `a.is_finite()` may answer `r`.
#[verifier::inline]
pub open spec fn is_finite<T: Sample>(a: T, r: bool) -> bool {
    call_ensures(T::is_finite, (a,), r)
}

/// `r` may come back from `T::from_usize(n)`.
#[verifier::inline]
pub open spec fn is_from_usize<T: Sample>(n: usize, r: T) -> bool {
    call_ensures(T::from_usize, (n,), r)
}

/// `n` may come back from `a.to_usize()`.
#[verifier::inline]
pub open spec fn is_to_usize<T: Sample>(a: T, n: usize) -> bool {
    call_ensures(T::to_usize, (a,), n)
}

/// `r` may come back from `T::pi()`.
#[verifier::inline]
pub open spec fn is_pi<T: FloatConst>(r: T) -> bool {
    call_ensures(T::pi, (), r)
}

/// `r` may come back from `T::two()`.
#[verifier::inline]
pub open spec fn is_two<T: FloatConst>(r: T) -> bool {
    call_ensures(T::two, (), r)
}

/// `a` is found finite.
#[verifier::inline]
pub open spec fn finite<T: Sample>(a: T) -> bool {
    is_finite(a, true)
}

/// `a` is found to be the same number as `b`.
#[verifier::inline]
pub open spec fn same<T: Sample>(a: T, b: T) -> bool {
    is_equals(a, b, true)
}

/// `a` is found to be the same number as a zero.
pub open spec fn null<T: Sample>(a: T) -> bool {
    exists|zero: T| is_zero(zero) && same(a, zero)
}

/// The arithmetic of `T` treats one and zero as the numbers do, on what is
/// finite: a product with one is the same number as the other factor, a
/// product with zero is the same number as zero, and a sum or a difference
/// with what is the same number as zero is the same number as its other
/// part. Being the same number is sound on what is finite: a finite number
/// is the same number as itself, and what is the same number as a finite
/// one is finite.
///
/// Nothing of this follows from the trait `Sample`, which promises
/// nothing. It holds of IEEE 754 arithmetic with `equals` the comparison of
/// the standard, under which the two zeroes are the same number.
pub open spec fn obeys_identity_laws<T: Sample>() -> bool {
    &&& forall|one: T, x: T, r: T| is_one(one) && finite(x) && is_product(one, x, r) ==> same(r, x)
    &&& forall|zero: T, x: T, r: T| is_zero(zero) && finite(x) && is_product(zero, x, r) ==> null(r)
    &&& forall|p: T, q: T, x: T, r: T|
        same(p, x) && finite(x) && null(q) && is_sum(p, q, r) ==> same(r, x)
    &&& forall|p: T, q: T, x: T, r: T|
        same(p, x) && finite(x) && null(q) && is_difference(p, q, r) ==> same(r, x)
    &&& forall|a: T, b: T, r: T| null(a) && null(b) && is_sum(a, b, r) ==> null(r)
    &&& forall|a: T, b: T, r: T| null(a) && null(b) && is_difference(a, b, r) ==> null(r)
    &&& forall|a: T, x: T| same(a, x) && finite(x) ==> finite(a)
    &&& forall|x: T| finite(x) ==> same(x, x)
    &&& forall|zero: T| is_zero(zero) ==> finite(zero)
}

/// Under the identity laws, a zero and all that is the same number as a
/// zero are finite, and a zero is the same number as a zero.
pub proof fn lemma_null_is_finite<T: Sample>(a: T)
    requires
        obeys_identity_laws::<T>(),
    ensures
        null(a) ==> finite(a),
        is_zero(a) ==> null(a) && finite(a),
{
}

/// An audio processor: a unit that takes one sample and gives one sample,
/// and remembers what it has seen.
///
/// The view of a processor is its whole state. `processes` is the step it
/// takes on one sample, as a relation between the state before, the sample,
/// the state after and the output.
pub trait Processor<T: Sample>: View + Sized {
    /// From `before`, `sample` may lead to `after` and the output `out`.
    spec fn processes(before: Self::V, sample: T, after: Self::V, out: T) -> bool;

    /// `after` is `before` with its memory of earlier samples set to zero.
    spec fn clears(before: Self::V, after: Self::V) -> bool;

    /// The output most recently produced in `state`.
    spec fn last_out_spec(state: Self::V) -> T;

    /// Processes and stores the input sample and returns the output.
    fn process(&mut self, sample: T) -> (out: T)
        ensures
            Self::processes(old(self)@, sample, final(self)@, out),
    ;

    /// Processes a contiguous sequence of samples in place, as `process`
    /// would one after the other, and returns the last output.
    ///
    /// The states that `process` would pass through on the way exist: the
    /// first is the state before the call, the last the state after it.
    fn process_block(&mut self, samples: &mut [T]) -> (out: T)
        requires
            old(samples)@.len() > 0,
        ensures
            exists|states: Seq<Self::V>|
                {
                    &&& is_run(
                        |before: Self::V, sample: T, after: Self::V, out: T|
                            Self::processes(before, sample, after, out),
                        states,
                        old(samples)@,
                        final(samples)@,
                    )
                    &&& states.first() == old(self)@
                    &&& #[trigger] states.last() == final(self)@
                },
            out == final(samples)@.last(),
    {
        let ghost step = |before: Self::V, sample: T, after: Self::V, out: T|
            Self::processes(before, sample, after, out);
        let ghost input = samples@;
        let ghost mut states = seq![self@];
        let n = samples.len();
        let mut i: usize = 0;
        while i < n
            invariant
                samples@.len() == n,
                input.len() == n,
                i <= n,
                forall|before: Self::V, sample: T, after: Self::V, out: T| #[trigger]
                    step(before, sample, after, out) == Self::processes(before, sample, after, out),
                is_run(step, states, input.take(i as int), samples@.take(i as int)),
                states.first() == old(self)@,
                states.last() == self@,
                forall|j: int| i <= j < n ==> samples@[j] == input[j],
            decreases n - i,
        {
            let out = self.process(samples[i]);
            samples[i] = out;
            proof {
                states = states.push(self@);
            }
            i += 1;
        }
        proof {
            assert(input.take(n as int) =~= input);
            assert(samples@.take(n as int) =~= samples@);
        }
        samples[n - 1]
    }

    /// Resets the memory of all earlier input and output to zero.
    fn clear(&mut self)
        ensures
            Self::clears(old(self)@, final(self)@),
    ;

    /// Returns the last computed output sample.
    fn last_out(&self) -> (out: T)
        ensures
            out == Self::last_out_spec(self@),
    ;
}

/// A tappable delay line: one that can be read and written at any distance
/// behind its most recent input.
pub trait TappableDelayLine<T: Sample>: View + Sized {
    /// The sample `tap_delay` samples behind the most recent input of
    /// `state`.
    spec fn tap_out_spec(state: Self::V, tap_delay: int) -> T;

    /// The state that differs from `state` in holding `value` `tap_delay`
    /// samples behind the most recent input.
    spec fn tap_in_spec(state: Self::V, value: T, tap_delay: int) -> Self::V;

    /// Returns the value at `tap_delay` samples from the current delay-line
    /// input.
    fn tap_out(&self, tap_delay: usize) -> (out: T)
        ensures
            out == Self::tap_out_spec(self@, tap_delay as int),
    ;

    /// Sets the value at `tap_delay` samples from the current delay-line
    /// input.
    fn tap_in(&mut self, value: T, tap_delay: usize)
        ensures
            final(self)@ == Self::tap_in_spec(old(self)@, value, tap_delay as int),
    ;

    /// Adds to the value at `tap_delay` samples from the current delay-line
    /// input, and returns the sum.
    fn add_to(&mut self, value: T, tap_delay: usize) -> (sum: T)
        ensures
            is_sum(Self::tap_out_spec(old(self)@, tap_delay as int), value, sum),
            final(self)@ == Self::tap_in_spec(old(self)@, sum, tap_delay as int),
    ;
}

/// The older name of the same contract: `tick` advances a processor by one
/// sample, exactly as `process` does.
pub trait Filter<T: Sample>: Processor<T> {
    /// Processes and stores the input sample and returns the output.
    fn tick(&mut self, sample: T) -> (out: T)
        ensures
            Self::processes(old(self)@, sample, final(self)@, out),
    {
        self.process(sample)
    }
}

impl<T: Sample, P: Processor<T>> Filter<T> for P {

}

/// The samples `inputs` may go one by one through `step` and leave the
/// outputs `outputs`, one for each input, with `states` the states passed
/// on the way: `states[i]` before the sample `inputs[i]` and `states[i + 1]`
/// after it.
pub open spec fn is_run<V, T>(
    step: spec_fn(V, T, V, T) -> bool,
    states: Seq<V>,
    inputs: Seq<T>,
    outputs: Seq<T>,
) -> bool {
    &&& states.len() == inputs.len() + 1
    &&& outputs.len() == inputs.len()
    &&& forall|i: int|
        0 <= i < inputs.len() ==> step(#[trigger] states[i], inputs[i], states[i + 1], outputs[i])
}

/// A run on finite input gives back its input, sample for sample, where
/// every step does: if the property `holds` of the first state, and every
/// step from a state of which it holds on a finite sample gives back that
/// sample and leads to a state of which it holds again, then every output
/// of the run is the same number as its input, and `holds` holds of every
/// state on the way.
pub proof fn lemma_run_gives_back_input<V, T: Sample>(
    step: spec_fn(V, T, V, T) -> bool,
    holds: spec_fn(V) -> bool,
    states: Seq<V>,
    inputs: Seq<T>,
    outputs: Seq<T>,
)
    requires
        is_run(step, states, inputs, outputs),
        holds(states[0]),
        forall|i: int| 0 <= i < inputs.len() ==> finite(#[trigger] inputs[i]),
        forall|before: V, sample: T, after: V, out: T|
            holds(before) && finite(sample) && #[trigger] step(before, sample, after, out)
                ==> holds(after) && same(out, sample),
    ensures
        forall|i: int| 0 <= i < inputs.len() ==> same(#[trigger] outputs[i], inputs[i]),
        forall|i: int| 0 <= i <= inputs.len() ==> holds(#[trigger] states[i]),
{
    assert forall|i: int| 0 <= i <= inputs.len() implies holds(#[trigger] states[i]) by {
        lemma_run_holds_up_to(step, holds, states, inputs, outputs, i);
    }
    assert forall|i: int| 0 <= i < inputs.len() implies same(#[trigger] outputs[i], inputs[i]) by {
        assert(holds(states[i]));
        assert(step(states[i], inputs[i], states[i + 1], outputs[i]));
    }
}

/// In such a run the property holds of the state `states[upto]`.
proof fn lemma_run_holds_up_to<V, T: Sample>(
    step: spec_fn(V, T, V, T) -> bool,
    holds: spec_fn(V) -> bool,
    states: Seq<V>,
    inputs: Seq<T>,
    outputs: Seq<T>,
    upto: int,
)
    requires
        is_run(step, states, inputs, outputs),
        holds(states[0]),
        forall|i: int| 0 <= i < inputs.len() ==> finite(#[trigger] inputs[i]),
        forall|before: V, sample: T, after: V, out: T|
            holds(before) && finite(sample) && #[trigger] step(before, sample, after, out)
                ==> holds(after) && same(out, sample),
        0 <= upto <= inputs.len(),
    ensures
        holds(states[upto]),
    decreases upto,
{
    if upto > 0 {
        lemma_run_holds_up_to(step, holds, states, inputs, outputs, upto - 1);
        assert(step(states[upto - 1], inputs[upto - 1], states[upto], outputs[upto - 1]));
    }
}

} // verus!
