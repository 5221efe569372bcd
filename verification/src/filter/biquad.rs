//! A biquad is a second-order recursive filter.

use vstd::prelude::*;
use crate::traits::{
    finite,
    is_difference,
    is_one,
    is_product,
    is_run,
    is_sum,
    is_zero,
    lemma_null_is_finite,
    lemma_run_gives_back_input,
    null,
    obeys_identity_laws,
    same,
    Processor,
    Sample,
};

verus! {

/// A biquad filter in direct form 1.
///
/// It follows
/// `y[n] = b0*x[n] + b1*x[n-1] + b2*x[n-2] - a1*y[n-1] - a2*y[n-2]`,
/// with two feedforward coefficients, `b1` and `b2`, and two feedback
/// coefficients, `a1` and `a2`.
pub struct Biquad1<T> {
    x_z1: T,
    x_z2: T,
    y_z1: T,
    y_z2: T,
    pub b0: T,
    pub b1: T,
    pub b2: T,
    pub a1: T,
    pub a2: T,
}

/// The state of a `Biquad1`: two delayed inputs, two delayed outputs and the
/// coefficients.
pub struct Biquad1State<T> {
    pub x_z1: T,
    pub x_z2: T,
    pub y_z1: T,
    pub y_z2: T,
    pub b0: T,
    pub b1: T,
    pub b2: T,
    pub a1: T,
    pub a2: T,
}

impl<T> View for Biquad1<T> {
    type V = Biquad1State<T>;

    closed spec fn view(&self) -> Biquad1State<T> {
        Biquad1State {
            x_z1: self.x_z1,
            x_z2: self.x_z2,
            y_z1: self.y_z1,
            y_z2: self.y_z2,
            b0: self.b0,
            b1: self.b1,
            b2: self.b2,
            a1: self.a1,
            a2: self.a2,
        }
    }
}

impl<T: Sample> Biquad1State<T> {
    /// The memory holds zeroes only.
    pub open spec fn is_clear(self) -> bool {
        is_zero(self.x_z1) && is_zero(self.x_z2) && is_zero(self.y_z1) && is_zero(self.y_z2)
    }

    /// The coefficients are those of the identity: `b0` is one and the
    /// others are zero.
    pub open spec fn is_neutral(self) -> bool {
        is_one(self.b0) && is_zero(self.b1) && is_zero(self.b2) && is_zero(self.a1) && is_zero(
            self.a2,
        )
    }

    /// The coefficients are `b0`, `b1`, `b2`, `a1`, `a2`.
    pub open spec fn has_coefficients(self, b0: T, b1: T, b2: T, a1: T, a2: T) -> bool {
        self.b0 == b0 && self.b1 == b1 && self.b2 == b2 && self.a1 == a1 && self.a2 == a2
    }

    /// `other` has the same coefficients.
    pub open spec fn same_coefficients(self, other: Self) -> bool {
        other.has_coefficients(self.b0, self.b1, self.b2, self.a1, self.a2)
    }

    /// `out` may be the output for `sample`: the direct form 1 difference
    /// equation, summed from left to right.
    pub open spec fn is_output(self, sample: T, out: T) -> bool {
        exists|
            fresh: T,
            once: T,
            twice: T,
            back_once: T,
            back_twice: T,
            early: T,
            forward: T,
            eased: T,
        |
            {
                &&& is_product(self.b0, sample, fresh)
                &&& is_product(self.b1, self.x_z1, once)
                &&& is_sum(fresh, once, early)
                &&& is_product(self.b2, self.x_z2, twice)
                &&& is_sum(early, twice, forward)
                &&& is_product(self.a1, self.y_z1, back_once)
                &&& is_difference(forward, back_once, eased)
                &&& is_product(self.a2, self.y_z2, back_twice)
                &&& is_difference(eased, back_twice, out)
            }
    }
}

impl<T: Sample> Biquad1State<T> {
    /// The memory holds finite numbers.
    pub open spec fn is_settled(self) -> bool {
        finite(self.x_z1) && finite(self.x_z2) && finite(self.y_z1) && finite(self.y_z2)
    }
}

/// A direct form 1 biquad with the coefficients of the identity gives back
/// its input: under the identity laws, from a state with these coefficients
/// and a finite memory, a finite sample comes out as the same number, and
/// the state after is such a state again. A filter that is new or was
/// cleared is in such a state.
pub proof fn lemma_neutral_gives_back_input<T: Sample>(
    before: Biquad1State<T>,
    sample: T,
    after: Biquad1State<T>,
    out: T,
)
    requires
        obeys_identity_laws::<T>(),
        before.is_neutral(),
        before.is_settled() || before.is_clear(),
        finite(sample),
        Biquad1::<T>::processes(before, sample, after, out),
    ensures
        same(out, sample),
        after.is_neutral(),
        after.is_settled(),
{
    lemma_null_is_finite(before.x_z1);
    lemma_null_is_finite(before.x_z2);
    lemma_null_is_finite(before.y_z1);
    lemma_null_is_finite(before.y_z2);
}

/// A direct form 1 biquad with the coefficients of the identity gives back
/// a whole block: under the identity laws, a run of `process` on finite
/// samples, from a state with these coefficients and a finite memory,
/// gives outputs that are the same numbers as its inputs.
pub proof fn lemma_neutral_gives_back_block<T: Sample>(
    states: Seq<Biquad1State<T>>,
    inputs: Seq<T>,
    outputs: Seq<T>,
)
    requires
        obeys_identity_laws::<T>(),
        is_run(
            |before: Biquad1State<T>, sample: T, after: Biquad1State<T>, out: T|
                Biquad1::<T>::processes(before, sample, after, out),
            states,
            inputs,
            outputs,
        ),
        states[0].is_neutral(),
        states[0].is_settled() || states[0].is_clear(),
        forall|i: int| 0 <= i < inputs.len() ==> finite(#[trigger] inputs[i]),
    ensures
        forall|i: int| 0 <= i < inputs.len() ==> same(#[trigger] outputs[i], inputs[i]),
{
    let step = |before: Biquad1State<T>, sample: T, after: Biquad1State<T>, out: T|
        Biquad1::<T>::processes(before, sample, after, out);
    let holds = |state: Biquad1State<T>|
        state.is_neutral() && (state.is_settled() || state.is_clear());
    assert forall|before: Biquad1State<T>, sample: T, after: Biquad1State<T>, out: T|
        holds(before) && finite(sample) && #[trigger] step(
            before,
            sample,
            after,
            out,
        ) implies holds(after) && same(out, sample) by {
        lemma_neutral_gives_back_input(before, sample, after, out);
    }
    lemma_run_gives_back_input(step, holds, states, inputs, outputs);
}

impl<T: Sample> Biquad1<T> {
    /// Creates a filter that does not alter its input.
    pub fn new() -> (filter: Self)
        ensures
            filter@.is_neutral(),
            filter@.is_clear(),
    {
        Biquad1 {
            x_z1: T::zero(),
            x_z2: T::zero(),
            y_z1: T::zero(),
            y_z2: T::zero(),
            b0: T::one(),
            b1: T::zero(),
            b2: T::zero(),
            a1: T::zero(),
            a2: T::zero(),
        }
    }

    /// Sets all filter coefficients at once.
    ///
    /// `b1`, `b2` are feedforwards, or zeroes, and `a1`, `a2` are feedbacks,
    /// or poles. The memory of the filter is left as it is.
    pub fn set_coefficients(&mut self, b0: T, b1: T, b2: T, a1: T, a2: T)
        ensures
            final(self)@ == (Biquad1State { b0: b0, b1: b1, b2: b2, a1: a1, a2: a2, ..old(self)@ }),
    {
        self.b0 = b0;
        self.b1 = b1;
        self.b2 = b2;
        self.a1 = a1;
        self.a2 = a2;
    }
}

impl<T: Sample> Processor<T> for Biquad1<T> {
    open spec fn processes(
        before: Biquad1State<T>,
        sample: T,
        after: Biquad1State<T>,
        out: T,
    ) -> bool {
        &&& before.is_output(sample, out)
        &&& after == (Biquad1State {
            x_z1: sample,
            x_z2: before.x_z1,
            y_z1: out,
            y_z2: before.y_z1,
            ..before
        })
    }

    open spec fn clears(before: Biquad1State<T>, after: Biquad1State<T>) -> bool {
        after.is_clear() && before.same_coefficients(after)
    }

    open spec fn last_out_spec(state: Biquad1State<T>) -> T {
        state.y_z1
    }

    fn process(&mut self, sample: T) -> (out: T) {
        let output = self.b0.mul(sample).add(self.b1.mul(self.x_z1)).add(
            self.b2.mul(self.x_z2),
        ).sub(self.a1.mul(self.y_z1)).sub(self.a2.mul(self.y_z2));
        self.x_z2 = self.x_z1;
        self.x_z1 = sample;
        self.y_z2 = self.y_z1;
        self.y_z1 = output;
        output
    }

    fn clear(&mut self) {
        self.x_z1 = T::zero();
        self.x_z2 = T::zero();
        self.y_z1 = T::zero();
        self.y_z2 = T::zero();
    }

    fn last_out(&self) -> (out: T) {
        self.y_z1
    }
}

/// A biquad filter in transposed direct form 2.
///
/// It follows `y[n] = b0*x[n] + w1[n-1]`, `w1[n] = b1*x[n] + w2[n-1] -
/// a1*y[n]`, `w2[n] = b2*x[n] - a2*y[n]`: the same transfer function as
/// direct form 1, with two accumulators in place of four delayed samples.
pub struct Biquad2<T> {
    z1: T,
    z2: T,
    output: T,
    pub b0: T,
    pub b1: T,
    pub b2: T,
    pub a1: T,
    pub a2: T,
}

/// The state of a `Biquad2`: two accumulators, the last output and the
/// coefficients.
pub struct Biquad2State<T> {
    pub z1: T,
    pub z2: T,
    pub output: T,
    pub b0: T,
    pub b1: T,
    pub b2: T,
    pub a1: T,
    pub a2: T,
}

impl<T> View for Biquad2<T> {
    type V = Biquad2State<T>;

    closed spec fn view(&self) -> Biquad2State<T> {
        Biquad2State {
            z1: self.z1,
            z2: self.z2,
            output: self.output,
            b0: self.b0,
            b1: self.b1,
            b2: self.b2,
            a1: self.a1,
            a2: self.a2,
        }
    }
}

impl<T: Sample> Biquad2State<T> {
    /// The memory holds zeroes only.
    pub open spec fn is_clear(self) -> bool {
        is_zero(self.z1) && is_zero(self.z2) && is_zero(self.output)
    }

    /// The coefficients are those of the identity: `b0` is one and the
    /// others are zero.
    pub open spec fn is_neutral(self) -> bool {
        is_one(self.b0) && is_zero(self.b1) && is_zero(self.b2) && is_zero(self.a1) && is_zero(
            self.a2,
        )
    }

    /// The coefficients are `b0`, `b1`, `b2`, `a1`, `a2`.
    pub open spec fn has_coefficients(self, b0: T, b1: T, b2: T, a1: T, a2: T) -> bool {
        self.b0 == b0 && self.b1 == b1 && self.b2 == b2 && self.a1 == a1 && self.a2 == a2
    }

    /// `other` has the same coefficients.
    pub open spec fn same_coefficients(self, other: Self) -> bool {
        other.has_coefficients(self.b0, self.b1, self.b2, self.a1, self.a2)
    }

    /// `out` may be the output for `sample`: `b0*sample + z1`.
    pub open spec fn is_output(self, sample: T, out: T) -> bool {
        exists|fresh: T| is_product(self.b0, sample, fresh) && is_sum(fresh, self.z1, out)
    }

    /// `z1` may be the first accumulator after `sample` gave `out`:
    /// `b1*sample + z2 - a1*out`.
    pub open spec fn is_next_z1(self, sample: T, out: T, z1: T) -> bool {
        exists|forward: T, carried: T, back: T|
            {
                &&& is_product(self.b1, sample, forward)
                &&& is_sum(forward, self.z2, carried)
                &&& is_product(self.a1, out, back)
                &&& is_difference(carried, back, z1)
            }
    }

    /// `z2` may be the second accumulator after `sample` gave `out`:
    /// `b2*sample - a2*out`.
    pub open spec fn is_next_z2(self, sample: T, out: T, z2: T) -> bool {
        exists|forward: T, back: T|
            {
                &&& is_product(self.b2, sample, forward)
                &&& is_product(self.a2, out, back)
                &&& is_difference(forward, back, z2)
            }
    }
}

impl<T: Sample> Biquad2State<T> {
    /// Both accumulators hold what is the same number as zero.
    pub open spec fn is_settled(self) -> bool {
        null(self.z1) && null(self.z2)
    }
}

/// A transposed direct form 2 biquad with the coefficients of the identity
/// gives back its input: under the identity laws, from a state with these
/// coefficients whose accumulators are the same number as zero, a finite
/// sample comes out as the same number, and the state after is such a state
/// again. A filter that is new or was cleared is in such a state.
pub proof fn lemma_neutral_gives_back_input_form2<T: Sample>(
    before: Biquad2State<T>,
    sample: T,
    after: Biquad2State<T>,
    out: T,
)
    requires
        obeys_identity_laws::<T>(),
        before.is_neutral(),
        before.is_settled() || before.is_clear(),
        finite(sample),
        Biquad2::<T>::processes(before, sample, after, out),
    ensures
        same(out, sample),
        after.is_neutral(),
        after.is_settled(),
{
    lemma_null_is_finite(before.z1);
    lemma_null_is_finite(before.z2);
}

/// A transposed direct form 2 biquad with the coefficients of the identity
/// gives back a whole block: under the identity laws, a run of `process`
/// on finite samples, from a state with these coefficients whose
/// accumulators are the same number as zero, gives outputs that are the
/// same numbers as its inputs.
pub proof fn lemma_neutral_gives_back_block_form2<T: Sample>(
    states: Seq<Biquad2State<T>>,
    inputs: Seq<T>,
    outputs: Seq<T>,
)
    requires
        obeys_identity_laws::<T>(),
        is_run(
            |before: Biquad2State<T>, sample: T, after: Biquad2State<T>, out: T|
                Biquad2::<T>::processes(before, sample, after, out),
            states,
            inputs,
            outputs,
        ),
        states[0].is_neutral(),
        states[0].is_settled() || states[0].is_clear(),
        forall|i: int| 0 <= i < inputs.len() ==> finite(#[trigger] inputs[i]),
    ensures
        forall|i: int| 0 <= i < inputs.len() ==> same(#[trigger] outputs[i], inputs[i]),
{
    let step = |before: Biquad2State<T>, sample: T, after: Biquad2State<T>, out: T|
        Biquad2::<T>::processes(before, sample, after, out);
    let holds = |state: Biquad2State<T>|
        state.is_neutral() && (state.is_settled() || state.is_clear());
    assert forall|before: Biquad2State<T>, sample: T, after: Biquad2State<T>, out: T|
        holds(before) && finite(sample) && #[trigger] step(
            before,
            sample,
            after,
            out,
        ) implies holds(after) && same(out, sample) by {
        lemma_neutral_gives_back_input_form2(before, sample, after, out);
    }
    lemma_run_gives_back_input(step, holds, states, inputs, outputs);
}

impl<T: Sample> Biquad2<T> {
    /// Creates a filter that does not alter its input.
    pub fn new() -> (filter: Self)
        ensures
            filter@.is_neutral(),
            filter@.is_clear(),
    {
        Biquad2 {
            z1: T::zero(),
            z2: T::zero(),
            output: T::zero(),
            b0: T::one(),
            b1: T::zero(),
            b2: T::zero(),
            a1: T::zero(),
            a2: T::zero(),
        }
    }

    /// Sets all filter coefficients at once.
    ///
    /// `b1`, `b2` are feedforwards, or zeroes, and `a1`, `a2` are feedbacks,
    /// or poles. The memory of the filter is left as it is.
    pub fn set_coefficients(&mut self, b0: T, b1: T, b2: T, a1: T, a2: T)
        ensures
            final(self)@ == (Biquad2State { b0: b0, b1: b1, b2: b2, a1: a1, a2: a2, ..old(self)@ }),
    {
        self.b0 = b0;
        self.b1 = b1;
        self.b2 = b2;
        self.a1 = a1;
        self.a2 = a2;
    }
}

impl<T: Sample> Processor<T> for Biquad2<T> {
    open spec fn processes(
        before: Biquad2State<T>,
        sample: T,
        after: Biquad2State<T>,
        out: T,
    ) -> bool {
        &&& before.is_output(sample, out)
        &&& before.is_next_z1(sample, out, after.z1)
        &&& before.is_next_z2(sample, out, after.z2)
        &&& after == (Biquad2State { z1: after.z1, z2: after.z2, output: out, ..before })
    }

    open spec fn clears(before: Biquad2State<T>, after: Biquad2State<T>) -> bool {
        after.is_clear() && before.same_coefficients(after)
    }

    open spec fn last_out_spec(state: Biquad2State<T>) -> T {
        state.output
    }

    fn process(&mut self, sample: T) -> (out: T) {
        self.output = self.b0.mul(sample).add(self.z1);
        self.z1 = self.b1.mul(sample).add(self.z2).sub(self.a1.mul(self.output));
        self.z2 = self.b2.mul(sample).sub(self.a2.mul(self.output));
        self.output
    }

    fn clear(&mut self) {
        self.z1 = T::zero();
        self.z2 = T::zero();
        self.output = T::zero();
    }

    fn last_out(&self) -> (out: T) {
        self.output
    }
}

} // verus!
