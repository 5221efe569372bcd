use vstd::prelude::*;
use crate::traits::{
    finite,
    is_run,
    lemma_run_gives_back_input,
    is_one,
    is_product,
    is_sum,
    is_zero,
    lemma_null_is_finite,
    obeys_identity_laws,
    same,
    Processor,
    Sample,
};

verus! {

/// A single channel, two zero digital filter.
///
/// It follows `y[n] = b0*x[n] + b1*x[n-1] + b2*x[n-2]`, with two
/// feedforward coefficients, `b1` and `b2`.
pub struct TwoZero<T> {
    x_z1: T,
    x_z2: T,
    output: T,
    pub b0: T,
    pub b1: T,
    pub b2: T,
}

/// The state of a `TwoZero`: two delayed inputs, the last output and the
/// coefficients.
pub struct TwoZeroState<T> {
    pub x_z1: T,
    pub x_z2: T,
    pub output: T,
    pub b0: T,
    pub b1: T,
    pub b2: T,
}

impl<T> View for TwoZero<T> {
    type V = TwoZeroState<T>;

    closed spec fn view(&self) -> TwoZeroState<T> {
        TwoZeroState {
            x_z1: self.x_z1,
            x_z2: self.x_z2,
            output: self.output,
            b0: self.b0,
            b1: self.b1,
            b2: self.b2,
        }
    }
}

impl<T: Sample> TwoZeroState<T> {
    /// The memory holds zeroes only.
    pub open spec fn is_clear(self) -> bool {
        is_zero(self.x_z1) && is_zero(self.x_z2)
    }

    /// The coefficients are those of the identity: `b0` is one and the
    /// others are zero.
    pub open spec fn is_neutral(self) -> bool {
        is_one(self.b0) && is_zero(self.b1) && is_zero(self.b2)
    }

    /// `out` may be the output for `sample`:
    /// `b0*sample + b1*x_z1 + b2*x_z2`.
    pub open spec fn is_output(self, sample: T, out: T) -> bool {
        exists|fresh: T, once: T, twice: T, early: T|
            {
                &&& is_product(self.b0, sample, fresh)
                &&& is_product(self.b1, self.x_z1, once)
                &&& is_sum(fresh, once, early)
                &&& is_product(self.b2, self.x_z2, twice)
                &&& is_sum(early, twice, out)
            }
    }
}

impl<T: Sample> TwoZeroState<T> {
    /// The memory holds finite numbers.
    pub open spec fn is_settled(self) -> bool {
        finite(self.x_z1) && finite(self.x_z2)
    }
}

/// A filter with the coefficients of the identity gives back its input:
/// under the identity laws, from a state with these coefficients and a
/// finite memory, a finite sample comes out as the same number, and the
/// state after is such a state again. A filter that is new or was cleared
/// is in such a state.
pub proof fn lemma_neutral_gives_back_input<T: Sample>(
    before: TwoZeroState<T>,
    sample: T,
    after: TwoZeroState<T>,
    out: T,
)
    requires
        obeys_identity_laws::<T>(),
        before.is_neutral(),
        before.is_settled() || before.is_clear(),
        finite(sample),
        TwoZero::<T>::processes(before, sample, after, out),
    ensures
        same(out, sample),
        after.is_neutral(),
        after.is_settled(),
{
    lemma_null_is_finite(before.x_z1);
    lemma_null_is_finite(before.x_z2);
}

/// A filter with the coefficients of the identity gives back a whole
/// block: under the identity laws, a run of `process` on finite samples,
/// from a state with these coefficients and a finite memory, gives outputs
/// that are the same numbers as its inputs.
pub proof fn lemma_neutral_gives_back_block<T: Sample>(
    states: Seq<TwoZeroState<T>>,
    inputs: Seq<T>,
    outputs: Seq<T>,
)
    requires
        obeys_identity_laws::<T>(),
        is_run(
            |before: TwoZeroState<T>, sample: T, after: TwoZeroState<T>, out: T|
                TwoZero::<T>::processes(before, sample, after, out),
            states,
            inputs,
            outputs,
        ),
        states[0].is_neutral(),
        states[0].is_settled() || states[0].is_clear(),
        forall|i: int| 0 <= i < inputs.len() ==> finite(#[trigger] inputs[i]),
    ensures
        forall|i: int| 0 <= i < inputs.len() ==> same(#[trigger] outputs[i], inputs[i]),
{
    let step = |before: TwoZeroState<T>, sample: T, after: TwoZeroState<T>, out: T|
        TwoZero::<T>::processes(before, sample, after, out);
    let holds = |state: TwoZeroState<T>|
        state.is_neutral() && (state.is_settled() || state.is_clear());
    assert forall|before: TwoZeroState<T>, sample: T, after: TwoZeroState<T>, out: T|
        holds(before) && finite(sample) && #[trigger] step(
            before,
            sample,
            after,
            out,
        ) implies holds(after) && same(out, sample) by {
        lemma_neutral_gives_back_input(before, sample, after, out);
    }
    lemma_run_gives_back_input(step, holds, states, inputs, outputs);
}

impl<T: Sample> TwoZero<T> {
    /// Creates a filter that does not alter its input.
    pub fn new() -> (filter: Self)
        ensures
            filter@.is_neutral(),
            filter@.is_clear(),
            is_zero(filter@.output),
    {
        TwoZero {
            x_z1: T::zero(),
            x_z2: T::zero(),
            output: T::zero(),
            b0: T::one(),
            b1: T::zero(),
            b2: T::zero(),
        }
    }

    /// Sets all filter coefficients at once; `b1` and `b2` are the
    /// feedforwards, or zeroes. The memory of the filter is left as it is.
    pub fn set_coefficients(&mut self, b0: T, b1: T, b2: T)
        ensures
            final(self)@ == (TwoZeroState { b0: b0, b1: b1, b2: b2, ..old(self)@ }),
    {
        self.b0 = b0;
        self.b1 = b1;
        self.b2 = b2;
    }
}

impl<T: Sample> Processor<T> for TwoZero<T> {
    open spec fn processes(
        before: TwoZeroState<T>,
        sample: T,
        after: TwoZeroState<T>,
        out: T,
    ) -> bool {
        before.is_output(sample, out) && after == (TwoZeroState {
            x_z1: sample,
            x_z2: before.x_z1,
            output: out,
            ..before
        })
    }

    /// Only the delayed inputs are zeroed: the filter has no feedback, and
    /// the last output stays readable.
    open spec fn clears(before: TwoZeroState<T>, after: TwoZeroState<T>) -> bool {
        after.is_clear() && after == (TwoZeroState {
            x_z1: after.x_z1,
            x_z2: after.x_z2,
            ..before
        })
    }

    open spec fn last_out_spec(state: TwoZeroState<T>) -> T {
        state.output
    }

    fn process(&mut self, sample: T) -> (out: T) {
        self.output = self.b0.mul(sample).add(self.b1.mul(self.x_z1)).add(
            self.b2.mul(self.x_z2),
        );
        self.x_z2 = self.x_z1;
        self.x_z1 = sample;
        self.output
    }

    fn clear(&mut self) {
        self.x_z1 = T::zero();
        self.x_z2 = T::zero();
    }

    fn last_out(&self) -> (out: T) {
        self.output
    }
}

} // verus!
