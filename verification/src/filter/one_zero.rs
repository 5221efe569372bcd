use vstd::prelude::*;
use crate::traits::{
    finite,
    is_run,
    lemma_run_gives_back_input,
    is_one,
    is_product,
    is_sum,
    is_zero,
    lemma_null_is_finite,
    obeys_identity_laws,
    same,
    Processor,
    Sample,
};

verus! {

/// A single channel, one zero digital filter.
///
/// It follows `y[n] = b0*x[n] + b1*x[n-1]`, with one feedforward
/// coefficient, `b1`.
pub struct OneZero<T> {
    x_z1: T,
    output: T,
    pub b0: T,
    pub b1: T,
}

/// The state of a `OneZero`: its delayed input, its last output and its
/// coefficients.
pub struct OneZeroState<T> {
    pub x_z1: T,
    pub output: T,
    pub b0: T,
    pub b1: T,
}

impl<T> View for OneZero<T> {
    type V = OneZeroState<T>;

    closed spec fn view(&self) -> OneZeroState<T> {
        OneZeroState { x_z1: self.x_z1, output: self.output, b0: self.b0, b1: self.b1 }
    }
}

impl<T: Sample> OneZeroState<T> {
    /// The memory holds zero.
    pub open spec fn is_clear(self) -> bool {
        is_zero(self.x_z1)
    }

    /// The coefficients are those of the identity: `b0` is one and `b1` is
    /// zero.
    pub open spec fn is_neutral(self) -> bool {
        is_one(self.b0) && is_zero(self.b1)
    }

    /// `out` may be the output for `sample`: `b0*sample + b1*x_z1`.
    pub open spec fn is_output(self, sample: T, out: T) -> bool {
        exists|fresh: T, once: T|
            {
                &&& is_product(self.b0, sample, fresh)
                &&& is_product(self.b1, self.x_z1, once)
                &&& is_sum(fresh, once, out)
            }
    }
}

impl<T: Sample> OneZeroState<T> {
    /// The memory holds a finite number.
    pub open spec fn is_settled(self) -> bool {
        finite(self.x_z1)
    }
}

/// A filter with the coefficients of the identity gives back its input:
/// under the identity laws, from a state with these coefficients and a
/// finite memory, a finite sample comes out as the same number, and the
/// state after is such a state again. A filter that is new or was cleared
/// is in such a state.
pub proof fn lemma_neutral_gives_back_input<T: Sample>(
    before: OneZeroState<T>,
    sample: T,
    after: OneZeroState<T>,
    out: T,
)
    requires
        obeys_identity_laws::<T>(),
        before.is_neutral(),
        before.is_settled() || before.is_clear(),
        finite(sample),
        OneZero::<T>::processes(before, sample, after, out),
    ensures
        same(out, sample),
        after.is_neutral(),
        after.is_settled(),
{
    lemma_null_is_finite(before.x_z1);
}

/// A filter with the coefficients of the identity gives back a whole
/// block: under the identity laws, a run of `process` on finite samples,
/// from a state with these coefficients and a finite memory, gives outputs
/// that are the same numbers as its inputs.
pub proof fn lemma_neutral_gives_back_block<T: Sample>(
    states: Seq<OneZeroState<T>>,
    inputs: Seq<T>,
    outputs: Seq<T>,
)
    requires
        obeys_identity_laws::<T>(),
        is_run(
            |before: OneZeroState<T>, sample: T, after: OneZeroState<T>, out: T|
                OneZero::<T>::processes(before, sample, after, out),
            states,
            inputs,
            outputs,
        ),
        states[0].is_neutral(),
        states[0].is_settled() || states[0].is_clear(),
        forall|i: int| 0 <= i < inputs.len() ==> finite(#[trigger] inputs[i]),
    ensures
        forall|i: int| 0 <= i < inputs.len() ==> same(#[trigger] outputs[i], inputs[i]),
{
    let step = |before: OneZeroState<T>, sample: T, after: OneZeroState<T>, out: T|
        OneZero::<T>::processes(before, sample, after, out);
    let holds = |state: OneZeroState<T>|
        state.is_neutral() && (state.is_settled() || state.is_clear());
    assert forall|before: OneZeroState<T>, sample: T, after: OneZeroState<T>, out: T|
        holds(before) && finite(sample) && #[trigger] step(
            before,
            sample,
            after,
            out,
        ) implies holds(after) && same(out, sample) by {
        lemma_neutral_gives_back_input(before, sample, after, out);
    }
    lemma_run_gives_back_input(step, holds, states, inputs, outputs);
}

impl<T: Sample> OneZero<T> {
    /// Creates a filter that does not alter its input.
    pub fn new() -> (filter: Self)
        ensures
            filter@.is_neutral(),
            filter@.is_clear(),
            is_zero(filter@.output),
    {
        OneZero { x_z1: T::zero(), output: T::zero(), b0: T::one(), b1: T::zero() }
    }

    /// Sets all filter coefficients at once; `b1` is the feedforward, or
    /// zero. The memory of the filter is left as it is.
    pub fn set_coefficients(&mut self, b0: T, b1: T)
        ensures
            final(self)@ == (OneZeroState { b0: b0, b1: b1, ..old(self)@ }),
    {
        self.b0 = b0;
        self.b1 = b1;
    }
}

impl<T: Sample> Processor<T> for OneZero<T> {
    open spec fn processes(
        before: OneZeroState<T>,
        sample: T,
        after: OneZeroState<T>,
        out: T,
    ) -> bool {
        before.is_output(sample, out) && after == (OneZeroState {
            x_z1: sample,
            output: out,
            ..before
        })
    }

    /// Only the delayed input is zeroed: the filter has no feedback, and the
    /// last output stays readable.
    open spec fn clears(before: OneZeroState<T>, after: OneZeroState<T>) -> bool {
        after.is_clear() && after == (OneZeroState { x_z1: after.x_z1, ..before })
    }

    open spec fn last_out_spec(state: OneZeroState<T>) -> T {
        state.output
    }

    fn process(&mut self, sample: T) -> (out: T) {
        self.output = self.b0.mul(sample).add(self.b1.mul(self.x_z1));
        self.x_z1 = sample;
        self.output
    }

    fn clear(&mut self) {
        self.x_z1 = T::zero();
    }

    fn last_out(&self) -> (out: T) {
        self.output
    }
}

} // verus!
