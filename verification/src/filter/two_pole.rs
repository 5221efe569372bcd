use vstd::prelude::*;
use crate::traits::{
    finite,
    is_run,
    lemma_run_gives_back_input,
    is_difference,
    is_one,
    is_product,
    is_zero,
    lemma_null_is_finite,
    obeys_identity_laws,
    same,
    Processor,
    Sample,
};

verus! {

/// A single channel, two pole digital filter.
///
/// It follows `y[n] = b0*x[n] - a1*y[n-1] - a2*y[n-2]`, with two feedback
/// coefficients, `a1` and `a2`.
pub struct TwoPole<T> {
    y_z1: T,
    y_z2: T,
    pub b0: T,
    pub a1: T,
    pub a2: T,
}

/// The state of a `TwoPole`: two delayed outputs and the coefficients.
pub struct TwoPoleState<T> {
    pub y_z1: T,
    pub y_z2: T,
    pub b0: T,
    pub a1: T,
    pub a2: T,
}

impl<T> View for TwoPole<T> {
    type V = TwoPoleState<T>;

    closed spec fn view(&self) -> TwoPoleState<T> {
        TwoPoleState { y_z1: self.y_z1, y_z2: self.y_z2, b0: self.b0, a1: self.a1, a2: self.a2 }
    }
}

impl<T: Sample> TwoPoleState<T> {
    /// The memory holds zeroes only.
    pub open spec fn is_clear(self) -> bool {
        is_zero(self.y_z1) && is_zero(self.y_z2)
    }

    /// The coefficients are those of the identity: `b0` is one and the
    /// others are zero.
    pub open spec fn is_neutral(self) -> bool {
        is_one(self.b0) && is_zero(self.a1) && is_zero(self.a2)
    }

    /// `out` may be the output for `sample`:
    /// `b0*sample - a1*y_z1 - a2*y_z2`.
    pub open spec fn is_output(self, sample: T, out: T) -> bool {
        exists|fresh: T, back_once: T, back_twice: T, eased: T|
            {
                &&& is_product(self.b0, sample, fresh)
                &&& is_product(self.a1, self.y_z1, back_once)
                &&& is_difference(fresh, back_once, eased)
                &&& is_product(self.a2, self.y_z2, back_twice)
                &&& is_difference(eased, back_twice, out)
            }
    }
}

impl<T: Sample> TwoPoleState<T> {
    /// The memory holds finite numbers.
    pub open spec fn is_settled(self) -> bool {
        finite(self.y_z1) && finite(self.y_z2)
    }
}

/// A filter with the coefficients of the identity gives back its input:
/// under the identity laws, from a state with these coefficients and a
/// finite memory, a finite sample comes out as the same number, and the
/// state after is such a state again. A filter that is new or was cleared
/// is in such a state.
pub proof fn lemma_neutral_gives_back_input<T: Sample>(
    before: TwoPoleState<T>,
    sample: T,
    after: TwoPoleState<T>,
    out: T,
)
    requires
        obeys_identity_laws::<T>(),
        before.is_neutral(),
        before.is_settled() || before.is_clear(),
        finite(sample),
        TwoPole::<T>::processes(before, sample, after, out),
    ensures
        same(out, sample),
        after.is_neutral(),
        after.is_settled(),
{
    lemma_null_is_finite(before.y_z1);
    lemma_null_is_finite(before.y_z2);
}

/// A filter with the coefficients of the identity gives back a whole
/// block: under the identity laws, a run of `process` on finite samples,
/// from a state with these coefficients and a finite memory, gives outputs
/// that are the same numbers as its inputs.
pub proof fn lemma_neutral_gives_back_block<T: Sample>(
    states: Seq<TwoPoleState<T>>,
    inputs: Seq<T>,
    outputs: Seq<T>,
)
    requires
        obeys_identity_laws::<T>(),
        is_run(
            |before: TwoPoleState<T>, sample: T, after: TwoPoleState<T>, out: T|
                TwoPole::<T>::processes(before, sample, after, out),
            states,
            inputs,
            outputs,
        ),
        states[0].is_neutral(),
        states[0].is_settled() || states[0].is_clear(),
        forall|i: int| 0 <= i < inputs.len() ==> finite(#[trigger] inputs[i]),
    ensures
        forall|i: int| 0 <= i < inputs.len() ==> same(#[trigger] outputs[i], inputs[i]),
{
    let step = |before: TwoPoleState<T>, sample: T, after: TwoPoleState<T>, out: T|
        TwoPole::<T>::processes(before, sample, after, out);
    let holds = |state: TwoPoleState<T>|
        state.is_neutral() && (state.is_settled() || state.is_clear());
    assert forall|before: TwoPoleState<T>, sample: T, after: TwoPoleState<T>, out: T|
        holds(before) && finite(sample) && #[trigger] step(
            before,
            sample,
            after,
            out,
        ) implies holds(after) && same(out, sample) by {
        lemma_neutral_gives_back_input(before, sample, after, out);
    }
    lemma_run_gives_back_input(step, holds, states, inputs, outputs);
}

impl<T: Sample> TwoPole<T> {
    /// Creates a filter that does not alter its input.
    pub fn new() -> (filter: Self)
        ensures
            filter@.is_neutral(),
            filter@.is_clear(),
    {
        TwoPole { y_z1: T::zero(), y_z2: T::zero(), b0: T::one(), a1: T::zero(), a2: T::zero() }
    }

    /// Sets all filter coefficients at once; `a1` and `a2` are the
    /// feedbacks, or poles. The memory of the filter is left as it is.
    pub fn set_coefficients(&mut self, b0: T, a1: T, a2: T)
        ensures
            final(self)@ == (TwoPoleState { b0: b0, a1: a1, a2: a2, ..old(self)@ }),
    {
        self.b0 = b0;
        self.a1 = a1;
        self.a2 = a2;
    }
}

impl<T: Sample> Processor<T> for TwoPole<T> {
    open spec fn processes(
        before: TwoPoleState<T>,
        sample: T,
        after: TwoPoleState<T>,
        out: T,
    ) -> bool {
        before.is_output(sample, out) && after == (TwoPoleState {
            y_z1: out,
            y_z2: before.y_z1,
            ..before
        })
    }

    open spec fn clears(before: TwoPoleState<T>, after: TwoPoleState<T>) -> bool {
        after.is_clear() && after == (TwoPoleState {
            y_z1: after.y_z1,
            y_z2: after.y_z2,
            ..before
        })
    }

    open spec fn last_out_spec(state: TwoPoleState<T>) -> T {
        state.y_z1
    }

    fn process(&mut self, sample: T) -> (out: T) {
        let output = self.b0.mul(sample).sub(self.a1.mul(self.y_z1)).sub(
            self.a2.mul(self.y_z2),
        );
        self.y_z2 = self.y_z1;
        self.y_z1 = output;
        output
    }

    fn clear(&mut self) {
        self.y_z1 = T::zero();
        self.y_z2 = T::zero();
    }

    fn last_out(&self) -> (out: T) {
        self.y_z1
    }
}

} // verus!
