use vstd::prelude::*;
use crate::traits::{
    finite,
    is_run,
    lemma_run_gives_back_input,
    is_difference,
    is_one,
    is_product,
    is_zero,
    lemma_null_is_finite,
    obeys_identity_laws,
    same,
    Processor,
    Sample,
};

verus! {

/// A single channel, one pole digital filter.
///
/// It follows `y[n] = b0*x[n] - a1*y[n-1]`, with one feedback coefficient,
/// `a1`.
pub struct OnePole<T> {
    y_z1: T,
    pub b0: T,
    pub a1: T,
}

/// The state of a `OnePole`: its delayed output and its coefficients.
pub struct OnePoleState<T> {
    pub y_z1: T,
    pub b0: T,
    pub a1: T,
}

impl<T> View for OnePole<T> {
    type V = OnePoleState<T>;

    closed spec fn view(&self) -> OnePoleState<T> {
        OnePoleState { y_z1: self.y_z1, b0: self.b0, a1: self.a1 }
    }
}

impl<T: Sample> OnePoleState<T> {
    /// The memory holds zero.
    pub open spec fn is_clear(self) -> bool {
        is_zero(self.y_z1)
    }

    /// The coefficients are those of the identity: `b0` is one and `a1` is
    /// zero.
    pub open spec fn is_neutral(self) -> bool {
        is_one(self.b0) && is_zero(self.a1)
    }

    /// `out` may be the output for `sample`: `b0*sample - a1*y_z1`.
    pub open spec fn is_output(self, sample: T, out: T) -> bool {
        exists|forward: T, feedback: T|
            {
                &&& is_product(self.b0, sample, forward)
                &&& is_product(self.a1, self.y_z1, feedback)
                &&& is_difference(forward, feedback, out)
            }
    }
}

impl<T: Sample> OnePoleState<T> {
    /// The memory holds a finite number.
    pub open spec fn is_settled(self) -> bool {
        finite(self.y_z1)
    }
}

/// A filter with the coefficients of the identity gives back its input:
/// under the identity laws, from a state with these coefficients and a
/// finite memory, a finite sample comes out as the same number, and the
/// state after is such a state again. A filter that is new or was cleared
/// is in such a state.
pub proof fn lemma_neutral_gives_back_input<T: Sample>(
    before: OnePoleState<T>,
    sample: T,
    after: OnePoleState<T>,
    out: T,
)
    requires
        obeys_identity_laws::<T>(),
        before.is_neutral(),
        before.is_settled() || before.is_clear(),
        finite(sample),
        OnePole::<T>::processes(before, sample, after, out),
    ensures
        same(out, sample),
        after.is_neutral(),
        after.is_settled(),
{
    lemma_null_is_finite(before.y_z1);
}

/// A filter with the coefficients of the identity gives back a whole
/// block: under the identity laws, a run of `process` on finite samples,
/// from a state with these coefficients and a finite memory, gives outputs
/// that are the same numbers as its inputs.
pub proof fn lemma_neutral_gives_back_block<T: Sample>(
    states: Seq<OnePoleState<T>>,
    inputs: Seq<T>,
    outputs: Seq<T>,
)
    requires
        obeys_identity_laws::<T>(),
        is_run(
            |before: OnePoleState<T>, sample: T, after: OnePoleState<T>, out: T|
                OnePole::<T>::processes(before, sample, after, out),
            states,
            inputs,
            outputs,
        ),
        states[0].is_neutral(),
        states[0].is_settled() || states[0].is_clear(),
        forall|i: int| 0 <= i < inputs.len() ==> finite(#[trigger] inputs[i]),
    ensures
        forall|i: int| 0 <= i < inputs.len() ==> same(#[trigger] outputs[i], inputs[i]),
{
    let step = |before: OnePoleState<T>, sample: T, after: OnePoleState<T>, out: T|
        OnePole::<T>::processes(before, sample, after, out);
    let holds = |state: OnePoleState<T>|
        state.is_neutral() && (state.is_settled() || state.is_clear());
    assert forall|before: OnePoleState<T>, sample: T, after: OnePoleState<T>, out: T|
        holds(before) && finite(sample) && #[trigger] step(
            before,
            sample,
            after,
            out,
        ) implies holds(after) && same(out, sample) by {
        lemma_neutral_gives_back_input(before, sample, after, out);
    }
    lemma_run_gives_back_input(step, holds, states, inputs, outputs);
}

impl<T: Sample> OnePole<T> {
    /// Creates a filter that does not alter its input.
    pub fn new() -> (filter: Self)
        ensures
            filter@.is_neutral(),
            filter@.is_clear(),
    {
        OnePole { y_z1: T::zero(), b0: T::one(), a1: T::zero() }
    }

    /// Sets all filter coefficients at once; `a1` is the feedback, or pole.
    /// The memory of the filter is left as it is.
    pub fn set_coefficients(&mut self, b0: T, a1: T)
        ensures
            final(self)@ == (OnePoleState { b0: b0, a1: a1, ..old(self)@ }),
    {
        self.b0 = b0;
        self.a1 = a1;
    }
}

impl<T: Sample> Processor<T> for OnePole<T> {
    open spec fn processes(
        before: OnePoleState<T>,
        sample: T,
        after: OnePoleState<T>,
        out: T,
    ) -> bool {
        before.is_output(sample, out) && after == (OnePoleState { y_z1: out, ..before })
    }

    open spec fn clears(before: OnePoleState<T>, after: OnePoleState<T>) -> bool {
        after.is_clear() && after == (OnePoleState { y_z1: after.y_z1, ..before })
    }

    open spec fn last_out_spec(state: OnePoleState<T>) -> T {
        state.y_z1
    }

    fn process(&mut self, sample: T) -> (out: T) {
        let output = self.b0.mul(sample).sub(self.a1.mul(self.y_z1));
        self.y_z1 = output;
        output
    }

    fn clear(&mut self) {
        self.y_z1 = T::zero();
    }

    fn last_out(&self) -> (out: T) {
        self.y_z1
    }
}

} // verus!
