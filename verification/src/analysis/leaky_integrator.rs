use vstd::prelude::*;
use crate::traits::{
    finite,
    is_difference,
    is_ge,
    is_lt,
    is_one,
    is_product,
    is_sum,
    is_zero,
    obeys_identity_laws,
    same,
    Processor,
    Sample,
};

verus! {

/// An integrator used to average a signal.
///
/// A `LeakyIntegrator` is a one pole filter whose input gain `b0` and
/// feedback gain `a1` are complements, `a1 = 1 - b0` with `0 <= a1 < 1`, so
/// that it follows `y[n] = x[n] + alpha * (y[n-1] - x[n])` with the one gain
/// `alpha`.
pub struct LeakyIntegrator<T> {
    /// The feedback gain of the integrator.
    alpha: T,
    /// The delayed output of the integrator.
    y_z1: T,
}

/// The state of a `LeakyIntegrator`: its gain and its delayed output.
pub struct LeakyIntegratorState<T> {
    pub alpha: T,
    pub y_z1: T,
}

impl<T> View for LeakyIntegrator<T> {
    type V = LeakyIntegratorState<T>;

    closed spec fn view(&self) -> LeakyIntegratorState<T> {
        LeakyIntegratorState { alpha: self.alpha, y_z1: self.y_z1 }
    }
}

/// `out` may be one step of leaky integration,
/// `input + alpha * (memory - input)`.
pub open spec fn is_integrated<T: Sample>(alpha: T, memory: T, input: T, out: T) -> bool {
    exists|distance: T, pull: T|
        {
            &&& is_difference(memory, input, distance)
            &&& is_product(alpha, distance, pull)
            &&& is_sum(input, pull, out)
        }
}

/// The test `0 <= gain < 1` may answer `accepted`. The upper bound is looked
/// at only when the lower one holds.
pub open spec fn is_alpha_test<T: Sample>(gain: T, accepted: bool) -> bool {
    exists|zero: T, at_least_zero: bool|
        {
            &&& is_zero(zero)
            &&& is_ge(gain, zero, at_least_zero)
            &&& if at_least_zero {
                exists|one: T| is_one(one) && is_lt(gain, one, accepted)
            } else {
                !accepted
            }
        }
}

/// An integrator whose gain is zero gives back its input: under the
/// identity laws, a finite sample comes out as the same number, provided
/// that its distance from the memory is finite too. The distance of two
/// finite numbers need not be: it may overflow, and then what comes out is
/// no number.
pub proof fn lemma_zero_gain_gives_back_input<T: Sample>(
    before: LeakyIntegratorState<T>,
    sample: T,
    after: LeakyIntegratorState<T>,
    out: T,
)
    requires
        obeys_identity_laws::<T>(),
        is_zero(before.alpha),
        finite(sample),
        forall|distance: T| is_difference(before.y_z1, sample, distance) ==> finite(distance),
        LeakyIntegrator::<T>::processes(before, sample, after, out),
    ensures
        same(out, sample),
        is_zero(after.alpha),
        finite(after.y_z1),
{
}

/// Computes one step of leaky integration.
pub fn integrate<T: Sample>(alpha: T, memory: T, input: T) -> (out: T)
    ensures
        is_integrated(alpha, memory, input, out),
{
    input.add(alpha.mul(memory.sub(input)))
}

impl<T: Sample> LeakyIntegrator<T> {
    /// Creates an integrator that does not alter its input: `alpha` is zero.
    pub fn new() -> (integrator: Self)
        ensures
            is_zero(integrator@.alpha),
            is_zero(integrator@.y_z1),
    {
        LeakyIntegrator { alpha: T::zero(), y_z1: T::zero() }
    }

    /// Returns the `alpha` gain of the integrator.
    pub fn get_alpha(&self) -> (alpha: T)
        ensures
            alpha == self@.alpha,
    {
        self.alpha
    }

    /// Sets the `alpha` gain of the integrator, where `0 <= alpha < 1`.
    ///
    /// A `gain` outside that range is ignored and the current `alpha` stays.
    pub fn set_alpha(&mut self, gain: T)
        ensures
            exists|accepted: bool|
                {
                    &&& #[trigger] is_alpha_test(gain, accepted)
                    &&& final(self)@ == (LeakyIntegratorState {
                        alpha: if accepted {
                            gain
                        } else {
                            old(self)@.alpha
                        },
                        ..old(self)@
                    })
                },
    {
        let accepted = gain.ge(T::zero()) && gain.lt(T::one());
        if accepted {
            self.alpha = gain;
        }
        assert(is_alpha_test(gain, accepted));
    }
}

impl<T: Sample> Processor<T> for LeakyIntegrator<T> {
    open spec fn processes(
        before: LeakyIntegratorState<T>,
        sample: T,
        after: LeakyIntegratorState<T>,
        out: T,
    ) -> bool {
        &&& is_integrated(before.alpha, before.y_z1, sample, out)
        &&& after == (LeakyIntegratorState { y_z1: out, ..before })
    }

    open spec fn clears(before: LeakyIntegratorState<T>, after: LeakyIntegratorState<T>) -> bool {
        is_zero(after.y_z1) && after.alpha == before.alpha
    }

    open spec fn last_out_spec(state: LeakyIntegratorState<T>) -> T {
        state.y_z1
    }

    fn process(&mut self, sample: T) -> (out: T) {
        self.y_z1 = integrate(self.alpha, self.y_z1, sample);
        self.y_z1
    }

    fn clear(&mut self) {
        self.y_z1 = T::zero();
    }

    fn last_out(&self) -> (out: T) {
        self.y_z1
    }
}

} // verus!
