use vstd::prelude::*;
use crate::analysis::leaky_integrator::{integrate, is_integrated};
use crate::traits::{
    is_abs,
    is_exp,
    is_finite,
    is_gt,
    is_lt,
    is_negation,
    is_one,
    is_quotient,
    is_zero,
    Processor,
    Sample,
};

verus! {

/// A peak envelope detector.
///
/// The detector is a leaky integrator over the absolute value of its input,
/// whose gain is chosen anew for every sample: the attack gain while the
/// input is above the envelope, the release gain otherwise.
pub struct PeakEnvDetector<T> {
    attack_gain: T,
    release_gain: T,
    /// The memory of the integrator.
    envelope: T,
}

/// The state of an envelope detector: its two gains and the envelope it
/// holds.
pub struct EnvDetectorState<T> {
    pub attack_gain: T,
    pub release_gain: T,
    pub envelope: T,
}

impl<T> View for PeakEnvDetector<T> {
    type V = EnvDetectorState<T>;

    closed spec fn view(&self) -> EnvDetectorState<T> {
        EnvDetectorState {
            attack_gain: self.attack_gain,
            release_gain: self.release_gain,
            envelope: self.envelope,
        }
    }
}

/// The test whether `length` is a time in samples from which a gain can be
/// derived, above zero and finite, may answer `valid`. Finiteness is looked
/// at only when the length is above zero.
pub open spec fn is_length_test<T: Sample>(length: T, valid: bool) -> bool {
    exists|zero: T, above_zero: bool|
        {
            &&& is_zero(zero)
            &&& is_gt(length, zero, above_zero)
            &&& if above_zero {
                is_finite(length, valid)
            } else {
                !valid
            }
        }
}

/// `gain` may be the gain `exp(-1 / length)` of a time of `length` samples.
pub open spec fn is_gain_of<T: Sample>(length: T, gain: T) -> bool {
    exists|one: T, minus_one: T, exponent: T|
        {
            &&& is_one(one)
            &&& is_negation(one, minus_one)
            &&& is_quotient(minus_one, length, exponent)
            &&& is_exp(exponent, gain)
        }
}

impl<T: Sample> EnvDetectorState<T> {
    /// The state of a detector that has seen nothing and whose gains are
    /// zero.
    pub open spec fn is_initial(self) -> bool {
        is_zero(self.attack_gain) && is_zero(self.release_gain) && is_zero(self.envelope)
    }

    /// `envelope` may be the envelope after a rectified input `level`: the
    /// old envelope integrated towards `level`, by the attack gain if the
    /// old envelope was found below `level`, by the release gain if not.
    pub open spec fn follows(self, level: T, envelope: T) -> bool {
        exists|rising: bool|
            {
                &&& is_lt(self.envelope, level, rising)
                &&& is_integrated(
                    if rising {
                        self.attack_gain
                    } else {
                        self.release_gain
                    },
                    self.envelope,
                    level,
                    envelope,
                )
            }
    }
}

/// Tests whether `length` is above zero and finite.
pub fn is_valid_length<T: Sample>(length: T) -> (valid: bool)
    ensures
        is_length_test(length, valid),
{
    length.gt(T::zero()) && length.is_finite()
}

/// Computes the gain `exp(-1 / length)` that belongs to a time of `length`
/// samples.
pub fn gain_of_length<T: Sample>(length: T) -> (gain: T)
    ensures
        is_gain_of(length, gain),
{
    T::one().neg().div(length).exp()
}

/// Computes the envelope that follows `envelope` on a rectified input
/// `level`.
pub fn follow<T: Sample>(attack_gain: T, release_gain: T, envelope: T, level: T) -> (next: T)
    ensures
        (EnvDetectorState {
            attack_gain: attack_gain,
            release_gain: release_gain,
            envelope: envelope,
        }).follows(level, next),
{
    let alpha = if envelope.lt(level) {
        attack_gain
    } else {
        release_gain
    };
    integrate(alpha, envelope, level)
}

impl<T: Sample> PeakEnvDetector<T> {
    /// Creates a detector with both gains at zero, which follows the
    /// absolute value of its input at once. `set_attack` and `set_release`
    /// make it an envelope follower.
    pub fn new() -> (detector: Self)
        ensures
            detector@.is_initial(),
    {
        PeakEnvDetector { attack_gain: T::zero(), release_gain: T::zero(), envelope: T::zero() }
    }

    /// Returns the attack gain.
    pub fn get_attack_gain(&self) -> (gain: T)
        ensures
            gain == self@.attack_gain,
    {
        self.attack_gain
    }

    /// Derives the attack gain from `attack_length`, the number of samples
    /// the envelope takes to rise to its target.
    ///
    /// A length that is not above zero, or not finite, is ignored.
    pub fn set_attack(&mut self, attack_length: T)
        ensures
            final(self)@ == (EnvDetectorState {
                attack_gain: final(self)@.attack_gain,
                ..old(self)@
            }),
            exists|valid: bool|
                {
                    &&& #[trigger] is_length_test(attack_length, valid)
                    &&& if valid {
                        is_gain_of(attack_length, final(self)@.attack_gain)
                    } else {
                        final(self)@.attack_gain == old(self)@.attack_gain
                    }
                },
    {
        if is_valid_length(attack_length) {
            self.attack_gain = gain_of_length(attack_length);
        }
    }

    /// Returns the release gain.
    pub fn get_release_gain(&self) -> (gain: T)
        ensures
            gain == self@.release_gain,
    {
        self.release_gain
    }

    /// Derives the release gain from `release_length`, the number of samples
    /// the envelope takes to fall to its target.
    ///
    /// A length that is not above zero, or not finite, is ignored.
    pub fn set_release(&mut self, release_length: T)
        ensures
            final(self)@ == (EnvDetectorState {
                release_gain: final(self)@.release_gain,
                ..old(self)@
            }),
            exists|valid: bool|
                {
                    &&& #[trigger] is_length_test(release_length, valid)
                    &&& if valid {
                        is_gain_of(release_length, final(self)@.release_gain)
                    } else {
                        final(self)@.release_gain == old(self)@.release_gain
                    }
                },
    {
        if is_valid_length(release_length) {
            self.release_gain = gain_of_length(release_length);
        }
    }
}

impl<T: Sample> Processor<T> for PeakEnvDetector<T> {
    open spec fn processes(
        before: EnvDetectorState<T>,
        sample: T,
        after: EnvDetectorState<T>,
        out: T,
    ) -> bool {
        &&& exists|level: T| is_abs(sample, level) && #[trigger] before.follows(level, out)
        &&& after == (EnvDetectorState { envelope: out, ..before })
    }

    /// The envelope is zeroed; the gains persist.
    open spec fn clears(before: EnvDetectorState<T>, after: EnvDetectorState<T>) -> bool {
        is_zero(after.envelope) && after == (EnvDetectorState {
            envelope: after.envelope,
            ..before
        })
    }

    open spec fn last_out_spec(state: EnvDetectorState<T>) -> T {
        state.envelope
    }

    fn process(&mut self, sample: T) -> (out: T) {
        let input_envelope = sample.abs();
        self.envelope = follow(
            self.attack_gain,
            self.release_gain,
            self.envelope,
            input_envelope,
        );
        self.envelope
    }

    fn clear(&mut self) {
        self.envelope = T::zero();
    }

    fn last_out(&self) -> (out: T) {
        self.envelope
    }
}

} // verus!
