use vstd::prelude::*;
use crate::analysis::peak_detector::{
    follow,
    gain_of_length,
    is_gain_of,
    is_length_test,
    is_valid_length,
    EnvDetectorState,
};
use crate::traits::{is_product, is_sqrt, is_zero, Sample};

verus! {

/// A root-mean-square envelope detector.
///
/// The detector is a leaky integrator over the square of its input, whose
/// gain is chosen anew for every sample: the attack gain while the squared
/// input is above the envelope, the release gain otherwise. What it gives
/// out is the square root of the envelope.
pub struct RmsEnvDetector<T> {
    attack_gain: T,
    release_gain: T,
    /// The memory of the integrator: the mean of the squares.
    envelope: T,
}

impl<T> View for RmsEnvDetector<T> {
    type V = EnvDetectorState<T>;

    closed spec fn view(&self) -> EnvDetectorState<T> {
        EnvDetectorState {
            attack_gain: self.attack_gain,
            release_gain: self.release_gain,
            envelope: self.envelope,
        }
    }
}

impl<T: Sample> RmsEnvDetector<T> {
    /// Creates a detector with both gains at zero, which follows the
    /// magnitude of its input at once. `set_attack` and `set_release` make
    /// it an envelope follower.
    pub fn new() -> (detector: Self)
        ensures
            detector@.is_initial(),
    {
        RmsEnvDetector { attack_gain: T::zero(), release_gain: T::zero(), envelope: T::zero() }
    }

    /// Returns the attack gain.
    pub fn get_attack_gain(&self) -> (gain: T)
        ensures
            gain == self@.attack_gain,
    {
        self.attack_gain
    }

    /// Derives the attack gain from `attack_length`, the number of samples
    /// the envelope takes to rise to its target.
    ///
    /// A length that is not above zero, or not finite, is ignored.
    pub fn set_attack(&mut self, attack_length: T)
        ensures
            final(self)@ == (EnvDetectorState {
                attack_gain: final(self)@.attack_gain,
                ..old(self)@
            }),
            exists|valid: bool|
                {
                    &&& #[trigger] is_length_test(attack_length, valid)
                    &&& if valid {
                        is_gain_of(attack_length, final(self)@.attack_gain)
                    } else {
                        final(self)@.attack_gain == old(self)@.attack_gain
                    }
                },
    {
        if is_valid_length(attack_length) {
            self.attack_gain = gain_of_length(attack_length);
        }
    }

    /// Returns the release gain.
    pub fn get_release_gain(&self) -> (gain: T)
        ensures
            gain == self@.release_gain,
    {
        self.release_gain
    }

    /// Derives the release gain from `release_length`, the number of samples
    /// the envelope takes to fall to its target.
    ///
    /// A length that is not above zero, or not finite, is ignored.
    pub fn set_release(&mut self, release_length: T)
        ensures
            final(self)@ == (EnvDetectorState {
                release_gain: final(self)@.release_gain,
                ..old(self)@
            }),
            exists|valid: bool|
                {
                    &&& #[trigger] is_length_test(release_length, valid)
                    &&& if valid {
                        is_gain_of(release_length, final(self)@.release_gain)
                    } else {
                        final(self)@.release_gain == old(self)@.release_gain
                    }
                },
    {
        if is_valid_length(release_length) {
            self.release_gain = gain_of_length(release_length);
        }
    }

    /// Takes one sample into the mean of the squares and returns the root
    /// of that mean.
    pub fn tick(&mut self, sample: T) -> (out: T)
        ensures
            exists|level: T|
                is_product(sample, sample, level) && #[trigger] old(self)@.follows(
                    level,
                    final(self)@.envelope,
                ),
            final(self)@ == (EnvDetectorState { envelope: final(self)@.envelope, ..old(self)@ }),
            is_sqrt(final(self)@.envelope, out),
    {
        let input_envelope = sample.mul(sample);
        self.envelope = follow(
            self.attack_gain,
            self.release_gain,
            self.envelope,
            input_envelope,
        );
        assert(old(self)@.follows(input_envelope, self@.envelope));
        self.envelope.sqrt()
    }

    /// Zeroes the envelope; the gains persist.
    pub fn clear(&mut self)
        ensures
            is_zero(final(self)@.envelope),
            final(self)@ == (EnvDetectorState { envelope: final(self)@.envelope, ..old(self)@ }),
    {
        self.envelope = T::zero();
    }

    /// Returns the last computed output: the root of the envelope.
    pub fn last_out(&self) -> (out: T)
        ensures
            is_sqrt(self@.envelope, out),
    {
        self.envelope.sqrt()
    }
}

} // verus!
