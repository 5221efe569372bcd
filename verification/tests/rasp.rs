use num::Float;
use rasp::analysis::{LeakyIntegrator, PeakEnvDetector, RmsEnvDetector};
use rasp::delay::{Delay, LinearDelay};
use rasp::envelope::{Adsr, Ar, EnvGenerator, Generator};
use rasp::filter::rbj::{
    AllPass, BandPass1, BandPass2, BandStop, HighPass, HighShelf, LowPass, LowShelf, Peak,
};
use rasp::filter::{Biquad1, Biquad2, OnePole, OneZero, TwoPole, TwoZero};
use rasp::traits::{Filter, FloatConst, Processor, Sample, TappableDelayLine};
use rasp::util;
use rasp::window::{
    apply_window, BartlettIter, BlackmanHarrisIter, BlackmanIter, HammingIter, HannIter,
    TriangularIter, Window,
};
use std::f32::consts::PI;
use std::f32::{EPSILON, INFINITY, NAN, NEG_INFINITY};

/// A floating-point number as a sample.
#[derive(Clone, Copy, Debug, PartialEq)]
struct S<F>(F);

impl<F: Float> Sample for S<F> {
    fn zero() -> Self {
        S(F::zero())
    }

    fn one() -> Self {
        S(F::one())
    }

    fn add(self, rhs: Self) -> Self {
        S(self.0 + rhs.0)
    }

    fn sub(self, rhs: Self) -> Self {
        S(self.0 - rhs.0)
    }

    fn mul(self, rhs: Self) -> Self {
        S(self.0 * rhs.0)
    }

    fn div(self, rhs: Self) -> Self {
        S(self.0 / rhs.0)
    }

    fn neg(self) -> Self {
        S(-self.0)
    }

    fn abs(self) -> Self {
        S(self.0.abs())
    }

    fn sqrt(self) -> Self {
        S(self.0.sqrt())
    }

    fn exp(self) -> Self {
        S(self.0.exp())
    }

    fn cos(self) -> Self {
        S(self.0.cos())
    }

    fn sin(self) -> Self {
        S(self.0.sin())
    }

    fn powf(self, exponent: Self) -> Self {
        S(self.0.powf(exponent.0))
    }

    fn log10(self) -> Self {
        S(self.0.log10())
    }

    fn lt(self, rhs: Self) -> bool {
        self.0 < rhs.0
    }

    fn le(self, rhs: Self) -> bool {
        self.0 <= rhs.0
    }

    fn gt(self, rhs: Self) -> bool {
        self.0 > rhs.0
    }

    fn ge(self, rhs: Self) -> bool {
        self.0 >= rhs.0
    }

    fn equals(self, rhs: Self) -> bool {
        self.0 == rhs.0
    }

    fn is_finite(self) -> bool {
        self.0.is_finite()
    }

    fn from_usize(n: usize) -> Self {
        S(num::cast(n).unwrap())
    }

    fn to_usize(self) -> usize {
        if self.0 > F::zero() {
            num::cast(self.0).unwrap_or(usize::MAX)
        } else {
            0
        }
    }
}

impl FloatConst for S<f32> {
    fn pi() -> Self {
        S(std::f32::consts::PI)
    }

    fn two() -> Self {
        S(2f32)
    }
}

impl FloatConst for S<f64> {
    fn pi() -> Self {
        S(std::f64::consts::PI)
    }

    fn two() -> Self {
        S(2f64)
    }
}

/// Wraps each number of `values` as a sample.
fn samples(values: &[f32]) -> Vec<S<f32>> {
    values.iter().map(|value| S(*value)).collect()
}

// Leaky integrator

#[test]
fn leaky_integrator_new() {
    let integrator = LeakyIntegrator::<S<f32>>::new();

    assert!((integrator.last_out().0 - 0f32).abs() < EPSILON);
    assert!((integrator.get_alpha().0 - 0f32).abs() < EPSILON);
}

#[test]
fn gain() {
    let mut integrator = LeakyIntegrator::new();

    integrator.set_alpha(S(0.5f32));
    assert!((integrator.get_alpha().0 - 0.5f32).abs() < EPSILON);
}

#[test]
fn leaky_integrator_memory() {
    let mut integrator = LeakyIntegrator::<S<f32>>::new();
    assert!((integrator.last_out().0 - 0f32).abs() < EPSILON);

    integrator.set_alpha(S(0.5f32));
    let mut output = integrator.process(S(1f32));

    assert!((output.0 - 0.5f32).abs() < EPSILON);
    assert!((integrator.last_out().0 - 0.5f32).abs() < EPSILON);

    integrator.clear();
    assert!((integrator.last_out().0 - 0f32).abs() < EPSILON);

    output = integrator.process(S(1f32));
    assert!((output.0 - 0.5f32).abs() < EPSILON);
    assert!((integrator.last_out().0 - 0.5f32).abs() < EPSILON);
}

#[test]
fn leaky_integrator_process() {
    let mut integrator = LeakyIntegrator::new();
    let expected = vec![0.5f32, 0.75f32, 0.875f32, 0.9375f32, 0.96875f32];

    integrator.set_alpha(S(0.5f32));

    for case in expected.iter() {
        let output = integrator.process(S(1f32));
        assert!((output.0 - case).abs() < EPSILON);
    }
}

#[test]
fn leaky_integrator_rejects_gains_out_of_range() {
    let mut integrator = LeakyIntegrator::new();
    integrator.set_alpha(S(0.99f32));
    assert_eq!(integrator.get_alpha(), S(0.99f32));

    for gain in [1f32, -0.01f32, 1.5f32, INFINITY, NEG_INFINITY, NAN] {
        integrator.set_alpha(S(gain));
        assert_eq!(integrator.get_alpha(), S(0.99f32));
    }

    integrator.set_alpha(S(0f32));
    assert_eq!(integrator.get_alpha(), S(0f32));
}

// Peak envelope detector

#[test]
fn peak_detector_new() {
    let detector = PeakEnvDetector::<S<f32>>::new();

    assert!((detector.last_out().0 - 0f32).abs() < EPSILON);
    assert!((detector.get_attack_gain().0 - 0f32).abs() < EPSILON);
    assert!((detector.get_release_gain().0 - 0f32).abs() < EPSILON);
}

#[test]
fn peak_detector_attack_and_release() {
    let sample_rate = 44100f32;
    let attack = 0.02f32 * sample_rate;
    let release = 0.2f32 * sample_rate;
    let expected_attack_gain = (-1f32 / attack).exp();
    let expected_release_gain = (-1f32 / release).exp();
    let invalid = vec![0f32, INFINITY, NAN];

    let mut detector = PeakEnvDetector::new();
    detector.set_attack(S(attack));
    detector.set_release(S(release));
    assert!((detector.get_attack_gain().0 - expected_attack_gain).abs() < EPSILON);
    assert!((detector.get_release_gain().0 - expected_release_gain).abs() < EPSILON);

    // Invalid values
    for value in invalid.iter() {
        detector.set_attack(S(*value));
        detector.set_release(S(*value));
        assert!((detector.get_attack_gain().0 - expected_attack_gain).abs() < EPSILON);
        assert!((detector.get_release_gain().0 - expected_release_gain).abs() < EPSILON);
    }
}

#[test]
fn peak_detector_memory() {
    let mut detector = PeakEnvDetector::new();
    detector.set_attack(S(0.02f32 * 44100f32));
    detector.set_release(S(0.2f32 * 44100f32));

    let output = detector.process(S(1f32));
    assert!((detector.last_out().0 - output.0).abs() < EPSILON);

    detector.clear();
    assert!((detector.last_out().0 - 0f32).abs() < EPSILON);
}

#[test]
fn peak_detector_gain_follows_the_length() {
    let mut detector = PeakEnvDetector::new();
    detector.set_attack(S(1f32));
    detector.set_release(S(2f32));
    assert_eq!(detector.get_attack_gain(), S((-1f32).exp()));
    assert_eq!(detector.get_release_gain(), S((-0.5f32).exp()));

    for length in [0f32, -3f32, INFINITY, NEG_INFINITY, NAN] {
        detector.set_attack(S(length));
        detector.set_release(S(length));
        assert_eq!(detector.get_attack_gain(), S((-1f32).exp()));
        assert_eq!(detector.get_release_gain(), S((-0.5f32).exp()));
    }
}

#[test]
fn peak_detector_switches_between_its_gains() {
    let mut detector = PeakEnvDetector::new();
    detector.set_attack(S(1f32));
    detector.set_release(S(2f32));
    let attack_gain = (-1f32).exp();
    let release_gain = (-0.5f32).exp();

    // The input is above the envelope: the attack gain is used.
    let rising = detector.process(S(-1f32));
    assert_eq!(rising, S(1f32 + attack_gain * (0f32 - 1f32)));

    // The input is below the envelope: the release gain is used.
    let falling = detector.process(S(0f32));
    assert_eq!(falling, S(0f32 + release_gain * (rising.0 - 0f32)));

    // The input equals the envelope: the release gain is used.
    let level = detector.process(falling);
    assert_eq!(level, S(falling.0 + release_gain * (falling.0 - falling.0)));
}

#[test]
fn peak_detector_rises_and_falls_on_a_step() {
    let mut detector = PeakEnvDetector::new();
    detector.set_attack(S(10f32));
    detector.set_release(S(40f32));

    let mut previous = 0f32;
    for _ in 0..200 {
        let envelope = detector.process(S(1f32)).0;
        assert!(envelope >= previous);
        assert!(envelope <= 1f32);
        previous = envelope;
    }
    assert!(previous > 0.99f32);

    for _ in 0..400 {
        let envelope = detector.process(S(0f32)).0;
        assert!(envelope <= previous);
        assert!(envelope >= 0f32);
        previous = envelope;
    }
    assert!(previous < 0.01f32);
}

// RMS envelope detector

#[test]
fn rms_detector_new() {
    let detector = RmsEnvDetector::<S<f32>>::new();

    assert!((detector.last_out().0 - 0f32).abs() < EPSILON);
    assert!((detector.get_attack_gain().0 - 0f32).abs() < EPSILON);
    assert!((detector.get_release_gain().0 - 0f32).abs() < EPSILON);
}

#[test]
fn rms_detector_attack_and_release() {
    let sample_rate = 44100f32;
    let attack = 0.02f32 * sample_rate;
    let release = 0.2f32 * sample_rate;
    let expected_attack_gain = (-1f32 / attack).exp();
    let expected_release_gain = (-1f32 / release).exp();
    let invalid = vec![0f32, INFINITY, NAN];

    let mut detector = RmsEnvDetector::new();
    detector.set_attack(S(attack));
    detector.set_release(S(release));
    assert!((detector.get_attack_gain().0 - expected_attack_gain).abs() < EPSILON);
    assert!((detector.get_release_gain().0 - expected_release_gain).abs() < EPSILON);

    // Invalid values
    for value in invalid.iter() {
        detector.set_attack(S(*value));
        detector.set_release(S(*value));
        assert!((detector.get_attack_gain().0 - expected_attack_gain).abs() < EPSILON);
        assert!((detector.get_release_gain().0 - expected_release_gain).abs() < EPSILON);
    }
}

#[test]
fn rms_detector_memory() {
    let mut detector = RmsEnvDetector::new();
    detector.set_attack(S(0.02f32 * 44100f32));
    detector.set_release(S(0.2f32 * 44100f32));

    let output = detector.tick(S(1f32));
    assert!((detector.last_out().0 - output.0).abs() < EPSILON);

    detector.clear();
    assert!((detector.last_out().0 - 0f32).abs() < EPSILON);
}

#[test]
fn rms_detector_gives_the_root_of_the_mean_square() {
    let mut detector = RmsEnvDetector::new();
    detector.set_attack(S(1f32));
    detector.set_release(S(2f32));
    let attack_gain = (-1f32).exp();

    let output = detector.tick(S(-3f32));
    let envelope = 9f32 + attack_gain * (0f32 - 9f32);
    assert_eq!(output, S(envelope.sqrt()));
    assert_eq!(detector.last_out(), S(envelope.sqrt()));
}

#[test]
fn rms_detector_rises_and_falls_on_a_step() {
    let mut detector = RmsEnvDetector::new();
    detector.set_attack(S(10f32));
    detector.set_release(S(40f32));

    let mut previous = 0f32;
    for _ in 0..200 {
        let envelope = detector.tick(S(1f32)).0;
        assert!(envelope >= previous);
        previous = envelope;
    }
    for _ in 0..400 {
        let envelope = detector.tick(S(0f32)).0;
        assert!(envelope <= previous);
        previous = envelope;
    }
}

// The analysis units alter nothing until their gains are set.

#[test]
fn leaky_integrator() {
    let mut integrator = LeakyIntegrator::new();
    assert!((integrator.tick(S(1f32)).0 - 1f32).abs() < EPSILON);
}

#[test]
fn peak_detector() {
    let mut detector = PeakEnvDetector::new();
    assert!((detector.tick(S(1f32)).0 - 1f32).abs() < EPSILON);
}

#[test]
fn rms_detector() {
    let mut detector = RmsEnvDetector::new();
    assert!((detector.tick(S(1f32)).0 - 1f32).abs() < EPSILON);
}

// Delay

#[test]
fn mod_new() {
    let mut delay1 = Delay::<S<f32>>::new(0, 4095);
    let delay2 = Delay::<S<f32>>::new(4, 4095);

    assert!((delay1.next_out().0 - 0f32).abs() < EPSILON);
    assert!((delay2.next_out().0 - 0f32).abs() < EPSILON);

    assert!(delay1.get_delay() != delay2.get_delay());
    assert_eq!(delay1.get_max_delay(), delay2.get_max_delay());

    delay1.set_delay(4);
    assert_eq!(delay1.get_delay(), delay2.get_delay());
}

#[test]
fn mod_new_beyond_bounds() {
    let delay1 = Delay::<S<f32>>::new(2000, 1000);
    assert_eq!(delay1.get_delay(), delay1.get_max_delay());
}

#[test]
fn mod_set_delay() {
    let max_delay = 1000;
    let mut delay = Delay::<S<f32>>::new(500, max_delay);
    delay.set_delay(2000);
    assert_eq!(delay.get_delay(), max_delay);
}

#[test]
fn mod_tick() {
    let mut input = vec![0f32; 5];
    input[0] = 1f32;
    let mut expected = vec![0f32; 5];
    expected[4] = 1f32;
    let mut delay = Delay::new(4, 4095);

    for (i, sample) in input.iter().enumerate() {
        assert!((expected[i] - delay.tick(S(*sample)).0).abs() < EPSILON);
    }
}

#[test]
fn clear() {
    let delay_size = 380;
    let mut delay = Delay::new(delay_size, 4095);
    for i in 0..delay_size {
        assert!((delay.tick(S(i as f32)).0 - 0f32).abs() < EPSILON);
    }

    delay.clear();

    for i in 0..delay_size {
        assert!((delay.tick(S(i as f32)).0 - 0f32).abs() < EPSILON);
    }
}

#[test]
fn mod_tap_out() {
    let input = vec![0f32, 0.25f32, 0.5f32, 0.75f32];
    let expected = vec![0.75f32, 0.5f32, 0.25f32, 0f32];
    let mut delay = Delay::new(4, 4095);

    for sample in input.iter() {
        delay.tick(S(*sample));
        assert!((*sample - delay.tap_out(0).0).abs() < EPSILON);
    }

    for (i, sample) in expected.iter().enumerate() {
        assert!((*sample - delay.tap_out(i).0).abs() < EPSILON);
    }
}

#[test]
fn mod_tap_in() {
    let input = vec![0f32, 0.25f32, 0.5f32, 0.75f32];
    let expected = vec![0.75f32, 0.5f32, 0.25f32, 0f32];
    let mut delay = Delay::new(4, 4095);

    for (i, sample) in input.iter().enumerate() {
        delay.tap_in(S(*sample), i);
    }

    for sample in expected.iter() {
        assert!((*sample - delay.tick(S(0f32)).0).abs() < EPSILON);
    }
}

#[test]
fn mod_add_to() {
    let input = vec![0f32, 0.25f32, 0.5f32, 0.75f32];
    let expected = vec![0.75f32, 0.5f32, 0.25f32, 0f32];
    let mut delay = Delay::new(4, 4095);

    for (i, sample) in input.iter().enumerate() {
        delay.add_to(S(*sample), i);
    }

    for sample in expected.iter() {
        assert!((*sample - delay.tick(S(0f32)).0).abs() < EPSILON);
    }
}

#[test]
fn delay_new() {
    let mut delay1 = Delay::<S<f32>>::new(0, 4095);
    let delay2 = Delay::<S<f32>>::new(4, 4095);

    assert_eq!(delay1.next_out(), S(0f32));
    assert_eq!(delay2.next_out(), S(0f32));

    assert!(delay1.get_delay() != delay2.get_delay());
    assert_eq!(delay1.get_max_delay(), delay2.get_max_delay());

    delay1.set_delay(4);
    assert_eq!(delay1.get_delay(), delay2.get_delay());
}

#[test]
fn delay_tick() {
    let mut input = vec![0f32; 5];
    input[0] = 1f32;
    let mut expected = vec![0f32; 5];
    expected[4] = 1f32;
    let mut delay = Delay::new(4, 4095);

    for (i, sample) in input.iter().enumerate() {
        assert_eq!(S(expected[i]), delay.tick(S(*sample)));
    }
}

#[test]
fn delay_tap_out() {
    let input = vec![0f32, 0.25f32, 0.5f32, 0.75f32];
    let expected = vec![0.75f32, 0.5f32, 0.25f32, 0f32];
    let mut delay = Delay::new(4, 4095);

    for sample in input.iter() {
        delay.tick(S(*sample));
        assert_eq!(S(*sample), delay.tap_out(0));
    }

    for (i, sample) in expected.iter().enumerate() {
        assert_eq!(S(*sample), delay.tap_out(i));
    }
}

#[test]
fn delay_tap_in() {
    let input = vec![0f32, 0.25f32, 0.5f32, 0.75f32];
    let expected = vec![0.75f32, 0.5f32, 0.25f32, 0f32];
    let mut delay = Delay::new(4, 4095);

    for (i, sample) in input.iter().enumerate() {
        delay.tap_in(S(*sample), i);
    }

    for sample in expected.iter() {
        assert_eq!(S(*sample), delay.tick(S(0f32)));
    }
}

#[test]
fn delay_add_to() {
    let input = vec![0f32, 0.25f32, 0.5f32, 0.75f32];
    let expected = vec![0.75f32, 0.5f32, 0.25f32, 0f32];
    let mut delay = Delay::new(4, 4095);

    for (i, sample) in input.iter().enumerate() {
        delay.add_to(S(*sample), i);
    }

    for sample in expected.iter() {
        assert_eq!(S(*sample), delay.tick(S(0f32)));
    }
}

#[test]
fn delay() {
    // Single sample delay
    let mut delay = Delay::new(1, 4);
    assert!((delay.tick(S(1f32)).0 - 0f32).abs() < EPSILON);
    assert!((delay.tick(S(0f32)).0 - 1f32).abs() < EPSILON);
}

#[test]
fn delay_of_zero_gives_back_its_input() {
    let mut delay = Delay::new(0, 8);
    for value in [0.5f32, -0.25f32, 3f32, 0f32, -7.5f32] {
        assert_eq!(delay.tick(S(value)), S(value));
    }
}

#[test]
fn delay_gives_back_what_came_in_delay_ticks_before() {
    // The buffer is shorter than the run, so the pointers wrap.
    let mut delay = Delay::new(3, 4);
    let input: Vec<f32> = (1..=20).map(|i| i as f32).collect();
    for (i, sample) in input.iter().enumerate() {
        let expected = if i < 3 { 0f32 } else { input[i - 3] };
        assert_eq!(delay.next_out(), S(expected));
        assert_eq!(delay.tick(S(*sample)), S(expected));
    }
}

#[test]
fn delay_set_delay_counts_from_the_write_position() {
    let mut delay = Delay::new(4, 7);
    for i in 1..=6 {
        delay.tick(S(i as f32));
    }
    // The samples 1 to 6 are in the buffer; two ticks back is 5.
    delay.set_delay(2);
    assert_eq!(delay.get_delay(), 2);
    assert_eq!(delay.tick(S(7f32)), S(5f32));
    assert_eq!(delay.tick(S(8f32)), S(6f32));
    assert_eq!(delay.tick(S(9f32)), S(7f32));

    delay.set_delay(0);
    assert_eq!(delay.tick(S(10f32)), S(10f32));

    delay.set_delay(100);
    assert_eq!(delay.get_delay(), 7);
    assert_eq!(delay.tick(S(11f32)), S(4f32));
}

#[test]
fn delay_set_max_delay_only_grows() {
    let mut delay = Delay::new(2, 3);
    for i in 1..=3 {
        delay.tick(S(i as f32));
    }

    delay.set_max_delay(2);
    assert_eq!(delay.get_max_delay(), 3);
    delay.set_max_delay(3);
    assert_eq!(delay.get_max_delay(), 3);

    delay.set_max_delay(9);
    assert_eq!(delay.get_max_delay(), 9);
    assert_eq!(delay.get_delay(), 2);
    // What was there is where it was, and the new cells hold zero.
    assert_eq!(delay.tap_out(0), S(3f32));
    assert_eq!(delay.tap_out(1), S(2f32));
    assert_eq!(delay.tap_out(2), S(1f32));
    assert_eq!(delay.tap_out(3), S(0f32));
    for tap in 4..10 {
        assert_eq!(delay.tap_out(tap), S(0f32));
    }

    delay.set_max_delay(4);
    assert_eq!(delay.get_max_delay(), 9);
}

#[test]
fn delay_taps_wrap_around_the_buffer() {
    let mut delay = Delay::new(1, 3);
    for i in 1..=6 {
        delay.tick(S(i as f32));
    }
    // The buffer of four cells holds 3, 4, 5, 6.
    assert_eq!(delay.tap_out(0), S(6f32));
    assert_eq!(delay.tap_out(3), S(3f32));
    // A tap beyond the buffer goes round it.
    assert_eq!(delay.tap_out(4), S(6f32));
    assert_eq!(delay.tap_out(7), S(3f32));
    assert_eq!(delay.tap_out(usize::MAX), delay.tap_out(usize::MAX % 4));
}

#[test]
fn delay_tap_in_then_tap_out_gives_the_value() {
    let mut delay = Delay::new(2, 5);
    for i in 0..4 {
        delay.tick(S(i as f32));
    }
    for tap in [0usize, 1, 2, 5, 6, 17] {
        delay.tap_in(S(100f32 + tap as f32), tap);
        assert_eq!(delay.tap_out(tap), S(100f32 + tap as f32));
    }
}

#[test]
fn delay_add_to_gives_the_sum() {
    let mut delay = Delay::new(2, 5);
    delay.tick(S(1.5f32));
    assert_eq!(delay.add_to(S(2.25f32), 0), S(3.75f32));
    assert_eq!(delay.tap_out(0), S(3.75f32));
    assert_eq!(delay.add_to(S(-0.75f32), 0), S(3f32));
}

#[test]
fn delay_clear_keeps_the_pointers() {
    let mut delay = Delay::new(2, 3);
    delay.tick(S(1f32));
    delay.tick(S(2f32));
    delay.clear();
    assert_eq!(delay.get_delay(), 2);
    assert_eq!(delay.get_max_delay(), 3);
    assert_eq!(delay.tick(S(3f32)), S(0f32));
    assert_eq!(delay.tick(S(4f32)), S(0f32));
    assert_eq!(delay.tick(S(5f32)), S(3f32));
}

// Linear delay

#[test]
fn linear_delay_new() {
    let mut delay1 = LinearDelay::<S<f32>>::new(S(0f32), 4095);
    let mut delay2 = LinearDelay::<S<f32>>::new(S(0.5f32), 4095);

    assert_eq!(delay1.next_out(), S(0f32));
    assert_eq!(delay2.next_out(), S(0f32));

    assert!((delay1.get_delay().0 - 0f32).abs() < EPSILON);
    assert!((delay2.get_delay().0 - 0.5f32).abs() < EPSILON);
    assert_eq!(delay1.get_max_delay(), delay2.get_max_delay());

    delay1.set_delay(S(2.65f32));
    assert!((delay1.get_delay().0 - 2.65f32).abs() < EPSILON);
}

#[test]
fn linear_delay_new_beyond_bounds() {
    let delay1 = LinearDelay::<S<f32>>::new(S(2000f32), 1000);
    assert!((delay1.get_delay().0 - delay1.get_max_delay() as f32).abs() < EPSILON);

    let delay2 = LinearDelay::<S<f32>>::new(S(-2000f32), 1000);
    assert!((delay2.get_delay().0 - 0f32).abs() < EPSILON);
}

#[test]
fn linear_delay_set_delay() {
    let max_delay = 1000;
    let mut delay = LinearDelay::<S<f32>>::new(S(500f32), max_delay);

    delay.set_delay(S(2000f32));
    assert!((delay.get_delay().0 - max_delay as f32).abs() < EPSILON);

    delay.set_delay(S(-2000f32));
    assert!((delay.get_delay().0 - 0f32).abs() < EPSILON);
}

#[test]
fn linear_delay_tick() {
    // No interpolation case
    let mut input = vec![0f32; 5];
    input[0] = 1f32;
    let mut expected = vec![0f32; 5];
    expected[4] = 1f32;
    let mut delay1 = LinearDelay::<S<f32>>::new(S(4f32), 4095);

    for (i, sample) in input.iter().enumerate() {
        assert!((expected[i] - delay1.tick(S(*sample)).0).abs() < EPSILON);
    }

    // Interpolation case
    let mut delay2 = LinearDelay::<S<f32>>::new(S(2.5f32), 4095);
    expected = vec![0f32; 5];
    expected[2] = 0.5f32;
    expected[3] = 0.5f32;

    for (i, sample) in input.iter().enumerate() {
        assert!((expected[i] - delay2.tick(S(*sample)).0).abs() < EPSILON);
    }
}

#[test]
fn linear_delay_tap_out() {
    let input = vec![0f32, 0.25f32, 0.5f32, 0.75f32];
    let expected = vec![0.75f32, 0.5f32, 0.25f32, 0f32];
    let mut delay = LinearDelay::<S<f32>>::new(S(4f32), 4095);

    for sample in input.iter() {
        delay.tick(S(*sample));
        assert_eq!(S(*sample), delay.tap_out(0));
    }

    for (i, sample) in expected.iter().enumerate() {
        assert_eq!(S(*sample), delay.tap_out(i));
    }
}

#[test]
fn linear_delay_tap_in() {
    let input = vec![0f32, 0.25f32, 0.5f32, 0.75f32];
    let expected = vec![0.75f32, 0.5f32, 0.25f32, 0f32];
    let mut delay = LinearDelay::<S<f32>>::new(S(4f32), 4095);

    for (i, sample) in input.iter().enumerate() {
        delay.tap_in(S(*sample), i);
    }

    for sample in expected.iter() {
        assert_eq!(S(*sample), delay.tick(S(0f32)));
    }
}

#[test]
fn linear_delay() {
    // Single sample delay
    let mut delay = LinearDelay::new(S(1f32), 4);
    assert!((delay.tick(S(1f32)).0 - 0f32).abs() < EPSILON);
    assert!((delay.tick(S(0f32)).0 - 1f32).abs() < EPSILON);
}

#[test]
fn linear_delay_of_zero_gives_back_its_input() {
    let mut delay = LinearDelay::new(S(0f32), 8);
    for value in [0.5f32, -0.25f32, 3f32, 0f32, -7.5f32] {
        assert_eq!(delay.tick(S(value)), S(value));
        assert_eq!(delay.last_out(), S(value));
    }
}

#[test]
fn linear_delay_weighs_the_two_cells_about_the_delay() {
    let mut delay = LinearDelay::new(S(1.25f32), 7);
    let input = [4f32, 8f32, -2f32, 0f32, 1f32, 6f32];
    let mut output = Vec::new();
    for sample in input.iter() {
        output.push(delay.tick(S(*sample)).0);
    }
    // A delay of 1.25 gives 0.75 of the sample one tick back and 0.25 of
    // the sample two ticks back.
    assert_eq!(output[0], 0f32);
    assert_eq!(output[1], 0.75f32 * 4f32);
    assert_eq!(output[2], 0.25f32 * 4f32 + 0.75f32 * 8f32);
    assert_eq!(output[3], 0.25f32 * 8f32 + 0.75f32 * -2f32);
    assert_eq!(output[4], 0.25f32 * -2f32 + 0.75f32 * 0f32);
    assert_eq!(output[5], 0.25f32 * 0f32 + 0.75f32 * 1f32);
}

#[test]
fn linear_delay_wraps_the_second_cell_to_the_first() {
    // A buffer of four cells: when the read pointer is at the last cell,
    // the second cell of the interpolation is cell zero.
    let mut delay = LinearDelay::new(S(1.5f32), 3);
    let input = [2f32, 4f32, 6f32, 8f32, 10f32, 12f32];
    let expected = [0f32, 1f32, 3f32, 5f32, 7f32, 9f32];
    for (sample, out) in input.iter().zip(expected.iter()) {
        assert_eq!(delay.tick(S(*sample)), S(*out));
    }
}

#[test]
fn linear_delay_keeps_next_out_until_the_next_tick() {
    let mut delay = LinearDelay::new(S(1f32), 4);
    delay.tick(S(3f32));
    assert_eq!(delay.next_out(), S(3f32));
    // A write at the tap that is due does not reach the value that is kept.
    delay.tap_in(S(5f32), 0);
    assert_eq!(delay.next_out(), S(3f32));
    assert_eq!(delay.tick(S(7f32)), S(3f32));
    // It is computed anew after the tick.
    assert_eq!(delay.next_out(), S(7f32));
}

#[test]
fn linear_delay_add_to_gives_the_sum() {
    let mut delay = LinearDelay::new(S(2f32), 5);
    delay.tick(S(1.5f32));
    assert_eq!(delay.add_to(S(2.25f32), 0), S(3.75f32));
    assert_eq!(delay.tap_out(0), S(3.75f32));
}

#[test]
fn linear_delay_tap_in_then_tap_out_gives_the_value() {
    let mut delay = LinearDelay::new(S(2f32), 5);
    for i in 0..4 {
        delay.tick(S(i as f32));
    }
    for tap in [0usize, 1, 2, 5, 6, 17] {
        delay.tap_in(S(100f32 + tap as f32), tap);
        assert_eq!(delay.tap_out(tap), S(100f32 + tap as f32));
    }
}

#[test]
fn linear_delay_clear_and_set_max_delay() {
    let mut delay = LinearDelay::new(S(1f32), 2);
    delay.tick(S(1f32));
    delay.tick(S(2f32));
    delay.set_max_delay(1);
    assert_eq!(delay.get_max_delay(), 2);
    delay.set_max_delay(6);
    assert_eq!(delay.get_max_delay(), 6);
    assert_eq!(delay.tap_out(0), S(2f32));
    assert_eq!(delay.tap_out(1), S(1f32));
    assert_eq!(delay.tap_out(2), S(0f32));

    delay.clear();
    assert_eq!(delay.last_out(), S(0f32));
    for tap in 0..7 {
        assert_eq!(delay.tap_out(tap), S(0f32));
    }
}

#[test]
fn linear_delay_takes_a_delay_that_is_no_number_as_it_comes() {
    let mut delay = LinearDelay::new(S(NAN), 4);
    assert!(delay.get_delay().0.is_nan());
    assert!(delay.tick(S(1f32)).0.is_nan());
    delay.set_delay(S(1f32));
    assert_eq!(delay.tick(S(2f32)), S(1f32));
}

// Biquads

#[test]
fn biquad_tick() {
    let input = vec![0.55f32, -0.55f32, 0.55f32, -0.55f32, 0.25f32];
    let expected = vec![
        0.275_000_000_000f32,
        -0.110_000_000_000f32,
        0.214_500_000_000f32,
        -0.251_900_000_000f32,
        0.098_930_000_000f32,
    ];
    let mut biquad = Biquad1::new();
    for sample in input.iter() {
        assert!((biquad.tick(S(*sample)).0 - sample).abs() < EPSILON);
    }
    biquad.clear();
    biquad.set_coefficients(S(0.5f32), S(0.4f32), S(0.3f32), S(0.2f32), S(0.1f32));
    for i in 0..input.len() {
        let output = biquad.tick(S(input[i])).0;
        println!("{:.12} - {:.12} = {:.12}", expected[i], output, expected[i] - output);
        assert!((expected[i] - output).abs() < EPSILON);
    }
}

#[test]
fn biquad_tick_form2() {
    let input = vec![0.55f32, -0.55f32, 0.55f32, -0.55f32, 0.25f32];
    let expected = vec![
        0.275_000_000_000f32,
        -0.110_000_000_000f32,
        0.214_500_000_000f32,
        -0.251_900_000_000f32,
        0.098_930_000_000f32,
    ];
    let mut biquad = Biquad2::new();
    for sample in input.iter() {
        assert!((biquad.tick(S(*sample)).0 - sample).abs() < EPSILON);
    }
    biquad.clear();
    biquad.set_coefficients(S(0.5f32), S(0.4f32), S(0.3f32), S(0.2f32), S(0.1f32));
    for i in 0..input.len() {
        let output = biquad.tick(S(input[i])).0;
        println!("{:.12} - {:.12} = {:.12}", expected[i], output, expected[i] - output);
        assert!((expected[i] - output).abs() < EPSILON);
    }
}

#[test]
fn biquad_matches_the_difference_equation_in_double_precision() {
    let input = [0.55f64, -0.55f64, 0.55f64, -0.55f64, 0.25f64];
    let expected = [0.275f64, -0.11f64, 0.2145f64, -0.2519f64, 0.09893f64];
    let (b0, b1, b2, a1, a2) = (0.5f64, 0.4f64, 0.3f64, 0.2f64, 0.1f64);

    let mut form1 = Biquad1::new();
    let mut form2 = Biquad2::new();
    form1.set_coefficients(S(b0), S(b1), S(b2), S(a1), S(a2));
    form2.set_coefficients(S(b0), S(b1), S(b2), S(a1), S(a2));

    let (mut x_z1, mut x_z2, mut y_z1, mut y_z2) = (0f64, 0f64, 0f64, 0f64);
    for i in 0..input.len() {
        let x = input[i];
        let y = b0 * x + b1 * x_z1 + b2 * x_z2 - a1 * y_z1 - a2 * y_z2;
        x_z2 = x_z1;
        x_z1 = x;
        y_z2 = y_z1;
        y_z1 = y;

        // Direct form 1 is that equation, operation for operation.
        assert_eq!(form1.process(S(x)), S(y));
        assert_eq!(form1.last_out(), S(y));
        assert!((form2.process(S(x)).0 - y).abs() < 1e-10f64);
        assert!((y - expected[i]).abs() < 1e-10f64);
    }
}

#[test]
fn biquad_clear_keeps_the_coefficients() {
    let mut biquad = Biquad1::new();
    biquad.set_coefficients(S(0.5f32), S(0.4f32), S(0.3f32), S(0.2f32), S(0.1f32));
    let first = biquad.process(S(0.55f32));
    biquad.process(S(-0.55f32));
    biquad.clear();
    assert_eq!(biquad.last_out(), S(0f32));
    assert_eq!(biquad.b0, S(0.5f32));
    assert_eq!(biquad.a2, S(0.1f32));
    assert_eq!(biquad.process(S(0.55f32)), first);
}

#[test]
fn biquad() {
    let mut biquad = Biquad1::new();
    assert!((biquad.tick(S(1f32)).0 - 1f32).abs() < EPSILON);
}

// One pole

#[test]
fn one_pole_process() {
    let input = vec![0.55f32, -0.55f32, 0.55f32, -0.55f32, 0.25f32];
    let expected = vec![
        0.275_000_000_000f32,
        -0.302_500_000_000f32,
        0.305_250_000_000f32,
        -0.305_525_000_000f32,
        0.155_552_500_000f32,
    ];
    let mut filter = OnePole::new();

    for sample in input.iter() {
        assert!((filter.process(S(*sample)).0 - sample).abs() < EPSILON);
    }

    filter.clear();
    filter.set_coefficients(S(0.5f32), S(0.1f32));

    for i in 0..input.len() {
        let output = filter.process(S(input[i])).0;
        println!("{:.12} - {:.12} = {:.12}", expected[i], output, expected[i] - output);
        assert!((expected[i] - output).abs() < EPSILON);
    }
}

#[test]
fn one_pole_process_block() {
    let input = vec![0.55f32, -0.55f32, 0.55f32, -0.55f32, 0.25f32];
    let expected = vec![
        0.275_000_000_000f32,
        -0.302_500_000_000f32,
        0.305_250_000_000f32,
        -0.305_525_000_000f32,
        0.155_552_500_000f32,
    ];
    let mut filter = OnePole::new();

    let mut initial_input = samples(&input);
    let mut last_processed = filter.process_block(&mut initial_input);
    assert!((last_processed.0 - input.last().unwrap()).abs() < EPSILON);

    filter.clear();
    filter.set_coefficients(S(0.5f32), S(0.1f32));

    let mut actual = samples(&input);
    last_processed = filter.process_block(&mut actual);
    assert!((last_processed.0 - expected.last().unwrap()).abs() < EPSILON);

    for i in 0..input.len() {
        println!("{:.12} - {:.12} = {:.12}", expected[i], actual[i].0, expected[i] - actual[i].0);
        assert!((expected[i] - actual[i].0).abs() < EPSILON);
    }
}

#[test]
fn one_pole() {
    let mut one_pole = OnePole::new();
    assert!((one_pole.tick(S(1f32)).0 - 1f32).abs() < EPSILON);
}

// One zero

#[test]
fn one_zero_process() {
    let input = vec![0.55f32, -0.55f32, 0.55f32, -0.55f32, 0.25f32];
    let expected = vec![
        -0.165_000_000_000f32,
        0.605_000_000_000f32,
        -0.605_000_000_000f32,
        0.605_000_000_000f32,
        -0.515_000_000_000f32,
    ];
    let mut filter = OneZero::new();

    for sample in input.iter() {
        assert!((filter.process(S(*sample)).0 - sample).abs() < EPSILON);
    }

    filter.clear();
    filter.set_coefficients(S(-0.3f32), S(0.8f32));

    for i in 0..input.len() {
        let output = filter.process(S(input[i])).0;
        println!("{:.12} - {:.12} = {:.12}", expected[i], output, expected[i] - output);
        assert!((expected[i] - output).abs() < EPSILON);
    }
}

#[test]
fn one_zero_process_block() {
    let input = vec![0.55f32, -0.55f32, 0.55f32, -0.55f32, 0.25f32];
    let expected = vec![
        -0.165_000_000_000f32,
        0.605_000_000_000f32,
        -0.605_000_000_000f32,
        0.605_000_000_000f32,
        -0.515_000_000_000f32,
    ];
    let mut filter = OneZero::new();

    let mut initial_input = samples(&input);
    let mut last_processed = filter.process_block(&mut initial_input);
    assert!((last_processed.0 - input.last().unwrap()).abs() < EPSILON);

    filter.clear();
    filter.set_coefficients(S(-0.3f32), S(0.8f32));

    let mut actual = samples(&input);
    last_processed = filter.process_block(&mut actual);
    assert!((last_processed.0 - expected.last().unwrap()).abs() < EPSILON);

    for i in 0..input.len() {
        println!("{:.12} - {:.12} = {:.12}", expected[i], actual[i].0, expected[i] - actual[i].0);
        assert!((expected[i] - actual[i].0).abs() < EPSILON);
    }
}

#[test]
fn one_zero_clear_keeps_the_last_output() {
    let mut filter = OneZero::new();
    filter.set_coefficients(S(-0.3f32), S(0.8f32));
    let output = filter.process(S(0.55f32));
    filter.clear();
    assert_eq!(filter.last_out(), output);
    // The delayed input is gone: the next output is `b0` times the input.
    assert_eq!(filter.process(S(2f32)), S(-0.3f32 * 2f32 + 0.8f32 * 0f32));
}

#[test]
fn one_zero() {
    let mut one_zero = OneZero::new();
    assert!((one_zero.tick(S(1f32)).0 - 1f32).abs() < EPSILON);
}

// Two pole

#[test]
fn two_pole_process() {
    let input = vec![0.55f32, -0.55f32, 0.55f32, -0.55f32];
    let expected = vec![
        0.495_000_000_000f32,
        -0.594_000_000_000f32,
        1.257_300_000_000f32,
        -1.518_660_000_000f32,
    ];
    let mut filter = TwoPole::new();

    for sample in input.iter() {
        assert!((filter.process(S(*sample)).0 - sample).abs() <= EPSILON);
    }

    filter.clear();
    filter.set_coefficients(S(0.9f32), S(0.2), S(-1.3f32));

    for i in 0..input.len() {
        let output = filter.process(S(input[i])).0;
        println!("{:.12} - {:.12} = {:.12}", expected[i], output, expected[i] - output);
        assert!((expected[i] - output).abs() <= EPSILON);
    }
}

#[test]
fn two_pole_process_block() {
    let input = vec![0.55f32, -0.55f32, 0.55f32, -0.55f32];
    let expected = vec![
        0.495_000_000_000f32,
        -0.594_000_000_000f32,
        1.257_300_000_000f32,
        -1.518_660_000_000f32,
    ];
    let mut filter = TwoPole::new();

    let mut initial_input = samples(&input);
    let mut last_processed = filter.process_block(&mut initial_input);
    assert!((last_processed.0 - input.last().unwrap()).abs() <= EPSILON);

    filter.clear();
    filter.set_coefficients(S(0.9f32), S(0.2), S(-1.3f32));

    let mut actual = samples(&input);

    last_processed = filter.process_block(&mut actual);
    assert!((last_processed.0 - expected.last().unwrap()).abs() <= EPSILON);

    for i in 0..input.len() {
        println!("{:.12} - {:.12} = {:.12}", expected[i], actual[i].0, expected[i] - actual[i].0);
        assert!((expected[i] - actual[i].0).abs() <= EPSILON);
    }
}

#[test]
fn two_pole() {
    let mut two_pole = TwoPole::new();
    assert!((two_pole.tick(S(1f32)).0 - 1f32).abs() < EPSILON);
}

// Two zero

#[test]
fn two_zero_process() {
    let input = vec![0.55f32, -0.55f32, 0.55f32, -0.55f32, 0.25f32];
    let expected = vec![
        0.495_000_000_000f32,
        -0.605_000_000_000f32,
        1.320_000_000_000f32,
        -1.320_000_000_000f32,
        1.050_000_000_000f32,
    ];
    let mut filter = TwoZero::new();

    for sample in input.iter() {
        assert!((filter.process(S(*sample)).0 - sample).abs() <= EPSILON);
    }

    filter.clear();
    filter.set_coefficients(S(0.9f32), S(-0.2), S(1.3f32));

    for i in 0..input.len() {
        let output = filter.process(S(input[i])).0;
        println!("{:.12} - {:.12} = {:.12}", expected[i], output, expected[i] - output);
        assert!((expected[i] - output).abs() <= EPSILON);
    }
}

#[test]
fn two_zero_process_block() {
    let input = vec![0.55f32, -0.55f32, 0.55f32, -0.55f32, 0.25f32];
    let expected = vec![
        0.495_000_000_000f32,
        -0.605_000_000_000f32,
        1.320_000_000_000f32,
        -1.320_000_000_000f32,
        1.050_000_000_000f32,
    ];
    let mut filter = TwoZero::new();

    let mut initial_input = samples(&input);
    let mut last_processed = filter.process_block(&mut initial_input);
    assert!((last_processed.0 - input.last().unwrap()).abs() <= EPSILON);

    filter.clear();
    filter.set_coefficients(S(0.9f32), S(-0.2), S(1.3f32));

    let mut actual = samples(&input);
    last_processed = filter.process_block(&mut actual);
    assert!((last_processed.0 - expected.last().unwrap()).abs() <= EPSILON);

    for i in 0..input.len() {
        println!("{:.12} - {:.12} = {:.12}", expected[i], actual[i].0, expected[i] - actual[i].0);
        assert!((expected[i] - actual[i].0).abs() <= EPSILON);
    }
}

#[test]
fn two_zero() {
    let mut two_zero = TwoZero::new();
    assert!((two_zero.tick(S(1f32)).0 - 1f32).abs() < EPSILON);
}

// Every filter

#[test]
fn process_block_is_process_on_each_sample() {
    let input = [0.55f32, -0.55f32, 0.55f32, -0.55f32, 0.25f32, 0f32, 1f32];

    let mut one_by_one = Biquad1::new();
    let mut at_once = Biquad1::new();
    one_by_one.set_coefficients(S(0.5f32), S(0.4f32), S(0.3f32), S(0.2f32), S(0.1f32));
    at_once.set_coefficients(S(0.5f32), S(0.4f32), S(0.3f32), S(0.2f32), S(0.1f32));

    let expected: Vec<S<f32>> = input.iter().map(|x| one_by_one.process(S(*x))).collect();
    let mut block = samples(&input);
    let last = at_once.process_block(&mut block);

    assert_eq!(block, expected);
    assert_eq!(last, expected[input.len() - 1]);
    assert_eq!(at_once.last_out(), one_by_one.last_out());
    // The two filters are in the same state: they go on alike.
    assert_eq!(at_once.process(S(0.3f32)), one_by_one.process(S(0.3f32)));

    let mut single = vec![S(0.25f32)];
    let mut delay = LinearDelay::new(S(0f32), 2);
    assert_eq!(delay.process_block(&mut single), S(0.25f32));
    assert_eq!(single, vec![S(0.25f32)]);
}

#[test]
fn filters_give_back_finite_input_until_coefficients_are_set() {
    let input = [1f32, -1f32, 0.5f32, 0f32, -0f32, 3.0e38f32, -3.0e38f32, 1.0e-40f32, 7f32];

    let mut one_pole = OnePole::new();
    let mut one_zero = OneZero::new();
    let mut two_pole = TwoPole::new();
    let mut two_zero = TwoZero::new();
    let mut biquad1 = Biquad1::new();
    let mut biquad2 = Biquad2::new();
    let mut low_pass = LowPass::new();
    let mut low_shelf = LowShelf::new();
    for x in input.iter() {
        assert_eq!(one_pole.process(S(*x)), S(*x));
        assert_eq!(one_zero.process(S(*x)), S(*x));
        assert_eq!(two_pole.process(S(*x)), S(*x));
        assert_eq!(two_zero.process(S(*x)), S(*x));
        assert_eq!(biquad1.process(S(*x)), S(*x));
        assert_eq!(biquad2.process(S(*x)), S(*x));
        assert_eq!(low_pass.process(S(*x)), S(*x));
        assert_eq!(low_shelf.process(S(*x)), S(*x));
    }
}

#[test]
fn leaky_integrator_gives_back_its_input_while_the_difference_is_finite() {
    let mut integrator = LeakyIntegrator::new();
    for x in [1f32, -1f32, 0.5f32, 0f32, 1.0e38f32, -1.0e38f32, 7f32] {
        assert_eq!(integrator.process(S(x)), S(x));
    }

    // The difference of the last output and the input overflows: zero
    // times infinity is no number.
    integrator.process(S(3.0e38f32));
    assert!(integrator.process(S(-3.0e38f32)).0.is_nan());
}

#[test]
fn filters_pass_on_what_is_no_number() {
    let mut biquad = Biquad1::new();
    assert!(biquad.process(S(NAN)).0.is_nan());
    let mut one_pole = OnePole::new();
    one_pole.set_coefficients(S(0.5f32), S(0.1f32));
    assert_eq!(one_pole.process(S(INFINITY)), S(INFINITY));
    assert_eq!(one_pole.process(S(0f32)), S(NEG_INFINITY));
}

#[test]
fn filters_follow_their_difference_equations() {
    // Coefficients and samples that the arithmetic takes without rounding.
    let input = [1f32, 0.5f32, -0.25f32, 2f32];

    // y[n] = 0.5 x[n] - 0.25 y[n-1]
    let mut one_pole = OnePole::new();
    one_pole.set_coefficients(S(0.5f32), S(0.25f32));
    let expected = [0.5f32, 0.125f32, -0.15625f32, 1.0390625f32];
    for (x, y) in input.iter().zip(expected.iter()) {
        assert_eq!(one_pole.process(S(*x)), S(*y));
        assert_eq!(one_pole.last_out(), S(*y));
    }

    // y[n] = 0.5 x[n] + 0.25 x[n-1]
    let mut one_zero = OneZero::new();
    one_zero.set_coefficients(S(0.5f32), S(0.25f32));
    let expected = [0.5f32, 0.5f32, 0f32, 0.9375f32];
    for (x, y) in input.iter().zip(expected.iter()) {
        assert_eq!(one_zero.process(S(*x)), S(*y));
        assert_eq!(one_zero.last_out(), S(*y));
    }

    // y[n] = 0.5 x[n] - 0.25 y[n-1] - 0.5 y[n-2]
    let mut two_pole = TwoPole::new();
    two_pole.set_coefficients(S(0.5f32), S(0.25f32), S(0.5f32));
    let expected = [0.5f32, 0.125f32, -0.40625f32, 1.0390625f32];
    for (x, y) in input.iter().zip(expected.iter()) {
        assert_eq!(two_pole.process(S(*x)), S(*y));
        assert_eq!(two_pole.last_out(), S(*y));
    }

    // y[n] = 0.5 x[n] + 0.25 x[n-1] + 2 x[n-2]
    let mut two_zero = TwoZero::new();
    two_zero.set_coefficients(S(0.5f32), S(0.25f32), S(2f32));
    let expected = [0.5f32, 0.5f32, 2f32, 1.9375f32];
    for (x, y) in input.iter().zip(expected.iter()) {
        assert_eq!(two_zero.process(S(*x)), S(*y));
        assert_eq!(two_zero.last_out(), S(*y));
    }

    // y[n] = 0.5 x[n] + 0.25 x[n-1] + 2 x[n-2] - 0.5 y[n-1] - 0.25 y[n-2],
    // in both forms.
    let expected = [0.5f32, 0.25f32, 1.75f32, 1f32];
    let mut form1 = Biquad1::new();
    let mut form2 = Biquad2::new();
    form1.set_coefficients(S(0.5f32), S(0.25f32), S(2f32), S(0.5f32), S(0.25f32));
    form2.set_coefficients(S(0.5f32), S(0.25f32), S(2f32), S(0.5f32), S(0.25f32));
    for (x, y) in input.iter().zip(expected.iter()) {
        assert_eq!(form1.process(S(*x)), S(*y));
        assert_eq!(form2.process(S(*x)), S(*y));
        assert_eq!(form1.last_out(), S(*y));
        assert_eq!(form2.last_out(), S(*y));
    }
}

// Cookbook filters

#[test]
fn lowpass_new() {
    let sample_rate = 44_100f32;
    let cutoff = 1_200f32;
    let q = 1f32;

    let mut filter = LowPass::new();
    filter.set_coefficients(S(sample_rate), S(cutoff), S(q));

    let w0 = 2f32 * PI * cutoff / sample_rate;
    let cos_w0 = w0.cos();
    let alpha = w0.sin() / (2f32 * q);

    assert!((0.170_971_028_767f32 - w0).abs() <= EPSILON);
    assert!((0.985_420_021_355f32 - cos_w0).abs() <= EPSILON);
    assert!((0.085_069_650_158f32 - alpha).abs() <= EPSILON);
    assert!((0.006_718_452_886f32 - filter.biquad.b0.0).abs() <= EPSILON);
    assert!((0.013_436_905_772f32 - filter.biquad.b1.0).abs() <= EPSILON);
    assert!((0.006_718_452_886f32 - filter.biquad.b2.0).abs() <= EPSILON);
    assert!((-1.816_325_839_012f32 - filter.biquad.a1.0).abs() <= EPSILON);
    assert!((0.843_199_650_555f32 - filter.biquad.a2.0).abs() <= EPSILON);
}

#[test]
fn lowpass_process() {
    let input = vec![0.5f32, 0.4f32, 0.3f32, 0.2f32, 0.1f32];
    let expected = vec![
        0.088_763_995_825f32,
        0.293_767_078_666f32,
        0.414_231_561_951f32,
        0.359_573_380_268f32,
        0.234_253_200_384f32,
    ];

    let mut filter = LowPass::new();

    // No signal change on initialization
    let mut actual: f32;
    for i in 0..input.len() {
        actual = filter.process(S(input[i])).0;
        assert!((input[i] - actual).abs() <= EPSILON);
    }

    filter.clear();
    filter.set_coefficients(S(44_100f32), S(8_000f32), S(0.71f32));

    for i in 0..input.len() {
        actual = filter.process(S(input[i])).0;
        assert!((expected[i] - actual).abs() <= EPSILON);
    }
}

#[test]
fn highpass_new() {
    let sample_rate = 44_100f32;
    let cutoff = 1_200f32;
    let q = 1f32;

    let mut filter = HighPass::new();
    filter.set_coefficients(S(sample_rate), S(cutoff), S(q));

    let w0 = 2f32 * PI * cutoff / sample_rate;
    let cos_w0 = w0.cos();
    let alpha = w0.sin() / (2f32 * q);

    assert!((0.170_971_028_767f32 - w0).abs() <= EPSILON);
    assert!((0.985_420_021_355f32 - cos_w0).abs() <= EPSILON);
    assert!((0.085_069_650_158f32 - alpha).abs() <= EPSILON);
    assert!((0.914_881_372_392f32 - filter.biquad.b0.0).abs() <= EPSILON);
    assert!((-1.829_762_744_784f32 - filter.biquad.b1.0).abs() <= EPSILON);
    assert!((0.914_881_372_392f32 - filter.biquad.b2.0).abs() <= EPSILON);
    assert!((-1.816_325_839_012f32 - filter.biquad.a1.0).abs() <= EPSILON);
    assert!((0.843_199_650_555f32 - filter.biquad.a2.0).abs() <= EPSILON);
}

#[test]
fn highpass_tick() {
    let input = vec![0.5f32, 0.4f32, 0.3f32, 0.2f32, 0.1f32];
    let expected = vec![
        0.216_146_415_734f32,
        -0.149_242_684_917f32,
        -0.123_518_332_014f32,
        -0.030_156_347_137f32,
        0.011_764_215_888f32,
    ];

    let mut filter = HighPass::new();

    // No signal change on initialization
    let mut actual: f32;
    for i in 0..input.len() {
        actual = filter.tick(S(input[i])).0;
        assert!((input[i] - actual).abs() <= EPSILON);
    }

    filter.clear();
    filter.set_coefficients(S(44_100f32), S(8_000f32), S(0.71f32));

    for i in 0..input.len() {
        actual = filter.tick(S(input[i])).0;
        assert!((expected[i] - actual).abs() <= EPSILON);
    }
}

#[test]
fn lowpass() {
    let mut filter = LowPass::new();
    filter.set_coefficients(S(44_100f32), S(12_000f32), S(0.71f32));
    assert!(filter.tick(S(0.1f32)) != S(0.1f32));
}

#[test]
fn highpass() {
    let mut filter = HighPass::new();
    filter.set_coefficients(S(44_100f32), S(12_000f32), S(0.71f32));
    assert!(filter.tick(S(0.1f32)) != S(0.1f32));
}

#[test]
fn bandpass1() {
    let mut filter = BandPass1::new();
    filter.set_coefficients(S(44_100f32), S(12_000f32), S(0.71f32));
    assert!(filter.tick(S(0.1f32)) != S(0.1f32));
}

#[test]
fn bandpass2() {
    let mut filter = BandPass2::new();
    filter.set_coefficients(S(44_100f32), S(12_000f32), S(0.71f32));
    assert!(filter.tick(S(0.1f32)) != S(0.1f32));
}

#[test]
fn bandstop() {
    let mut filter = BandStop::new();
    filter.set_coefficients(S(44_100f32), S(12_000f32), S(0.71f32));
    assert!(filter.tick(S(0.1f32)) != S(0.1f32));
}

#[test]
fn lowshelf() {
    let mut filter = LowShelf::new();
    filter.set_coefficients(S(44_100f32), S(12_000f32), S(3f32), S(0.71f32));
    assert!(filter.tick(S(0.1f32)) != S(0.1f32));
}

#[test]
fn highshelf() {
    let mut filter = HighShelf::new();
    filter.set_coefficients(S(44_100f32), S(12_000f32), S(3f32), S(0.71f32));
    assert!(filter.tick(S(0.1f32)) != S(0.1f32));
}

#[test]
fn allpass() {
    let mut filter = AllPass::new();
    filter.set_coefficients(S(44_100f32), S(12_000f32), S(0.71f32));
    assert!(filter.tick(S(0.1f32)) != S(0.1f32));
}

#[test]
fn peak() {
    let mut filter = Peak::new();
    filter.set_coefficients(S(44_100f32), S(12_000f32), S(3f32), S(0.71f32));
    assert!(filter.tick(S(0.1f32)) != S(0.1f32));
}

/// The cosine of the angular frequency and the bandwidth term for `q`, in
/// double precision.
fn prototype(sample_rate: f64, frequency: f64, q: f64) -> (f64, f64) {
    let w0 = 2f64 * std::f64::consts::PI * frequency / sample_rate;
    (w0.cos(), w0.sin() / (2f64 * q))
}

/// The cosine of the angular frequency and the bandwidth term of a shelf,
/// in double precision.
fn shelf_prototype(sample_rate: f64, frequency: f64, a: f64, slope: f64) -> (f64, f64) {
    let w0 = 2f64 * std::f64::consts::PI * frequency / sample_rate;
    (w0.cos(), w0.sin() / 2f64 * ((a + 1f64 / a) * (1f64 / slope - 1f64) + 2f64).sqrt())
}

/// Tells whether the five coefficients are the expected ones.
fn assert_coefficients(actual: [S<f64>; 5], expected: [f64; 5]) {
    for i in 0..5 {
        assert!(
            (actual[i].0 - expected[i]).abs() < 1e-12f64,
            "coefficient {}: {} is not {}",
            i,
            actual[i].0,
            expected[i]
        );
    }
}

#[test]
fn cookbook_designs_with_a_quality_factor() {
    let (sample_rate, frequency, q) = (48_000f64, 3_000f64, 0.9f64);
    let (cos_w0, alpha) = prototype(sample_rate, frequency, q);
    let a0 = 1f64 + alpha;

    let mut low_pass = LowPass::new();
    low_pass.set_coefficients(S(sample_rate), S(frequency), S(q));
    let b = &low_pass.biquad;
    assert_coefficients(
        [b.b0, b.b1, b.b2, b.a1, b.a2],
        [
            (1f64 - cos_w0) / 2f64 / a0,
            (1f64 - cos_w0) / a0,
            (1f64 - cos_w0) / 2f64 / a0,
            -2f64 * cos_w0 / a0,
            (1f64 - alpha) / a0,
        ],
    );

    let mut high_pass = HighPass::new();
    high_pass.set_coefficients(S(sample_rate), S(frequency), S(q));
    let b = &high_pass.biquad;
    assert_coefficients(
        [b.b0, b.b1, b.b2, b.a1, b.a2],
        [
            (1f64 + cos_w0) / 2f64 / a0,
            (-1f64 - cos_w0) / a0,
            (1f64 + cos_w0) / 2f64 / a0,
            -2f64 * cos_w0 / a0,
            (1f64 - alpha) / a0,
        ],
    );

    let mut band_pass1 = BandPass1::new();
    band_pass1.set_coefficients(S(sample_rate), S(frequency), S(q));
    let b = &band_pass1.biquad;
    assert_coefficients(
        [b.b0, b.b1, b.b2, b.a1, b.a2],
        [q * alpha / a0, 0f64, -q * alpha / a0, -2f64 * cos_w0 / a0, (1f64 - alpha) / a0],
    );

    let mut band_pass2 = BandPass2::new();
    band_pass2.set_coefficients(S(sample_rate), S(frequency), S(q));
    let b = &band_pass2.biquad;
    assert_coefficients(
        [b.b0, b.b1, b.b2, b.a1, b.a2],
        [alpha / a0, 0f64, -alpha / a0, -2f64 * cos_w0 / a0, (1f64 - alpha) / a0],
    );

    let mut band_stop = BandStop::new();
    band_stop.set_coefficients(S(sample_rate), S(frequency), S(q));
    let b = &band_stop.biquad;
    assert_coefficients(
        [b.b0, b.b1, b.b2, b.a1, b.a2],
        [1f64 / a0, -2f64 * cos_w0 / a0, 1f64 / a0, -2f64 * cos_w0 / a0, (1f64 - alpha) / a0],
    );

    let mut all_pass = AllPass::new();
    all_pass.set_coefficients(S(sample_rate), S(frequency), S(q));
    let b = &all_pass.biquad;
    assert_coefficients(
        [b.b0, b.b1, b.b2, b.a1, b.a2],
        [(1f64 - alpha) / a0, -2f64 * cos_w0 / a0, 1f64, -2f64 * cos_w0 / a0, (1f64 - alpha) / a0],
    );
}

#[test]
fn cookbook_designs_with_a_gain() {
    let (sample_rate, frequency, db_gain) = (48_000f64, 3_000f64, 6f64);
    let a = 10f64.powf(db_gain / 40f64);

    let q = 0.9f64;
    let (cos_w0, alpha) = prototype(sample_rate, frequency, q);
    let mut peak = Peak::new();
    peak.set_coefficients(S(sample_rate), S(frequency), S(db_gain), S(q));
    let a0 = 1f64 + alpha / a;
    let b = &peak.biquad;
    assert_coefficients(
        [b.b0, b.b1, b.b2, b.a1, b.a2],
        [
            (1f64 + alpha * a) / a0,
            -2f64 * cos_w0 / a0,
            (1f64 - alpha * a) / a0,
            -2f64 * cos_w0 / a0,
            (1f64 - alpha / a) / a0,
        ],
    );

    let slope = 0.8f64;
    let (cos_w0, alpha) = shelf_prototype(sample_rate, frequency, a, slope);
    let root = 2f64 * a.sqrt() * alpha;

    let mut high_shelf = HighShelf::new();
    high_shelf.set_coefficients(S(sample_rate), S(frequency), S(db_gain), S(slope));
    let a0 = (a + 1f64) - (a - 1f64) * cos_w0 + root;
    let b = &high_shelf.biquad;
    assert_coefficients(
        [b.b0, b.b1, b.b2, b.a1, b.a2],
        [
            a * ((a + 1f64) + (a - 1f64) * cos_w0 + root) / a0,
            -2f64 * a * ((a - 1f64) + (a + 1f64) * cos_w0) / a0,
            a * ((a + 1f64) + (a - 1f64) * cos_w0 - root) / a0,
            2f64 * ((a - 1f64) - (a + 1f64) * cos_w0) / a0,
            ((a + 1f64) - (a - 1f64) * cos_w0 - root) / a0,
        ],
    );

    let mut low_shelf = LowShelf::new();
    low_shelf.set_coefficients(S(sample_rate), S(frequency), S(db_gain), S(slope));
    let a0 = (a + 1f64) + (a - 1f64) * cos_w0 + root;
    let b = &low_shelf.biquad;
    assert_coefficients(
        [b.b0, b.b1, b.b2, b.a1, b.a2],
        [
            a * ((a + 1f64) - (a - 1f64) * cos_w0 + root) / a0,
            2f64 * a * ((a - 1f64) - (a + 1f64) * cos_w0) / a0,
            a * ((a + 1f64) - (a - 1f64) * cos_w0 - root) / a0,
            -2f64 * ((a - 1f64) + (a + 1f64) * cos_w0) / a0,
            ((a + 1f64) + (a - 1f64) * cos_w0 - root) / a0,
        ],
    );
}

#[test]
fn cookbook_filters_clear_their_memory_with_new_coefficients() {
    let mut filter = LowPass::new();
    filter.set_coefficients(S(44_100f32), S(8_000f32), S(0.71f32));
    let first = filter.process(S(0.5f32));
    filter.process(S(0.4f32));
    assert!(filter.last_out() != S(0f32));

    filter.set_coefficients(S(44_100f32), S(8_000f32), S(0.71f32));
    assert_eq!(filter.last_out(), S(0f32));
    assert_eq!(filter.process(S(0.5f32)), first);
}

// Decibels

#[test]
fn conversion_to_decibels() {
    /* Zero case, should map to minimum */
    assert!((util::to_db(S(0f32)).0 - -120f32).abs() < EPSILON);

    /* Below minimum */
    assert!((util::to_db(S(0.000000999f32)).0 - -120f32).abs() < EPSILON);
    assert!((util::to_db(S(0.0000001f32)).0 - -120f32).abs() < EPSILON);

    /* 20db intervals */
    assert!((util::to_db(S(1e-1f32)).0 - -20f32).abs() < EPSILON);
    assert!((util::to_db(S(1e-2f32)).0 - -40f32).abs() < EPSILON);
    assert!((util::to_db(S(1e-3f32)).0 - -60f32).abs() < EPSILON);
    assert!((util::to_db(S(1e-4f32)).0 - -80f32).abs() < EPSILON);
    assert!((util::to_db(S(1e-5f32)).0 - -100f32).abs() < EPSILON);
    assert!((util::to_db(S(1e-6f32)).0 - -120f32).abs() < EPSILON);

    /* Invalid input */
    assert!((util::to_db(S(NAN)).0 - -120f32).abs() < EPSILON);
    assert!((util::to_db(S(INFINITY)).0 - -120f32).abs() < EPSILON);
    assert!((util::to_db(S(NEG_INFINITY)).0 - -120f32).abs() < EPSILON);
}

#[test]
fn conversion_to_samples() {
    /* Below minimum */
    assert!((util::to_sample(S(-1000f32)).0 - 0f32).abs() < EPSILON);
    assert!((util::to_sample(S(-120.000001f32)).0 - 0f32).abs() < EPSILON);

    /* Minimum (zero) case */
    assert!((util::to_sample(S(-120f32)).0 - 0f32).abs() < EPSILON);

    /* 20db intervals */
    assert!((util::to_sample(S(-20f32)).0 - 1e-1f32).abs() < EPSILON);
    assert!((util::to_sample(S(-40f32)).0 - 1e-2f32).abs() < EPSILON);
    assert!((util::to_sample(S(-60f32)).0 - 1e-3f32).abs() < EPSILON);
    assert!((util::to_sample(S(-80f32)).0 - 1e-4f32).abs() < EPSILON);
    assert!((util::to_sample(S(-100f32)).0 - 1e-5f32).abs() < EPSILON);

    /* Invalid input */
    assert!((util::to_sample(S(NAN)).0 - 0f32).abs() < EPSILON);
    assert!((util::to_sample(S(INFINITY)).0 - 0f32).abs() < EPSILON);
    assert!((util::to_sample(S(NEG_INFINITY)).0 - 0f32).abs() < EPSILON);
}

#[test]
fn conversions() {
    assert!((util::to_db(S(0f32)).0 - -120f32).abs() < EPSILON);
    assert!((util::to_sample(S(-120f32)).0 - 0f32).abs() < EPSILON);
}

#[test]
fn conversions_at_the_floor_and_above_it() {
    // At the floor the floor is given, exactly.
    assert_eq!(util::to_db(S(1e-6f32)), S(-120f32));
    assert_eq!(util::to_sample(S(-120f32)), S(0f32));

    // Above it the formulas hold.
    assert_eq!(util::to_db(S(0.5f32)), S(20f32 * 0.5f32.log10()));
    assert_eq!(util::to_db(S(2f32)), S(20f32 * 2f32.log10()));
    assert_eq!(util::to_sample(S(-6f32)), S(10f32.powf(-6f32 / 20f32)));
    assert_eq!(util::to_sample(S(6f32)), S(10f32.powf(6f32 / 20f32)));
    assert_eq!(util::to_sample(S(-119.5f32)), S(10f32.powf(-119.5f32 / 20f32)));
}

// Envelope generators

#[test]
fn ar_runs_through_its_states() {
    let mut envelope = Ar::new(S(4f32));
    assert_eq!(envelope.last_out(), S(0f32));
    // At rest a tick changes nothing.
    assert_eq!(envelope.tick(), S(0f32));

    // One second of attack at four samples a second: a quarter a tick.
    envelope.set_attack(S(1f32));
    // Half a second of release: a half a tick.
    envelope.set_release(S(0.5f32));

    envelope.gate_on();
    assert_eq!(envelope.tick(), S(0.25f32));
    assert_eq!(envelope.tick(), S(0.5f32));
    assert_eq!(envelope.tick(), S(0.75f32));
    assert_eq!(envelope.tick(), S(1f32));
    // The value stays at one while the key is down.
    assert_eq!(envelope.tick(), S(1f32));
    assert_eq!(envelope.tick(), S(1f32));

    envelope.gate_off();
    assert_eq!(envelope.tick(), S(0.5f32));
    assert_eq!(envelope.tick(), S(0f32));
    assert_eq!(envelope.tick(), S(0f32));
    assert_eq!(envelope.last_out(), S(0f32));
}

#[test]
fn ar_stops_at_its_bounds() {
    let mut envelope = Ar::new(S(10f32));
    // Rates that do not divide the span: 0.3 up, 0.7 down.
    envelope.set_attack(S(1f32 / 3f32));
    envelope.set_release(S(1f32 / 7f32));

    envelope.gate_on();
    let mut previous = 0f32;
    for _ in 0..10 {
        let value = envelope.tick().0;
        assert!(value >= previous);
        assert!(value <= 1f32);
        previous = value;
    }
    assert_eq!(previous, 1f32);

    envelope.gate_off();
    for _ in 0..10 {
        let value = envelope.tick().0;
        assert!(value <= previous);
        assert!(value >= 0f32);
        previous = value;
    }
    assert_eq!(previous, 0f32);
}

#[test]
fn ar_gate_off_at_rest_changes_nothing() {
    let mut envelope = Ar::new(S(4f32));
    envelope.set_attack(S(1f32));
    envelope.set_release(S(1f32));

    envelope.gate_off();
    assert_eq!(envelope.tick(), S(0f32));
    assert_eq!(envelope.last_out(), S(0f32));

    envelope.gate_on();
    assert_eq!(envelope.tick(), S(0.25f32));
    envelope.gate_off();
    assert_eq!(envelope.tick(), S(0f32));
    envelope.gate_off();
    assert_eq!(envelope.tick(), S(0f32));
}

#[test]
fn ar_retriggers_from_where_it_is() {
    let mut envelope = Ar::new(S(4f32));
    envelope.set_attack(S(1f32));
    envelope.set_release(S(1f32));

    envelope.gate_on();
    for _ in 0..6 {
        envelope.tick();
    }
    assert_eq!(envelope.last_out(), S(1f32));
    // A key pressed again while the value is held: the attack starts anew
    // and ends at once, at one.
    envelope.gate_on();
    assert_eq!(envelope.tick(), S(1f32));

    envelope.gate_off();
    assert_eq!(envelope.tick(), S(0.75f32));
    envelope.gate_on();
    assert_eq!(envelope.tick(), S(1f32));
}

#[test]
fn ar_reset_and_set_sample_rate_put_it_to_rest() {
    let mut envelope = Ar::new(S(4f32));
    envelope.set_attack(S(1f32));
    envelope.gate_on();
    envelope.tick();
    envelope.reset();
    assert_eq!(envelope.last_out(), S(0f32));
    assert_eq!(envelope.tick(), S(0f32));

    envelope.gate_on();
    envelope.tick();
    envelope.set_sample_rate(S(8f32));
    assert_eq!(envelope.last_out(), S(0f32));
    assert_eq!(envelope.tick(), S(0f32));
    // The rate is that of the old sample rate until the time is set again.
    envelope.gate_on();
    assert_eq!(envelope.tick(), S(0.25f32));
    envelope.reset();
    envelope.set_attack(S(1f32));
    envelope.gate_on();
    assert_eq!(envelope.tick(), S(0.125f32));
}

#[test]
fn adsr_runs_through_its_states() {
    let mut envelope = Adsr::new(S(4f32));
    assert_eq!(envelope.last_out(), S(0f32));
    assert_eq!(envelope.tick(), S(0f32));

    envelope.set_sustain(S(0.5f32));
    // A quarter a tick in attack, an eighth in decay and in release.
    envelope.set_attack(S(1f32));
    envelope.set_decay(S(1f32));
    envelope.set_release(S(1f32));

    // The target of a new envelope is zero: the attack ends on its first
    // tick, at zero, and the sustain level becomes the target.
    envelope.gate_on();
    assert_eq!(envelope.tick(), S(0f32));
    // The value is below the sustain level: it moves up to it.
    assert_eq!(envelope.tick(), S(0.125f32));
    assert_eq!(envelope.tick(), S(0.25f32));
    assert_eq!(envelope.tick(), S(0.375f32));
    assert_eq!(envelope.tick(), S(0.5f32));
    assert_eq!(envelope.tick(), S(0.5f32));

    envelope.gate_off();
    assert_eq!(envelope.tick(), S(0.375f32));
    assert_eq!(envelope.tick(), S(0.25f32));
    assert_eq!(envelope.tick(), S(0.125f32));
    assert_eq!(envelope.tick(), S(0f32));
    assert_eq!(envelope.tick(), S(0f32));

    // The target is the sustain level now: the attack goes up to it.
    envelope.gate_on();
    assert_eq!(envelope.tick(), S(0.25f32));
    assert_eq!(envelope.tick(), S(0.5f32));
    assert_eq!(envelope.tick(), S(0.5f32));
    assert_eq!(envelope.tick(), S(0.5f32));
}

#[test]
fn adsr_decays_downwards_from_above_the_sustain_level() {
    let mut envelope = Adsr::new(S(4f32));
    envelope.set_sustain(S(0.75f32));
    // A quarter a tick in attack and in decay.
    envelope.set_attack(S(1f32));
    envelope.set_decay(S(0.25f32));

    // Up to the sustain level of 0.75.
    envelope.gate_on();
    assert_eq!(envelope.tick(), S(0f32));
    assert_eq!(envelope.tick(), S(0.25f32));
    assert_eq!(envelope.tick(), S(0.5f32));
    assert_eq!(envelope.tick(), S(0.75f32));

    // The sustain level goes down to 0.25; the decay rate stays a quarter
    // a tick.
    envelope.set_sustain(S(0.25f32));
    envelope.set_decay(S(0.75f32));

    // The attack stops at its target, the old sustain level, at once.
    envelope.gate_on();
    assert_eq!(envelope.tick(), S(0.75f32));
    // The value is above the sustain level: it moves down to it.
    assert_eq!(envelope.tick(), S(0.5f32));
    assert_eq!(envelope.tick(), S(0.25f32));
    assert_eq!(envelope.tick(), S(0.25f32));
}

#[test]
fn adsr_stops_at_its_bounds() {
    let mut envelope = Adsr::new(S(10f32));
    envelope.set_sustain(S(0.8f32));
    envelope.set_attack(S(1f32 / 3f32));
    envelope.set_decay(S(1f32 / 15f32));
    envelope.set_release(S(0.8f32 / 7f32));

    envelope.gate_on();
    let mut previous = 0f32;
    for _ in 0..12 {
        let value = envelope.tick().0;
        assert!(value >= previous);
        assert!(value <= 0.8f32);
        previous = value;
    }
    assert_eq!(previous, 0.8f32);

    envelope.gate_off();
    for _ in 0..12 {
        let value = envelope.tick().0;
        assert!(value <= previous);
        assert!(value >= 0f32);
        previous = value;
    }
    assert_eq!(previous, 0f32);
}

#[test]
fn adsr_gate_off_at_rest_changes_nothing() {
    let mut envelope = Adsr::new(S(4f32));
    envelope.set_sustain(S(0.5f32));
    envelope.set_decay(S(1f32));
    envelope.set_release(S(1f32));

    envelope.gate_off();
    assert_eq!(envelope.tick(), S(0f32));
    assert_eq!(envelope.last_out(), S(0f32));

    envelope.gate_on();
    envelope.tick();
    envelope.tick();
    assert_eq!(envelope.last_out(), S(0.125f32));
    envelope.gate_off();
    assert_eq!(envelope.tick(), S(0f32));
    envelope.gate_off();
    assert_eq!(envelope.tick(), S(0f32));
}

#[test]
fn adsr_reset_and_set_sample_rate() {
    let mut envelope = Adsr::new(S(4f32));
    envelope.set_sustain(S(0.5f32));
    envelope.set_attack(S(1f32));
    envelope.set_decay(S(1f32));
    envelope.set_release(S(1f32));
    envelope.gate_on();
    envelope.tick();
    assert_eq!(envelope.tick(), S(0.125f32));

    envelope.reset();
    assert_eq!(envelope.last_out(), S(0f32));
    assert_eq!(envelope.tick(), S(0f32));

    // At twice the sample rate the rates are half as large: the attack,
    // a quarter a tick before, is an eighth a tick now.
    envelope.set_sample_rate(S(8f32));
    envelope.gate_on();
    assert_eq!(envelope.tick(), S(0.125f32));
    assert_eq!(envelope.tick(), S(0.25f32));
}

// Windows

#[test]
fn triangular_next() {
    let results = vec![
        vec![0.3333333f32, 1f32, 0.3333333f32],
        vec![0.2f32, 0.6f32, 1f32, 0.6f32, 0.2f32],
        vec![0.166667f32, 0.5f32, 0.833333f32, 0.833333f32, 0.5f32, 0.166667f32],
        vec![0.142857f32, 0.428571f32, 0.714286f32, 1f32, 0.714286f32, 0.428571f32, 0.142857f32],
    ];

    for signal in results.iter() {
        let mut window_iter = TriangularIter::<S<f32>>::new(signal.len());

        for expected in signal.iter() {
            let actual = window_iter.next().unwrap().0;
            println!("{:.6} - {:.6} = {:.6}", expected, actual, expected - actual);
            assert!((expected - actual).abs() < 1e-6f32);
        }
    }
}

#[test]
fn triangular_collect() {
    let results = vec![
        vec![0.3333333f32, 1f32, 0.3333333f32],
        vec![0.2f32, 0.6f32, 1f32, 0.6f32, 0.2f32],
        vec![0.166667f32, 0.5f32, 0.833333f32, 0.833333f32, 0.5f32, 0.166667f32],
        vec![0.142857f32, 0.428571f32, 0.714286f32, 1f32, 0.714286f32, 0.428571f32, 0.142857f32],
    ];

    for signal in results.iter() {
        let mut window_iter = TriangularIter::<S<f32>>::new(signal.len());
        let mut samples: Vec<f32> = Vec::new();
        while let Some(gain) = window_iter.next() {
            samples.push(gain.0);
        }
        assert_eq!(samples.len(), signal.len());
        for (actual, expected) in signal.iter().zip(samples.iter()) {
            println!("{:.6} - {:.6} = {:.6}", expected, actual, expected - actual);
            assert!((expected - actual).abs() < 1e-6f32);
        }
    }
}

#[test]
fn triangular_len() {
    let cases = vec![vec![1f32; 3], vec![1f32; 5], vec![1f32; 6], vec![1f32; 7]];

    for signal in cases.iter() {
        let window_iter: TriangularIter<S<f32>> = TriangularIter::new(signal.len());
        assert_eq!(signal.len(), window_iter.len());
    }
}

#[test]
fn hann_next() {
    let results = vec![
        vec![0f32, 1f32, 0f32],
        vec![0f32, 0.5f32, 1f32, 0.5f32, 0f32],
        vec![0f32, 0.345492f32, 0.904508f32, 0.904508f32, 0.345492f32, 0f32],
        vec![0f32, 0.25f32, 0.75f32, 1f32, 0.75f32, 0.25f32, 0f32],
    ];

    for signal in results.iter() {
        let mut window_iter = HannIter::<S<f32>>::new(signal.len());

        for expected in signal.iter() {
            let actual = window_iter.next().unwrap().0;
            println!("{:.6} - {:.6} = {:.6}", expected, actual, expected - actual);
            assert!((expected - actual).abs() < 1e-6f32);
        }
    }
}

#[test]
fn hann_collect() {
    let results = vec![
        vec![0f32, 1f32, 0f32],
        vec![0f32, 0.5f32, 1f32, 0.5f32, 0f32],
        vec![0f32, 0.345492f32, 0.904508f32, 0.904508f32, 0.345492f32, 0f32],
        vec![0f32, 0.25f32, 0.75f32, 1f32, 0.75f32, 0.25f32, 0f32],
    ];

    for signal in results.iter() {
        let mut window_iter = HannIter::<S<f32>>::new(signal.len());
        let mut samples: Vec<f32> = Vec::new();
        while let Some(gain) = window_iter.next() {
            samples.push(gain.0);
        }
        assert_eq!(samples.len(), signal.len());
        for (actual, expected) in signal.iter().zip(samples.iter()) {
            println!("{:.6} - {:.6} = {:.6}", expected, actual, expected - actual);
            assert!((expected - actual).abs() < 1e-6f32);
        }
    }
}

#[test]
fn hann_len() {
    let cases = vec![vec![1f32; 3], vec![1f32; 5], vec![1f32; 6], vec![1f32; 7]];

    for signal in cases.iter() {
        let window_iter: HannIter<S<f32>> = HannIter::new(signal.len());
        assert_eq!(signal.len(), window_iter.len());
    }
}

#[test]
fn hamming_next() {
    let results = vec![
        vec![0.08f32, 1f32, 0.08f32],
        vec![0.08f32, 0.54f32, 1f32, 0.54f32, 0.08f32],
        vec![0.08f32, 0.397852f32, 0.912148f32, 0.912148f32, 0.397852f32, 0.08f32],
        vec![0.08f32, 0.31f32, 0.77f32, 1f32, 0.77f32, 0.31f32, 0.08f32],
    ];

    for signal in results.iter() {
        let mut window_iter = HammingIter::<S<f32>>::new(signal.len());

        for expected in signal.iter() {
            let actual = window_iter.next().unwrap().0;
            println!("{:.6} - {:.6} = {:.6}", expected, actual, expected - actual);
            assert!((expected - actual).abs() < 1e-6f32);
        }
    }
}

#[test]
fn hamming_collect() {
    let results = vec![
        vec![0.08f32, 1f32, 0.08f32],
        vec![0.08f32, 0.54f32, 1f32, 0.54f32, 0.08f32],
        vec![0.08f32, 0.397852f32, 0.912148f32, 0.912148f32, 0.397852f32, 0.08f32],
        vec![0.08f32, 0.31f32, 0.77f32, 1f32, 0.77f32, 0.31f32, 0.08f32],
    ];

    for signal in results.iter() {
        let mut window_iter = HammingIter::<S<f32>>::new(signal.len());
        let mut samples: Vec<f32> = Vec::new();
        while let Some(gain) = window_iter.next() {
            samples.push(gain.0);
        }
        assert_eq!(samples.len(), signal.len());
        for (actual, expected) in signal.iter().zip(samples.iter()) {
            println!("{:.6} - {:.6} = {:.6}", expected, actual, expected - actual);
            assert!((expected - actual).abs() < 1e-6f32);
        }
    }
}

#[test]
fn hamming_len() {
    let cases = vec![vec![1f32; 3], vec![1f32; 5], vec![1f32; 6], vec![1f32; 7]];

    for signal in cases.iter() {
        let window_iter: HammingIter<S<f32>> = HammingIter::new(signal.len());
        assert_eq!(signal.len(), window_iter.len());
    }
}

#[test]
fn blackman_next() {
    let results = vec![
        vec![-1.3878e-17f32, 1f32, -1.3878e-17f32],
        vec![-1.3878e-17f32, 3.4e-1f32, 1f32, 3.4e-1f32, -1.3878e-17f32],
        vec![-1.3878e-17f32, 2.0077e-1f32, 8.4923e-1f32, 8.4923e-1f32, 2.0077e-1f32, -1.3878e-17f32],
        vec![-1.3878e-17f32, 1.3e-1f32, 6.3e-1f32, 1f32, 6.3e-1f32, 1.3e-1f32, -1.3878e-17f32],
    ];

    for signal in results.iter() {
        let mut window_iter = BlackmanIter::<S<f32>>::new(signal.len());

        for expected in signal.iter() {
            let actual = window_iter.next().unwrap().0;
            println!("{:.6} - {:.6} = {:.6}", expected, actual, expected - actual);
            assert!((expected - actual).abs() < 1e-6f32);
        }
    }
}

#[test]
fn blackman_collect() {
    let results = vec![
        vec![-1.3878e-17f32, 1f32, -1.3878e-17f32],
        vec![-1.3878e-17f32, 3.4e-1f32, 1f32, 3.4e-1f32, -1.3878e-17f32],
        vec![-1.3878e-17f32, 2.0077e-1f32, 8.4923e-1f32, 8.4923e-1f32, 2.0077e-1f32, -1.3878e-17f32],
        vec![-1.3878e-17f32, 1.3e-1f32, 6.3e-1f32, 1f32, 6.3e-1f32, 1.3e-1f32, -1.3878e-17f32],
    ];

    for signal in results.iter() {
        let mut window_iter = BlackmanIter::<S<f32>>::new(signal.len());
        let mut samples: Vec<f32> = Vec::new();
        while let Some(gain) = window_iter.next() {
            samples.push(gain.0);
        }
        assert_eq!(samples.len(), signal.len());
        for (actual, expected) in signal.iter().zip(samples.iter()) {
            println!("{:.6} - {:.6} = {:.6}", expected, actual, expected - actual);
            assert!((expected - actual).abs() < 1e-6f32);
        }
    }
}

#[test]
fn blackman_len() {
    let cases = vec![vec![1f32; 3], vec![1f32; 5], vec![1f32; 6], vec![1f32; 7]];

    for signal in cases.iter() {
        let window_iter: BlackmanIter<S<f32>> = BlackmanIter::new(signal.len());
        assert_eq!(signal.len(), window_iter.len());
    }
}

#[test]
fn blackman_harris_next() {
    let results = vec![
        vec![6e-5f32, 1f32, 6e-5f32],
        vec![6e-5f32, 0.21747f32, 1f32, 0.21747f32, 6e-5f32],
        vec![6e-5f32, 0.103011f32, 0.793834f32, 0.793834f32, 0.103011f32, 6e-5f32],
        vec![06e-5f32, 0.055645f32, 0.520575f32, 1f32, 0.520575f32, 0.055645f32, 6e-5f32],
    ];

    for signal in results.iter() {
        let mut window_iter = BlackmanHarrisIter::<S<f32>>::new(signal.len());

        for expected in signal.iter() {
            let actual = window_iter.next().unwrap().0;
            println!("{:.6} - {:.6} = {:.6}", expected, actual, expected - actual);
            assert!((expected - actual).abs() < 1e-6f32);
        }
    }
}

#[test]
fn blackman_harris_collect() {
    let results = vec![
        vec![6e-5f32, 1f32, 6e-5f32],
        vec![6e-5f32, 0.21747f32, 1f32, 0.21747f32, 6e-5f32],
        vec![6e-5f32, 0.103011f32, 0.793834f32, 0.793834f32, 0.103011f32, 6e-5f32],
        vec![06e-5f32, 0.055645f32, 0.520575f32, 1f32, 0.520575f32, 0.055645f32, 6e-5f32],
    ];

    for signal in results.iter() {
        let mut window_iter = BlackmanHarrisIter::<S<f32>>::new(signal.len());
        let mut samples: Vec<f32> = Vec::new();
        while let Some(gain) = window_iter.next() {
            samples.push(gain.0);
        }
        assert_eq!(samples.len(), signal.len());
        for (actual, expected) in signal.iter().zip(samples.iter()) {
            println!("{:.6} - {:.6} = {:.6}", expected, actual, expected - actual);
            assert!((expected - actual).abs() < 1e-6f32);
        }
    }
}

#[test]
fn blackman_harris_len() {
    let cases = vec![vec![1f32; 3], vec![1f32; 5], vec![1f32; 6], vec![1f32; 7]];

    for signal in cases.iter() {
        let window_iter: BlackmanHarrisIter<S<f32>> = BlackmanHarrisIter::new(signal.len());
        assert_eq!(signal.len(), window_iter.len());
    }
}

#[test]
fn rectangular() {
    let window = Window::Rectangular;

    let mut cases = vec![vec![S(1f32); 3], vec![S(1f32); 5], vec![S(1f32); 6], vec![S(1f32); 7]];

    let results = vec![
        vec![1f32; 3],
        vec![1f32; 5],
        vec![1f32; 6],
        vec![1f32; 7],
    ];

    for (signal, expected) in cases.iter_mut().zip(results.iter()) {
        apply_window(&mut *signal, window);
        for (actual, expected) in signal.iter().zip(expected.iter()) {
            println!("{:.6} - {:.6} = {:.6}", expected, actual.0, expected - actual.0);
            assert!((expected - actual.0).abs() < 1e-6f32);
        }
    }
}

#[test]
fn triangular() {
    let window = Window::Triangular;

    let mut cases = vec![vec![S(1f32); 3], vec![S(1f32); 5], vec![S(1f32); 6], vec![S(1f32); 7]];

    let results = vec![
        vec![0.3333333f32, 1f32, 0.3333333f32],
        vec![0.2f32, 0.6f32, 1f32, 0.6f32, 0.2f32],
        vec![0.166667f32, 0.5f32, 0.833333f32, 0.833333f32, 0.5f32, 0.166667f32],
        vec![0.142857f32, 0.428571f32, 0.714286f32, 1f32, 0.714286f32, 0.428571f32, 0.142857f32],
    ];

    for (signal, expected) in cases.iter_mut().zip(results.iter()) {
        apply_window(&mut *signal, window);
        for (actual, expected) in signal.iter().zip(expected.iter()) {
            println!("{:.6} - {:.6} = {:.6}", expected, actual.0, expected - actual.0);
            assert!((expected - actual.0).abs() < 1e-6f32);
        }
    }
}

#[test]
fn bartlett() {
    let window = Window::Bartlett;

    let mut cases = vec![vec![S(1f32); 3], vec![S(1f32); 5], vec![S(1f32); 6], vec![S(1f32); 7]];

    let results = vec![
        vec![0f32, 1f32, 0f32],
        vec![0f32, 0.5f32, 1f32, 0.5f32, 0f32],
        vec![0f32, 0.4f32, 0.8f32, 0.8f32, 0.4f32, 0f32],
        vec![0f32, 0.333333f32, 0.666666f32, 1f32, 0.6666666f32, 0.333333f32, 0f32],
    ];

    for (signal, expected) in cases.iter_mut().zip(results.iter()) {
        apply_window(&mut *signal, window);
        for (actual, expected) in signal.iter().zip(expected.iter()) {
            println!("{:.6} - {:.6} = {:.6}", expected, actual.0, expected - actual.0);
            assert!((expected - actual.0).abs() < 1e-6f32);
        }
    }
}

#[test]
fn hann() {
    let window = Window::Hann;

    let mut cases = vec![vec![S(1f32); 3], vec![S(1f32); 5], vec![S(1f32); 6], vec![S(1f32); 7]];

    let results = vec![
        vec![0f32, 1f32, 0f32],
        vec![0f32, 0.5f32, 1f32, 0.5f32, 0f32],
        vec![0f32, 0.345492f32, 0.904508f32, 0.904508f32, 0.345492f32, 0f32],
        vec![0f32, 0.25f32, 0.75f32, 1f32, 0.75f32, 0.25f32, 0f32],
    ];

    for (signal, expected) in cases.iter_mut().zip(results.iter()) {
        apply_window(&mut *signal, window);
        for (actual, expected) in signal.iter().zip(expected.iter()) {
            println!("{:.6} - {:.6} = {:.6}", expected, actual.0, expected - actual.0);
            assert!((expected - actual.0).abs() < 1e-6f32);
        }
    }
}

#[test]
fn hamming() {
    let window = Window::Hamming;

    let mut cases = vec![vec![S(1f32); 3], vec![S(1f32); 5], vec![S(1f32); 6], vec![S(1f32); 7]];

    let results = vec![
        vec![0.08f32, 1f32, 0.08f32],
        vec![0.08f32, 0.54f32, 1f32, 0.54f32, 0.08f32],
        vec![0.08f32, 0.397852f32, 0.912148f32, 0.912148f32, 0.397852f32, 0.08f32],
        vec![0.08f32, 0.31f32, 0.77f32, 1f32, 0.77f32, 0.31f32, 0.08f32],
    ];

    for (signal, expected) in cases.iter_mut().zip(results.iter()) {
        apply_window(&mut *signal, window);
        for (actual, expected) in signal.iter().zip(expected.iter()) {
            println!("{:.6} - {:.6} = {:.6}", expected, actual.0, expected - actual.0);
            assert!((expected - actual.0).abs() < 1e-6f32);
        }
    }
}

#[test]
fn blackman() {
    let window = Window::Blackman;

    let mut cases = vec![vec![S(1f32); 3], vec![S(1f32); 5], vec![S(1f32); 6], vec![S(1f32); 7]];

    let results = vec![
        vec![-1.3878e-17f32, 1f32, -1.3878e-17f32],
        vec![-1.3878e-17f32, 3.4e-1f32, 1f32, 3.4e-1f32, -1.3878e-17f32],
        vec![-1.3878e-17f32, 2.0077e-1f32, 8.4923e-1f32, 8.4923e-1f32, 2.0077e-1f32, -1.3878e-17f32],
        vec![-1.3878e-17f32, 1.3e-1f32, 6.3e-1f32, 1f32, 6.3e-1f32, 1.3e-1f32, -1.3878e-17f32],
    ];

    for (signal, expected) in cases.iter_mut().zip(results.iter()) {
        apply_window(&mut *signal, window);
        for (actual, expected) in signal.iter().zip(expected.iter()) {
            println!("{:.6} - {:.6} = {:.6}", expected, actual.0, expected - actual.0);
            assert!((expected - actual.0).abs() < 1e-6f32);
        }
    }
}

#[test]
fn blackman_harris() {
    let window = Window::BlackmanHarris;

    let mut cases = vec![vec![S(1f32); 3], vec![S(1f32); 5], vec![S(1f32); 6], vec![S(1f32); 7]];

    let results = vec![
        vec![6e-5f32, 1f32, 6e-5f32],
        vec![6e-5f32, 0.21747f32, 1f32, 0.21747f32, 6e-5f32],
        vec![6e-5f32, 0.103011f32, 0.793834f32, 0.793834f32, 0.103011f32, 6e-5f32],
        vec![06e-5f32, 0.055645f32, 0.520575f32, 1f32, 0.520575f32, 0.055645f32, 6e-5f32],
    ];

    for (signal, expected) in cases.iter_mut().zip(results.iter()) {
        apply_window(&mut *signal, window);
        for (actual, expected) in signal.iter().zip(expected.iter()) {
            println!("{:.6} - {:.6} = {:.6}", expected, actual.0, expected - actual.0);
            assert!((expected - actual.0).abs() < 1e-6f32);
        }
    }
}

#[test]
fn bartlett_cursor_gives_its_gains_and_ends() {
    let mut cursor = BartlettIter::<S<f32>>::new(5);
    assert_eq!(cursor.len(), 5);
    for expected in [0f32, 0.5f32, 1f32, 0.5f32, 0f32] {
        assert_eq!(cursor.next(), Some(S(expected)));
    }
    assert_eq!(cursor.next(), None);
    assert_eq!(cursor.next(), None);
    assert_eq!(cursor.len(), 5);

    let mut empty = BartlettIter::<S<f32>>::new(0);
    assert_eq!(empty.next(), None);
}

#[test]
fn apply_window_multiplies_each_sample_by_its_gain() {
    let mut block = samples(&[2f32, -4f32, 8f32, 0.5f32, 6f32]);
    apply_window(&mut block, Window::Bartlett);
    assert_eq!(block, samples(&[0f32, -2f32, 8f32, 0.25f32, 0f32]));

    let mut block = samples(&[2f32, -4f32, 8f32, 0.5f32, 6f32]);
    apply_window(&mut block, Window::Rectangular);
    assert_eq!(block, samples(&[2f32, -4f32, 8f32, 0.5f32, 6f32]));

    let mut block = samples(&[3f32, 5f32, 7f32]);
    apply_window(&mut block, Window::Hann);
    let mut cursor = HannIter::<S<f32>>::new(3);
    for (i, sample) in [3f32, 5f32, 7f32].iter().enumerate() {
        assert_eq!(block[i], S(cursor.next().unwrap().0 * sample));
    }

    let mut nothing: Vec<S<f32>> = Vec::new();
    apply_window(&mut nothing, Window::Hamming);
    assert!(nothing.is_empty());
}
