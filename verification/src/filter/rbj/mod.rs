//! Biquad filters whose coefficients follow the formulas of the Audio EQ
//! Cookbook by Robert Bristow-Johnson.
//!
//! Each filter turns a sample rate, a frequency and a quality factor (or a
//! gain and a slope) into the coefficients of a biquad. None of the
//! arguments is validated. A `q` of about `0.7071` leaves the response
//! without a resonant peak.

pub mod allpass;
pub mod bandpass;
pub mod bandstop;
pub mod highpass;
pub mod highshelf;
pub mod lowpass;
pub mod lowshelf;
pub mod peak;

pub use self::allpass::AllPass;
pub use self::bandpass::BandPass1;
pub use self::bandpass::BandPass2;
pub use self::bandstop::BandStop;
pub use self::highpass::HighPass;
pub use self::highshelf::HighShelf;
pub use self::lowpass::LowPass;
pub use self::lowshelf::LowShelf;
pub use self::peak::Peak;

use vstd::prelude::*;
use crate::filter::biquad::{Biquad1, Biquad1State, Biquad2, Biquad2State};
use crate::traits::{
    is_cos,
    is_difference,
    is_from_usize,
    is_negation,
    is_one,
    is_pi,
    is_power,
    is_product,
    is_quotient,
    is_sin,
    is_sqrt,
    is_sum,
    is_two,
    FloatConst,
    Processor,
    Sample,
};

verus! {

/// The coefficients of a biquad as a design formula gives them: `a0` is
/// still among them.
pub struct Design<T> {
    pub b0: T,
    pub b1: T,
    pub b2: T,
    pub a0: T,
    pub a1: T,
    pub a2: T,
}

impl<T: Sample> Design<T> {
    /// `b0`, `b1`, `b2`, `a1`, `a2` may be the coefficients of this design
    /// once each is divided by `a0`.
    pub open spec fn is_normalized(self, b0: T, b1: T, b2: T, a1: T, a2: T) -> bool {
        &&& is_quotient(self.b0, self.a0, b0)
        &&& is_quotient(self.b1, self.a0, b1)
        &&& is_quotient(self.b2, self.a0, b2)
        &&& is_quotient(self.a1, self.a0, a1)
        &&& is_quotient(self.a2, self.a0, a2)
    }

    /// `state` may be the state of a biquad that holds this design, each
    /// coefficient divided by `a0`, and remembers nothing.
    pub open spec fn loads(self, state: Biquad2State<T>) -> bool {
        &&& self.is_normalized(state.b0, state.b1, state.b2, state.a1, state.a2)
        &&& state.is_clear()
    }

    /// `state` may be the state of a direct form 1 biquad that holds this
    /// design, each coefficient divided by `a0`, and remembers nothing.
    pub open spec fn loads_direct(self, state: Biquad1State<T>) -> bool {
        &&& self.is_normalized(state.b0, state.b1, state.b2, state.a1, state.a2)
        &&& state.is_clear()
    }

    /// Hands the design to `biquad`, each coefficient divided by `a0`, and
    /// clears its memory.
    pub fn load(self, biquad: &mut Biquad2<T>)
        ensures
            self.loads(final(biquad)@),
    {
        biquad.set_coefficients(
            self.b0.div(self.a0),
            self.b1.div(self.a0),
            self.b2.div(self.a0),
            self.a1.div(self.a0),
            self.a2.div(self.a0),
        );
        biquad.clear();
    }

    /// Hands the design to a direct form 1 `biquad`, each coefficient
    /// divided by `a0`, and clears its memory.
    pub fn load_direct(self, biquad: &mut Biquad1<T>)
        ensures
            self.loads_direct(final(biquad)@),
    {
        biquad.set_coefficients(
            self.b0.div(self.a0),
            self.b1.div(self.a0),
            self.b2.div(self.a0),
            self.a1.div(self.a0),
            self.a2.div(self.a0),
        );
        biquad.clear();
    }
}

/// `w0` may be the angular frequency `2 * pi * frequency / sample_rate`,
/// in radians per sample.
pub open spec fn is_angular_frequency<T: Sample + FloatConst>(
    sample_rate: T,
    frequency: T,
    w0: T,
) -> bool {
    exists|two: T, pi: T, circle: T, turns: T|
        {
            &&& is_two(two)
            &&& is_pi(pi)
            &&& is_product(two, pi, circle)
            &&& is_product(circle, frequency, turns)
            &&& is_quotient(turns, sample_rate, w0)
        }
}

/// `alpha` may be the bandwidth term `sin_w0 / (2 * q)` of a quality factor
/// `q`.
pub open spec fn is_bandwidth<T: Sample + FloatConst>(sin_w0: T, q: T, alpha: T) -> bool {
    exists|two: T, twice_q: T|
        {
            &&& is_two(two)
            &&& is_product(two, q, twice_q)
            &&& is_quotient(sin_w0, twice_q, alpha)
        }
}

/// `cos_w0` and `alpha` may be what a design with a quality factor needs
/// of its frequency: the cosine of the angular frequency, and the
/// bandwidth term of its sine and `q`.
pub open spec fn is_prototype<T: Sample + FloatConst>(
    sample_rate: T,
    frequency: T,
    q: T,
    cos_w0: T,
    alpha: T,
) -> bool {
    exists|w0: T, sin_w0: T|
        {
            &&& #[trigger] is_angular_frequency(sample_rate, frequency, w0)
            &&& is_cos(w0, cos_w0)
            &&& is_sin(w0, sin_w0)
            &&& #[trigger] is_bandwidth(sin_w0, q, alpha)
        }
}

/// `a` may be the linear amplitude `10^(db_gain / 40)` of a gain in
/// decibels.
pub open spec fn is_amplitude<T: Sample>(db_gain: T, a: T) -> bool {
    exists|ten: T, forty: T, exponent: T|
        {
            &&& is_from_usize(10, ten)
            &&& is_from_usize(40, forty)
            &&& is_quotient(db_gain, forty, exponent)
            &&& is_power(ten, exponent, a)
        }
}

/// `alpha` may be the bandwidth term of a shelving filter,
/// `sin_w0 / 2 * sqrt((a + 1/a) * (1/shelf_slope - 1) + 2)`.
pub open spec fn is_shelf_bandwidth<T: Sample + FloatConst>(
    sin_w0: T,
    a: T,
    shelf_slope: T,
    alpha: T,
) -> bool {
    exists|
        one: T,
        two: T,
        half_sine: T,
        inverse: T,
        spread: T,
        steepness: T,
        excess: T,
        product: T,
        radicand: T,
        root: T,
    |
        {
            &&& is_one(one)
            &&& is_two(two)
            &&& is_quotient(sin_w0, two, half_sine)
            &&& is_quotient(one, a, inverse)
            &&& is_sum(a, inverse, spread)
            &&& is_quotient(one, shelf_slope, steepness)
            &&& is_difference(steepness, one, excess)
            &&& is_product(spread, excess, product)
            &&& is_sum(product, two, radicand)
            &&& is_sqrt(radicand, root)
            &&& is_product(half_sine, root, alpha)
        }
}

/// `cos_w0` and `alpha` may be what a shelving design needs of its
/// frequency: the cosine of the angular frequency, and the shelving
/// bandwidth term of its sine, the amplitude `a` and `shelf_slope`.
pub open spec fn is_shelf_prototype<T: Sample + FloatConst>(
    sample_rate: T,
    frequency: T,
    a: T,
    shelf_slope: T,
    cos_w0: T,
    alpha: T,
) -> bool {
    exists|w0: T, sin_w0: T|
        {
            &&& #[trigger] is_angular_frequency(sample_rate, frequency, w0)
            &&& is_cos(w0, cos_w0)
            &&& is_sin(w0, sin_w0)
            &&& #[trigger] is_shelf_bandwidth(sin_w0, a, shelf_slope, alpha)
        }
}

/// The terms that the coefficients of a shelving filter share.
pub struct ShelfTerms<T> {
    /// `a + 1`.
    pub a_plus_one: T,
    /// `a - 1`.
    pub a_subt_one: T,
    /// `(a + 1) * cos_w0`.
    pub plus_cos: T,
    /// `(a - 1) * cos_w0`.
    pub subt_cos: T,
    /// `2 * sqrt(a) * alpha`.
    pub sqrt_product: T,
}

/// `sqrt_product` may be `2 * sqrt(a) * alpha`.
pub open spec fn is_sqrt_product<T: Sample + FloatConst>(a: T, alpha: T, sqrt_product: T) -> bool {
    exists|two: T, root: T, twice_root: T|
        {
            &&& is_two(two)
            &&& is_sqrt(a, root)
            &&& is_product(two, root, twice_root)
            &&& is_product(twice_root, alpha, sqrt_product)
        }
}

/// `terms` may be the shared terms of a shelving filter with the amplitude
/// `a`, the bandwidth term `alpha` and the cosine `cos_w0`.
pub open spec fn is_shelf_terms<T: Sample + FloatConst>(
    cos_w0: T,
    alpha: T,
    a: T,
    terms: ShelfTerms<T>,
) -> bool {
    &&& exists|one: T|
        {
            &&& is_one(one)
            &&& is_sum(a, one, terms.a_plus_one)
            &&& is_difference(a, one, terms.a_subt_one)
        }
    &&& is_product(terms.a_plus_one, cos_w0, terms.plus_cos)
    &&& is_product(terms.a_subt_one, cos_w0, terms.subt_cos)
    &&& is_sqrt_product(a, alpha, terms.sqrt_product)
}

/// `a1` may be `-2 * cos_w0`, the first feedback term of most designs.
pub open spec fn is_minus_two_cos<T: Sample + FloatConst>(cos_w0: T, a1: T) -> bool {
    exists|two: T, minus_two: T|
        {
            &&& is_two(two)
            &&& is_negation(two, minus_two)
            &&& is_product(minus_two, cos_w0, a1)
        }
}

/// Computes the angular frequency that belongs to `frequency` at
/// `sample_rate`.
pub fn angular_frequency<T: Sample + FloatConst>(sample_rate: T, frequency: T) -> (w0: T)
    ensures
        is_angular_frequency(sample_rate, frequency, w0),
{
    T::two().mul(T::pi()).mul(frequency).div(sample_rate)
}

/// Computes the bandwidth term of a quality factor `q`.
pub fn bandwidth<T: Sample + FloatConst>(sin_w0: T, q: T) -> (alpha: T)
    ensures
        is_bandwidth(sin_w0, q, alpha),
{
    sin_w0.div(T::two().mul(q))
}

/// Computes what a design with a quality factor needs of its frequency:
/// the cosine of the angular frequency and the bandwidth term.
pub fn prototype<T: Sample + FloatConst>(sample_rate: T, frequency: T, q: T) -> (parts: (T, T))
    ensures
        is_prototype(sample_rate, frequency, q, parts.0, parts.1),
{
    let w0 = angular_frequency(sample_rate, frequency);
    let cos_w0 = w0.cos();
    let alpha = bandwidth(w0.sin(), q);
    (cos_w0, alpha)
}

/// Computes the linear amplitude of a gain in decibels.
pub fn amplitude<T: Sample>(db_gain: T) -> (a: T)
    ensures
        is_amplitude(db_gain, a),
{
    let ten = T::from_usize(10);
    let forty = T::from_usize(40);
    ten.powf(db_gain.div(forty))
}

/// Computes the bandwidth term of a shelving filter.
pub fn shelf_bandwidth<T: Sample + FloatConst>(sin_w0: T, a: T, shelf_slope: T) -> (alpha: T)
    ensures
        is_shelf_bandwidth(sin_w0, a, shelf_slope, alpha),
{
    let one = T::one();
    let two = T::two();
    sin_w0.div(two).mul(a.add(one.div(a)).mul(one.div(shelf_slope).sub(one)).add(two).sqrt())
}

/// Computes what a shelving design needs of its frequency: the cosine of
/// the angular frequency and the shelving bandwidth term.
pub fn shelf_prototype<T: Sample + FloatConst>(
    sample_rate: T,
    frequency: T,
    a: T,
    shelf_slope: T,
) -> (parts: (T, T))
    ensures
        is_shelf_prototype(sample_rate, frequency, a, shelf_slope, parts.0, parts.1),
{
    let w0 = angular_frequency(sample_rate, frequency);
    let cos_w0 = w0.cos();
    let alpha = shelf_bandwidth(w0.sin(), a, shelf_slope);
    (cos_w0, alpha)
}

/// Computes the terms that the coefficients of a shelving filter share.
pub fn shelf_terms<T: Sample + FloatConst>(cos_w0: T, alpha: T, a: T) -> (terms: ShelfTerms<T>)
    ensures
        is_shelf_terms(cos_w0, alpha, a, terms),
{
    let one = T::one();
    let a_plus_one = a.add(one);
    let a_subt_one = a.sub(one);
    let plus_cos = a_plus_one.mul(cos_w0);
    let subt_cos = a_subt_one.mul(cos_w0);
    ShelfTerms {
        a_plus_one: a_plus_one,
        a_subt_one: a_subt_one,
        plus_cos: plus_cos,
        subt_cos: subt_cos,
        sqrt_product: sqrt_product(a, alpha),
    }
}

/// Computes `2 * sqrt(a) * alpha`.
pub fn sqrt_product<T: Sample + FloatConst>(a: T, alpha: T) -> (product: T)
    ensures
        is_sqrt_product(a, alpha, product),
{
    T::two().mul(a.sqrt()).mul(alpha)
}

/// Computes `-2 * cos_w0`.
pub fn minus_two_cos<T: Sample + FloatConst>(cos_w0: T) -> (a1: T)
    ensures
        is_minus_two_cos(cos_w0, a1),
{
    T::two().neg().mul(cos_w0)
}

} // verus!
