use vstd::prelude::*;
use crate::filter::biquad::{Biquad2, Biquad2State};
use crate::filter::rbj::{is_minus_two_cos, is_prototype, minus_two_cos, prototype, Design};
use crate::traits::{
    is_difference,
    is_negation,
    is_one,
    is_product,
    is_sum,
    is_zero,
    FloatConst,
    Processor,
    Sample,
};

verus! {

/// A band-pass biquad filter with a constant skirt gain: the peak gain is
/// `q`.
pub struct BandPass1<T> {
    pub biquad: Biquad2<T>,
}

impl<T> View for BandPass1<T> {
    type V = Biquad2State<T>;

    open spec fn view(&self) -> Biquad2State<T> {
        self.biquad@
    }
}

impl<T: Sample + FloatConst> BandPass1<T> {
    /// `design` may be the constant-skirt band-pass design for the cosine
    /// `cos_w0` of the angular center frequency, the bandwidth term `alpha`
    /// and the quality factor `q`: `b0 = q * alpha`, `b1 = 0`,
    /// `b2 = -q * alpha`, `a0 = 1 + alpha`, `a1 = -2 * cos_w0`,
    /// `a2 = 1 - alpha`.
    pub open spec fn is_design(cos_w0: T, alpha: T, q: T, design: Design<T>) -> bool {
        Self::is_coefficients(
            cos_w0,
            alpha,
            q,
            design.b0,
            design.b1,
            design.b2,
            design.a0,
            design.a1,
            design.a2,
        )
    }

    /// `b0`, `b1`, `b2`, `a0`, `a1`, `a2` may be the coefficients of that
    /// design.
    pub open spec fn is_coefficients(
        cos_w0: T,
        alpha: T,
        q: T,
        b0: T,
        b1: T,
        b2: T,
        a0: T,
        a1: T,
        a2: T,
    ) -> bool {
        exists|one: T, minus_q: T|
            {
                &&& is_product(q, alpha, b0)
                &&& is_zero(b1)
                &&& is_negation(q, minus_q)
                &&& is_product(minus_q, alpha, b2)
                &&& is_one(one)
                &&& is_sum(one, alpha, a0)
                &&& is_minus_two_cos(cos_w0, a1)
                &&& is_difference(one, alpha, a2)
            }
    }

    /// Computes the design.
    pub fn design(cos_w0: T, alpha: T, q: T) -> (design: Design<T>)
        ensures
            Self::is_design(cos_w0, alpha, q, design),
    {
        let one = T::one();
        Design {
            b0: q.mul(alpha),
            b1: T::zero(),
            b2: q.neg().mul(alpha),
            a0: one.add(alpha),
            a1: minus_two_cos(cos_w0),
            a2: one.sub(alpha),
        }
    }

    /// Creates a filter that does not alter its input.
    pub fn new() -> (filter: Self)
        ensures
            filter@.is_neutral(),
            filter@.is_clear(),
    {
        BandPass1 { biquad: Biquad2::new() }
    }

    /// Sets the coefficients for `center_frequency` and `q` at
    /// `sample_rate`, and clears the memory of the filter.
    ///
    /// The arguments are not validated.
    pub fn set_coefficients(&mut self, sample_rate: T, center_frequency: T, q: T)
        ensures
            exists|cos_w0: T, alpha: T, design: Design<T>|
                {
                    &&& #[trigger] is_prototype(sample_rate, center_frequency, q, cos_w0, alpha)
                    &&& #[trigger] Self::is_design(cos_w0, alpha, q, design)
                    &&& design.loads(final(self)@)
                },
    {
        let (cos_w0, alpha) = prototype(sample_rate, center_frequency, q);
        Self::design(cos_w0, alpha, q).load(&mut self.biquad);
    }
}

impl<T: Sample> Processor<T> for BandPass1<T> {
    open spec fn processes(
        before: Biquad2State<T>,
        sample: T,
        after: Biquad2State<T>,
        out: T,
    ) -> bool {
        Biquad2::<T>::processes(before, sample, after, out)
    }

    open spec fn clears(before: Biquad2State<T>, after: Biquad2State<T>) -> bool {
        Biquad2::<T>::clears(before, after)
    }

    open spec fn last_out_spec(state: Biquad2State<T>) -> T {
        Biquad2::<T>::last_out_spec(state)
    }

    fn process(&mut self, sample: T) -> (out: T) {
        self.biquad.process(sample)
    }

    fn clear(&mut self) {
        self.biquad.clear();
    }

    fn last_out(&self) -> (out: T) {
        self.biquad.last_out()
    }
}

/// A band-pass biquad filter with a constant peak gain of 0 dB.
pub struct BandPass2<T> {
    pub biquad: Biquad2<T>,
}

impl<T> View for BandPass2<T> {
    type V = Biquad2State<T>;

    open spec fn view(&self) -> Biquad2State<T> {
        self.biquad@
    }
}

impl<T: Sample + FloatConst> BandPass2<T> {
    /// `design` may be the constant-peak band-pass design for the cosine
    /// `cos_w0` of the angular center frequency and the bandwidth term
    /// `alpha`: `b0 = alpha`, `b1 = 0`, `b2 = -alpha`, `a0 = 1 + alpha`,
    /// `a1 = -2 * cos_w0`, `a2 = 1 - alpha`.
    pub open spec fn is_design(cos_w0: T, alpha: T, design: Design<T>) -> bool {
        Self::is_coefficients(
            cos_w0,
            alpha,
            design.b0,
            design.b1,
            design.b2,
            design.a0,
            design.a1,
            design.a2,
        )
    }

    /// `b0`, `b1`, `b2`, `a0`, `a1`, `a2` may be the coefficients of that
    /// design.
    pub open spec fn is_coefficients(
        cos_w0: T,
        alpha: T,
        b0: T,
        b1: T,
        b2: T,
        a0: T,
        a1: T,
        a2: T,
    ) -> bool {
        exists|one: T|
            {
                &&& b0 == alpha
                &&& is_zero(b1)
                &&& is_negation(alpha, b2)
                &&& is_one(one)
                &&& is_sum(one, alpha, a0)
                &&& is_minus_two_cos(cos_w0, a1)
                &&& is_difference(one, alpha, a2)
            }
    }

    /// Computes the design.
    pub fn design(cos_w0: T, alpha: T) -> (design: Design<T>)
        ensures
            Self::is_design(cos_w0, alpha, design),
    {
        let one = T::one();
        Design {
            b0: alpha,
            b1: T::zero(),
            b2: alpha.neg(),
            a0: one.add(alpha),
            a1: minus_two_cos(cos_w0),
            a2: one.sub(alpha),
        }
    }

    /// Creates a filter that does not alter its input.
    pub fn new() -> (filter: Self)
        ensures
            filter@.is_neutral(),
            filter@.is_clear(),
    {
        BandPass2 { biquad: Biquad2::new() }
    }

    /// Sets the coefficients for `center_frequency` and `q` at
    /// `sample_rate`, and clears the memory of the filter.
    ///
    /// The arguments are not validated.
    pub fn set_coefficients(&mut self, sample_rate: T, center_frequency: T, q: T)
        ensures
            exists|cos_w0: T, alpha: T, design: Design<T>|
                {
                    &&& #[trigger] is_prototype(sample_rate, center_frequency, q, cos_w0, alpha)
                    &&& #[trigger] Self::is_design(cos_w0, alpha, design)
                    &&& design.loads(final(self)@)
                },
    {
        let (cos_w0, alpha) = prototype(sample_rate, center_frequency, q);
        Self::design(cos_w0, alpha).load(&mut self.biquad);
    }
}

impl<T: Sample> Processor<T> for BandPass2<T> {
    open spec fn processes(
        before: Biquad2State<T>,
        sample: T,
        after: Biquad2State<T>,
        out: T,
    ) -> bool {
        Biquad2::<T>::processes(before, sample, after, out)
    }

    open spec fn clears(before: Biquad2State<T>, after: Biquad2State<T>) -> bool {
        Biquad2::<T>::clears(before, after)
    }

    open spec fn last_out_spec(state: Biquad2State<T>) -> T {
        Biquad2::<T>::last_out_spec(state)
    }

    fn process(&mut self, sample: T) -> (out: T) {
        self.biquad.process(sample)
    }

    fn clear(&mut self) {
        self.biquad.clear();
    }

    fn last_out(&self) -> (out: T) {
        self.biquad.last_out()
    }
}

} // verus!
