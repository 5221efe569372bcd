use vstd::prelude::*;
use crate::filter::biquad::{Biquad2, Biquad2State};
use crate::filter::rbj::{
    amplitude,
    is_amplitude,
    is_minus_two_cos,
    is_prototype,
    minus_two_cos,
    prototype,
    Design,
};
use crate::traits::{
    is_difference,
    is_one,
    is_product,
    is_quotient,
    is_sum,
    FloatConst,
    Processor,
    Sample,
};

verus! {

/// A peaking equaliser biquad filter: it lifts or lowers a band about
/// `center_frequency` by `db_gain` decibels.
pub struct Peak<T> {
    pub biquad: Biquad2<T>,
}

impl<T> View for Peak<T> {
    type V = Biquad2State<T>;

    open spec fn view(&self) -> Biquad2State<T> {
        self.biquad@
    }
}

impl<T: Sample + FloatConst> Peak<T> {
    /// `design` may be the peaking design for the cosine `cos_w0` of the
    /// angular center frequency, the bandwidth term `alpha` and the linear
    /// amplitude `a`: `b0 = 1 + alpha * a`, `b1 = a1 = -2 * cos_w0`,
    /// `b2 = 1 - alpha * a`, `a0 = 1 + alpha / a`, `a2 = 1 - alpha / a`.
    pub open spec fn is_design(cos_w0: T, alpha: T, a: T, design: Design<T>) -> bool {
        Self::is_coefficients(
            cos_w0,
            alpha,
            a,
            design.b0,
            design.b1,
            design.b2,
            design.a0,
            design.a1,
            design.a2,
        )
    }

    /// `b0`, `b1`, `b2`, `a0`, `a1`, `a2` may be the coefficients of that
    /// design.
    pub open spec fn is_coefficients(
        cos_w0: T,
        alpha: T,
        a: T,
        b0: T,
        b1: T,
        b2: T,
        a0: T,
        a1: T,
        a2: T,
    ) -> bool {
        exists|one: T, boosted: T, cut: T|
            {
                &&& is_one(one)
                &&& is_product(alpha, a, boosted)
                &&& is_quotient(alpha, a, cut)
                &&& is_sum(one, boosted, b0)
                &&& is_minus_two_cos(cos_w0, b1)
                &&& is_difference(one, boosted, b2)
                &&& is_sum(one, cut, a0)
                &&& a1 == b1
                &&& is_difference(one, cut, a2)
            }
    }

    /// Computes the design.
    pub fn design(cos_w0: T, alpha: T, a: T) -> (design: Design<T>)
        ensures
            Self::is_design(cos_w0, alpha, a, design),
    {
        let one = T::one();
        let boosted = alpha.mul(a);
        let cut = alpha.div(a);
        let b1 = minus_two_cos(cos_w0);
        Design {
            b0: one.add(boosted),
            b1: b1,
            b2: one.sub(boosted),
            a0: one.add(cut),
            a1: b1,
            a2: one.sub(cut),
        }
    }

    /// Creates a filter that does not alter its input.
    pub fn new() -> (filter: Self)
        ensures
            filter@.is_neutral(),
            filter@.is_clear(),
    {
        Peak { biquad: Biquad2::new() }
    }

    /// Sets the coefficients for `center_frequency`, `db_gain` and `q` at
    /// `sample_rate`, and clears the memory of the filter.
    ///
    /// The arguments are not validated.
    pub fn set_coefficients(&mut self, sample_rate: T, center_frequency: T, db_gain: T, q: T)
        ensures
            exists|a: T, cos_w0: T, alpha: T, design: Design<T>|
                {
                    &&& #[trigger] is_amplitude(db_gain, a)
                    &&& #[trigger] is_prototype(sample_rate, center_frequency, q, cos_w0, alpha)
                    &&& #[trigger] Self::is_design(cos_w0, alpha, a, design)
                    &&& design.loads(final(self)@)
                },
    {
        let a = amplitude(db_gain);
        let (cos_w0, alpha) = prototype(sample_rate, center_frequency, q);
        Self::design(cos_w0, alpha, a).load(&mut self.biquad);
    }
}

impl<T: Sample> Processor<T> for Peak<T> {
    open spec fn processes(
        before: Biquad2State<T>,
        sample: T,
        after: Biquad2State<T>,
        out: T,
    ) -> bool {
        Biquad2::<T>::processes(before, sample, after, out)
    }

    open spec fn clears(before: Biquad2State<T>, after: Biquad2State<T>) -> bool {
        Biquad2::<T>::clears(before, after)
    }

    open spec fn last_out_spec(state: Biquad2State<T>) -> T {
        Biquad2::<T>::last_out_spec(state)
    }

    fn process(&mut self, sample: T) -> (out: T) {
        self.biquad.process(sample)
    }

    fn clear(&mut self) {
        self.biquad.clear();
    }

    fn last_out(&self) -> (out: T) {
        self.biquad.last_out()
    }
}

} // verus!
