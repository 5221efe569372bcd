use vstd::prelude::*;
use crate::filter::biquad::{Biquad2, Biquad2State};
use crate::filter::rbj::{
    amplitude,
    is_amplitude,
    is_shelf_prototype,
    is_shelf_terms,
    shelf_prototype,
    shelf_terms,
    Design,
    ShelfTerms,
};
use crate::traits::{
    is_difference,
    is_negation,
    is_product,
    is_sum,
    is_two,
    FloatConst,
    Processor,
    Sample,
};

verus! {

/// A high-shelf biquad filter: it lifts or lowers what lies above
/// `cutoff_frequency` by `db_gain` decibels.
pub struct HighShelf<T> {
    pub biquad: Biquad2<T>,
}

impl<T> View for HighShelf<T> {
    type V = Biquad2State<T>;

    open spec fn view(&self) -> Biquad2State<T> {
        self.biquad@
    }
}

impl<T: Sample + FloatConst> HighShelf<T> {
    /// `design` may be the high-shelf design for the linear amplitude `a`
    /// and the shared terms `terms`:
    /// `b0 = a * ((a+1) + (a-1)*cos_w0 + sqrt_product)`,
    /// `b1 = -2 * a * ((a-1) + (a+1)*cos_w0)`,
    /// `b2 = a * ((a+1) + (a-1)*cos_w0 - sqrt_product)`,
    /// `a0 = (a+1) - (a-1)*cos_w0 + sqrt_product`,
    /// `a1 = 2 * ((a-1) - (a+1)*cos_w0)`,
    /// `a2 = (a+1) - (a-1)*cos_w0 - sqrt_product`.
    pub open spec fn is_design(a: T, terms: ShelfTerms<T>, design: Design<T>) -> bool {
        Self::is_coefficients(
            a,
            terms,
            design.b0,
            design.b1,
            design.b2,
            design.a0,
            design.a1,
            design.a2,
        )
    }

    /// `b0`, `b1`, `b2`, `a0`, `a1`, `a2` may be the coefficients of that
    /// design.
    pub open spec fn is_coefficients(
        a: T,
        terms: ShelfTerms<T>,
        b0: T,
        b1: T,
        b2: T,
        a0: T,
        a1: T,
        a2: T,
    ) -> bool {
        exists|
            two: T,
            minus_two: T,
            scale: T,
            upper: T,
            lower: T,
            high: T,
            low: T,
            wide: T,
            narrow: T,
        |
            {
                &&& is_two(two)
                &&& is_negation(two, minus_two)
                &&& is_product(minus_two, a, scale)
                &&& is_sum(terms.a_plus_one, terms.subt_cos, upper)
                &&& is_difference(terms.a_plus_one, terms.subt_cos, lower)
                &&& is_sum(terms.a_subt_one, terms.plus_cos, high)
                &&& is_difference(terms.a_subt_one, terms.plus_cos, low)
                &&& is_sum(upper, terms.sqrt_product, wide)
                &&& is_difference(upper, terms.sqrt_product, narrow)
                &&& is_product(a, wide, b0)
                &&& is_product(scale, high, b1)
                &&& is_product(a, narrow, b2)
                &&& is_sum(lower, terms.sqrt_product, a0)
                &&& is_product(two, low, a1)
                &&& is_difference(lower, terms.sqrt_product, a2)
            }
    }

    /// Computes the design.
    pub fn design(a: T, terms: ShelfTerms<T>) -> (design: Design<T>)
        ensures
            Self::is_design(a, terms, design),
    {
        let two = T::two();
        let scale = two.neg().mul(a);
        let upper = terms.a_plus_one.add(terms.subt_cos);
        let lower = terms.a_plus_one.sub(terms.subt_cos);
        let high = terms.a_subt_one.add(terms.plus_cos);
        let low = terms.a_subt_one.sub(terms.plus_cos);
        let wide = upper.add(terms.sqrt_product);
        let narrow = upper.sub(terms.sqrt_product);
        let b0 = a.mul(wide);
        let b1 = scale.mul(high);
        let b2 = a.mul(narrow);
        let a0 = lower.add(terms.sqrt_product);
        let a1 = two.mul(low);
        let a2 = lower.sub(terms.sqrt_product);
        Design { b0: b0, b1: b1, b2: b2, a0: a0, a1: a1, a2: a2 }
    }

    /// Creates a filter that does not alter its input.
    pub fn new() -> (filter: Self)
        ensures
            filter@.is_neutral(),
            filter@.is_clear(),
    {
        HighShelf { biquad: Biquad2::new() }
    }

    /// Sets the coefficients for `cutoff_frequency`, `db_gain` and
    /// `shelf_slope` at `sample_rate`, and clears the memory of the filter.
    ///
    /// The arguments are not validated.
    pub fn set_coefficients(
        &mut self,
        sample_rate: T,
        cutoff_frequency: T,
        db_gain: T,
        shelf_slope: T,
    )
        ensures
            exists|a: T, cos_w0: T, alpha: T, terms: ShelfTerms<T>, design: Design<T>|
                {
                    &&& #[trigger] is_amplitude(db_gain, a)
                    &&& #[trigger] is_shelf_prototype(
                        sample_rate,
                        cutoff_frequency,
                        a,
                        shelf_slope,
                        cos_w0,
                        alpha,
                    )
                    &&& #[trigger] is_shelf_terms(cos_w0, alpha, a, terms)
                    &&& #[trigger] Self::is_design(a, terms, design)
                    &&& design.loads(final(self)@)
                },
    {
        let a = amplitude(db_gain);
        let (cos_w0, alpha) = shelf_prototype(sample_rate, cutoff_frequency, a, shelf_slope);
        let terms = shelf_terms(cos_w0, alpha, a);
        Self::design(a, terms).load(&mut self.biquad);
    }
}

impl<T: Sample> Processor<T> for HighShelf<T> {
    open spec fn processes(
        before: Biquad2State<T>,
        sample: T,
        after: Biquad2State<T>,
        out: T,
    ) -> bool {
        Biquad2::<T>::processes(before, sample, after, out)
    }

    open spec fn clears(before: Biquad2State<T>, after: Biquad2State<T>) -> bool {
        Biquad2::<T>::clears(before, after)
    }

    open spec fn last_out_spec(state: Biquad2State<T>) -> T {
        Biquad2::<T>::last_out_spec(state)
    }

    fn process(&mut self, sample: T) -> (out: T) {
        self.biquad.process(sample)
    }

    fn clear(&mut self) {
        self.biquad.clear();
    }

    fn last_out(&self) -> (out: T) {
        self.biquad.last_out()
    }
}

} // verus!
