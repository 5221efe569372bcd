use vstd::prelude::*;
use crate::filter::biquad::{Biquad2, Biquad2State};
use crate::filter::rbj::{is_minus_two_cos, is_prototype, minus_two_cos, prototype, Design};
use crate::traits::{is_difference, is_one, is_sum, FloatConst, Processor, Sample};

verus! {

/// A band-stop, or notch, biquad filter.
pub struct BandStop<T> {
    pub biquad: Biquad2<T>,
}

impl<T> View for BandStop<T> {
    type V = Biquad2State<T>;

    open spec fn view(&self) -> Biquad2State<T> {
        self.biquad@
    }
}

impl<T: Sample + FloatConst> BandStop<T> {
    /// `design` may be the band-stop design for the cosine `cos_w0` of the
    /// angular center frequency and the bandwidth term `alpha`:
    /// `b0 = b2 = 1`, `b1 = a1 = -2 * cos_w0`, `a0 = 1 + alpha`,
    /// `a2 = 1 - alpha`.
    pub open spec fn is_design(cos_w0: T, alpha: T, design: Design<T>) -> bool {
        Self::is_coefficients(
            cos_w0,
            alpha,
            design.b0,
            design.b1,
            design.b2,
            design.a0,
            design.a1,
            design.a2,
        )
    }

    /// `b0`, `b1`, `b2`, `a0`, `a1`, `a2` may be the coefficients of that
    /// design.
    pub open spec fn is_coefficients(
        cos_w0: T,
        alpha: T,
        b0: T,
        b1: T,
        b2: T,
        a0: T,
        a1: T,
        a2: T,
    ) -> bool {
        &&& is_one(b0)
        &&& is_minus_two_cos(cos_w0, b1)
        &&& b2 == b0
        &&& is_sum(b0, alpha, a0)
        &&& a1 == b1
        &&& is_difference(b0, alpha, a2)
    }

    /// Computes the design.
    pub fn design(cos_w0: T, alpha: T) -> (design: Design<T>)
        ensures
            Self::is_design(cos_w0, alpha, design),
    {
        let one = T::one();
        let b1 = minus_two_cos(cos_w0);
        Design { b0: one, b1: b1, b2: one, a0: one.add(alpha), a1: b1, a2: one.sub(alpha) }
    }

    /// Creates a filter that does not alter its input.
    pub fn new() -> (filter: Self)
        ensures
            filter@.is_neutral(),
            filter@.is_clear(),
    {
        BandStop { biquad: Biquad2::new() }
    }

    /// Sets the coefficients for `center_frequency` and `q` at
    /// `sample_rate`, and clears the memory of the filter.
    ///
    /// The arguments are not validated.
    pub fn set_coefficients(&mut self, sample_rate: T, center_frequency: T, q: T)
        ensures
            exists|cos_w0: T, alpha: T, design: Design<T>|
                {
                    &&& #[trigger] is_prototype(sample_rate, center_frequency, q, cos_w0, alpha)
                    &&& #[trigger] Self::is_design(cos_w0, alpha, design)
                    &&& design.loads(final(self)@)
                },
    {
        let (cos_w0, alpha) = prototype(sample_rate, center_frequency, q);
        Self::design(cos_w0, alpha).load(&mut self.biquad);
    }
}

impl<T: Sample> Processor<T> for BandStop<T> {
    open spec fn processes(
        before: Biquad2State<T>,
        sample: T,
        after: Biquad2State<T>,
        out: T,
    ) -> bool {
        Biquad2::<T>::processes(before, sample, after, out)
    }

    open spec fn clears(before: Biquad2State<T>, after: Biquad2State<T>) -> bool {
        Biquad2::<T>::clears(before, after)
    }

    open spec fn last_out_spec(state: Biquad2State<T>) -> T {
        Biquad2::<T>::last_out_spec(state)
    }

    fn process(&mut self, sample: T) -> (out: T) {
        self.biquad.process(sample)
    }

    fn clear(&mut self) {
        self.biquad.clear();
    }

    fn last_out(&self) -> (out: T) {
        self.biquad.last_out()
    }
}

} // verus!
