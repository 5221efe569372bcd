use vstd::prelude::*;
use core::marker::PhantomData;
use crate::traits::{
    is_cos,
    is_difference,
    is_from_usize,
    is_product,
    is_sum,
    is_two,
    FloatConst,
    Sample,
};
use crate::window::{angle, is_angle, is_ratio, ratio, Cursor};

verus! {

/// A cursor over a Blackman-Harris window: it gives the gains of the window
/// one after the other.
pub struct BlackmanHarrisIter<T> {
    index: usize,
    size: usize,
    phantom: PhantomData<T>,
}

impl<T> View for BlackmanHarrisIter<T> {
    type V = Cursor;

    closed spec fn view(&self) -> Cursor {
        Cursor { index: self.index as int, size: self.size as int }
    }
}

impl<T> BlackmanHarrisIter<T> {
    #[verifier::type_invariant]
    spec fn well_formed(self) -> bool {
        self.index <= self.size
    }
}

impl<T: Sample + FloatConst> BlackmanHarrisIter<T> {
    /// `gain` may be the gain at `index` of a window of `size` gains: the
    /// series of cosines below with the coefficients `0.35875`, `0.48829`,
    /// `0.14128` and `0.01168`, where `theta` is
    /// `2 * pi * index / (size - 1)`.
    pub open spec fn is_gain(index: usize, size: usize, gain: T) -> bool {
        exists|a0: T, a1: T, a2: T, a3: T, theta: T|
            {
                &&& #[trigger] is_ratio(35875, 100000, a0)
                &&& #[trigger] is_ratio(48829, 100000, a1)
                &&& #[trigger] is_ratio(14128, 100000, a2)
                &&& #[trigger] is_ratio(1168, 100000, a3)
                &&& #[trigger] is_angle(index, size, theta)
                &&& Self::is_series(a0, a1, a2, a3, theta, gain)
            }
    }

    /// `gain` may be
    /// `a0 - a1 * cos(theta) + a2 * cos(2 * theta) - a3 * cos(3 * theta)`.
    pub open spec fn is_series(a0: T, a1: T, a2: T, a3: T, theta: T, gain: T) -> bool {
        exists|
            two: T,
            three: T,
            first: T,
            term1: T,
            partial1: T,
            double: T,
            second: T,
            term2: T,
            partial2: T,
            triple: T,
            third: T,
            term3: T,
        |
            {
                &&& is_two(two)
                &&& is_from_usize(3, three)
                &&& is_cos(theta, first)
                &&& is_product(a1, first, term1)
                &&& is_difference(a0, term1, partial1)
                &&& is_product(two, theta, double)
                &&& is_cos(double, second)
                &&& is_product(a2, second, term2)
                &&& is_sum(partial1, term2, partial2)
                &&& is_product(three, theta, triple)
                &&& is_cos(triple, third)
                &&& is_product(a3, third, term3)
                &&& is_difference(partial2, term3, gain)
            }
    }

    /// Computes the gain at `index` of a window of `size` gains.
    pub fn gain(index: usize, size: usize) -> (gain: T)
        requires
            size > 0,
        ensures
            Self::is_gain(index, size, gain),
    {
        let a0: T = ratio(35875, 100000);
        let a1: T = ratio(48829, 100000);
        let a2: T = ratio(14128, 100000);
        let a3: T = ratio(1168, 100000);
        let theta: T = angle(index, size);
        Self::series(a0, a1, a2, a3, theta)
    }

    /// Computes
    /// `a0 - a1 * cos(theta) + a2 * cos(2 * theta) - a3 * cos(3 * theta)`.
    pub fn series(a0: T, a1: T, a2: T, a3: T, theta: T) -> (gain: T)
        ensures
            Self::is_series(a0, a1, a2, a3, theta, gain),
    {
        let two = T::two();
        let three = T::from_usize(3);
        a0.sub(a1.mul(theta.cos())).add(a2.mul(two.mul(theta).cos())).sub(
            a3.mul(three.mul(theta).cos()),
        )
    }

    /// Creates a cursor at the start of a window of `size` gains.
    pub fn new(size: usize) -> (cursor: Self)
        ensures
            cursor@ == (Cursor { index: 0, size: size as int }),
    {
        BlackmanHarrisIter { index: 0, size: size, phantom: PhantomData }
    }

    /// Gives the gain that is due and moves on, or nothing when the window
    /// is at its end.
    pub fn next(&mut self) -> (item: Option<T>)
        ensures
            0 <= old(self)@.index <= old(self)@.size,
            old(self)@.index < old(self)@.size ==> item.is_some() && Self::is_gain(
                old(self)@.index as usize,
                old(self)@.size as usize,
                item.unwrap(),
            ) && final(self)@ == old(self)@.advanced(),
            old(self)@.index == old(self)@.size ==> item.is_none() && final(self)@ == old(self)@,
    {
        proof {
            use_type_invariant(&*self);
        }
        if self.index < self.size {
            let window_sample = Self::gain(self.index, self.size);
            self.index = self.index + 1;
            Some(window_sample)
        } else {
            None
        }
    }

    /// Returns the size of the window.
    pub fn len(&self) -> (size: usize)
        ensures
            size == self@.size,
    {
        self.size
    }
}

} // verus!
