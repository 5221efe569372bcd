use vstd::prelude::*;
use core::marker::PhantomData;
use crate::traits::{is_cos, is_difference, is_product, is_sum, is_two, FloatConst, Sample};
use crate::window::{angle, is_angle, is_ratio, ratio, Cursor};

verus! {

/// A cursor over a Blackman window: it gives the gains of the window
/// one after the other.
pub struct BlackmanIter<T> {
    index: usize,
    size: usize,
    phantom: PhantomData<T>,
}

impl<T> View for BlackmanIter<T> {
    type V = Cursor;

    closed spec fn view(&self) -> Cursor {
        Cursor { index: self.index as int, size: self.size as int }
    }
}

impl<T> BlackmanIter<T> {
    #[verifier::type_invariant]
    spec fn well_formed(self) -> bool {
        self.index <= self.size
    }
}

impl<T: Sample + FloatConst> BlackmanIter<T> {
    /// `gain` may be the gain at `index` of a window of `size` gains:
    /// `0.42 - 0.5 * cos(theta) + 0.08 * cos(2 * theta)`, where `theta` is
    /// `2 * pi * index / (size - 1)`.
    pub open spec fn is_gain(index: usize, size: usize, gain: T) -> bool {
        exists|a0: T, a1: T, a2: T, theta: T|
            {
                &&& #[trigger] is_ratio(42, 100, a0)
                &&& #[trigger] is_ratio(1, 2, a1)
                &&& #[trigger] is_ratio(8, 100, a2)
                &&& #[trigger] is_angle(index, size, theta)
                &&& Self::is_series(a0, a1, a2, theta, gain)
            }
    }

    /// `gain` may be `a0 - a1 * cos(theta) + a2 * cos(2 * theta)`.
    pub open spec fn is_series(a0: T, a1: T, a2: T, theta: T, gain: T) -> bool {
        exists|two: T, first: T, term1: T, partial: T, double: T, second: T, term2: T|
            {
                &&& is_two(two)
                &&& is_cos(theta, first)
                &&& is_product(a1, first, term1)
                &&& is_difference(a0, term1, partial)
                &&& is_product(two, theta, double)
                &&& is_cos(double, second)
                &&& is_product(a2, second, term2)
                &&& is_sum(partial, term2, gain)
            }
    }

    /// Computes the gain at `index` of a window of `size` gains.
    pub fn gain(index: usize, size: usize) -> (gain: T)
        requires
            size > 0,
        ensures
            Self::is_gain(index, size, gain),
    {
        let a0: T = ratio(42, 100);
        let a1: T = ratio(1, 2);
        let a2: T = ratio(8, 100);
        let theta: T = angle(index, size);
        Self::series(a0, a1, a2, theta)
    }

    /// Computes `a0 - a1 * cos(theta) + a2 * cos(2 * theta)`.
    pub fn series(a0: T, a1: T, a2: T, theta: T) -> (gain: T)
        ensures
            Self::is_series(a0, a1, a2, theta, gain),
    {
        let two = T::two();
        a0.sub(a1.mul(theta.cos())).add(a2.mul(two.mul(theta).cos()))
    }

    /// Creates a cursor at the start of a window of `size` gains.
    pub fn new(size: usize) -> (cursor: Self)
        ensures
            cursor@ == (Cursor { index: 0, size: size as int }),
    {
        BlackmanIter { index: 0, size: size, phantom: PhantomData }
    }

    /// Gives the gain that is due and moves on, or nothing when the window
    /// is at its end.
    pub fn next(&mut self) -> (item: Option<T>)
        ensures
            0 <= old(self)@.index <= old(self)@.size,
            old(self)@.index < old(self)@.size ==> item.is_some() && Self::is_gain(
                old(self)@.index as usize,
                old(self)@.size as usize,
                item.unwrap(),
            ) && final(self)@ == old(self)@.advanced(),
            old(self)@.index == old(self)@.size ==> item.is_none() && final(self)@ == old(self)@,
    {
        proof {
            use_type_invariant(&*self);
        }
        if self.index < self.size {
            let window_sample = Self::gain(self.index, self.size);
            self.index = self.index + 1;
            Some(window_sample)
        } else {
            None
        }
    }

    /// Returns the size of the window.
    pub fn len(&self) -> (size: usize)
        ensures
            size == self@.size,
    {
        self.size
    }
}

} // verus!
