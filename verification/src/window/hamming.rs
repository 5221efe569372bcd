use vstd::prelude::*;
use core::marker::PhantomData;
use crate::traits::{is_cos, is_difference, is_one, is_product, FloatConst, Sample};
use crate::window::{angle, is_angle, is_ratio, ratio, Cursor};

verus! {

/// A cursor over a Hamming window: it gives the gains of the window
/// one after the other.
pub struct HammingIter<T> {
    index: usize,
    size: usize,
    phantom: PhantomData<T>,
}

impl<T> View for HammingIter<T> {
    type V = Cursor;

    closed spec fn view(&self) -> Cursor {
        Cursor { index: self.index as int, size: self.size as int }
    }
}

impl<T> HammingIter<T> {
    #[verifier::type_invariant]
    spec fn well_formed(self) -> bool {
        self.index <= self.size
    }
}

impl<T: Sample + FloatConst> HammingIter<T> {
    /// `gain` may be the gain at `index` of a window of `size` gains:
    /// `0.54 - (1 - 0.54) * cos(2 * pi * index / (size - 1))`.
    pub open spec fn is_gain(index: usize, size: usize, gain: T) -> bool {
        exists|alpha: T, theta: T|
            {
                &&& #[trigger] is_ratio(54, 100, alpha)
                &&& #[trigger] is_angle(index, size, theta)
                &&& Self::is_raised_cosine(alpha, theta, gain)
            }
    }

    /// `gain` may be `alpha - (1 - alpha) * cos(theta)`.
    pub open spec fn is_raised_cosine(alpha: T, theta: T, gain: T) -> bool {
        exists|one: T, beta: T, wave: T, swing: T|
            {
                &&& is_one(one)
                &&& is_difference(one, alpha, beta)
                &&& is_cos(theta, wave)
                &&& is_product(beta, wave, swing)
                &&& is_difference(alpha, swing, gain)
            }
    }

    /// Computes the gain at `index` of a window of `size` gains.
    pub fn gain(index: usize, size: usize) -> (gain: T)
        requires
            size > 0,
        ensures
            Self::is_gain(index, size, gain),
    {
        let alpha: T = ratio(54, 100);
        let theta: T = angle(index, size);
        Self::raised_cosine(alpha, theta)
    }

    /// Computes `alpha - (1 - alpha) * cos(theta)`.
    pub fn raised_cosine(alpha: T, theta: T) -> (gain: T)
        ensures
            Self::is_raised_cosine(alpha, theta, gain),
    {
        let one = T::one();
        let beta = one.sub(alpha);
        alpha.sub(beta.mul(theta.cos()))
    }

    /// Creates a cursor at the start of a window of `size` gains.
    pub fn new(size: usize) -> (cursor: Self)
        ensures
            cursor@ == (Cursor { index: 0, size: size as int }),
    {
        HammingIter { index: 0, size: size, phantom: PhantomData }
    }

    /// Gives the gain that is due and moves on, or nothing when the window
    /// is at its end.
    pub fn next(&mut self) -> (item: Option<T>)
        ensures
            0 <= old(self)@.index <= old(self)@.size,
            old(self)@.index < old(self)@.size ==> item.is_some() && Self::is_gain(
                old(self)@.index as usize,
                old(self)@.size as usize,
                item.unwrap(),
            ) && final(self)@ == old(self)@.advanced(),
            old(self)@.index == old(self)@.size ==> item.is_none() && final(self)@ == old(self)@,
    {
        proof {
            use_type_invariant(&*self);
        }
        if self.index < self.size {
            let window_sample = Self::gain(self.index, self.size);
            self.index = self.index + 1;
            Some(window_sample)
        } else {
            None
        }
    }

    /// Returns the size of the window.
    pub fn len(&self) -> (size: usize)
        ensures
            size == self@.size,
    {
        self.size
    }
}

} // verus!
