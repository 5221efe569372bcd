use vstd::prelude::*;
use core::marker::PhantomData;
use crate::traits::{is_cos, is_difference, is_one, is_product, FloatConst, Sample};
use crate::window::{angle, is_angle, is_ratio, ratio, Cursor};

verus! {

/// A cursor over a Hann, or Hanning, window: it gives the gains of the window
/// one after the other.
pub struct HannIter<T> {
    index: usize,
    size: usize,
    phantom: PhantomData<T>,
}

impl<T> View for HannIter<T> {
    type V = Cursor;

    closed spec fn view(&self) -> Cursor {
        Cursor { index: self.index as int, size: self.size as int }
    }
}

impl<T> HannIter<T> {
    #[verifier::type_invariant]
    spec fn well_formed(self) -> bool {
        self.index <= self.size
    }
}

impl<T: Sample + FloatConst> HannIter<T> {
    /// `gain` may be the gain at `index` of a window of `size` gains:
    /// `0.5 * (1 - cos(2 * pi * index / (size - 1)))`.
    pub open spec fn is_gain(index: usize, size: usize, gain: T) -> bool {
        exists|half: T, theta: T|
            {
                &&& #[trigger] is_ratio(1, 2, half)
                &&& #[trigger] is_angle(index, size, theta)
                &&& Self::is_raised_cosine(half, theta, gain)
            }
    }

    /// `gain` may be `half * (1 - cos(theta))`.
    pub open spec fn is_raised_cosine(half: T, theta: T, gain: T) -> bool {
        exists|one: T, wave: T, lift: T|
            {
                &&& is_one(one)
                &&& is_cos(theta, wave)
                &&& is_difference(one, wave, lift)
                &&& is_product(half, lift, gain)
            }
    }

    /// Computes the gain at `index` of a window of `size` gains.
    pub fn gain(index: usize, size: usize) -> (gain: T)
        requires
            size > 0,
        ensures
            Self::is_gain(index, size, gain),
    {
        let half: T = ratio(1, 2);
        let theta: T = angle(index, size);
        Self::raised_cosine(half, theta)
    }

    /// Computes `half * (1 - cos(theta))`.
    pub fn raised_cosine(half: T, theta: T) -> (gain: T)
        ensures
            Self::is_raised_cosine(half, theta, gain),
    {
        let one = T::one();
        half.mul(one.sub(theta.cos()))
    }

    /// Creates a cursor at the start of a window of `size` gains.
    pub fn new(size: usize) -> (cursor: Self)
        ensures
            cursor@ == (Cursor { index: 0, size: size as int }),
    {
        HannIter { index: 0, size: size, phantom: PhantomData }
    }

    /// Gives the gain that is due and moves on, or nothing when the window
    /// is at its end.
    pub fn next(&mut self) -> (item: Option<T>)
        ensures
            0 <= old(self)@.index <= old(self)@.size,
            old(self)@.index < old(self)@.size ==> item.is_some() && Self::is_gain(
                old(self)@.index as usize,
                old(self)@.size as usize,
                item.unwrap(),
            ) && final(self)@ == old(self)@.advanced(),
            old(self)@.index == old(self)@.size ==> item.is_none() && final(self)@ == old(self)@,
    {
        proof {
            use_type_invariant(&*self);
        }
        if self.index < self.size {
            let window_sample = Self::gain(self.index, self.size);
            self.index = self.index + 1;
            Some(window_sample)
        } else {
            None
        }
    }

    /// Returns the size of the window.
    pub fn len(&self) -> (size: usize)
        ensures
            size == self@.size,
    {
        self.size
    }
}

} // verus!
