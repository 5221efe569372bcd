use vstd::prelude::*;
use core::marker::PhantomData;
use crate::traits::{
    is_abs,
    is_difference,
    is_from_usize,
    is_one,
    is_quotient,
    is_two,
    FloatConst,
    Sample,
};
use crate::window::Cursor;

verus! {

/// A cursor over a Bartlett window: it gives the gains of the window
/// one after the other.
pub struct BartlettIter<T> {
    index: usize,
    size: usize,
    phantom: PhantomData<T>,
}

impl<T> View for BartlettIter<T> {
    type V = Cursor;

    closed spec fn view(&self) -> Cursor {
        Cursor { index: self.index as int, size: self.size as int }
    }
}

impl<T> BartlettIter<T> {
    #[verifier::type_invariant]
    spec fn well_formed(self) -> bool {
        self.index <= self.size
    }
}

impl<T: Sample + FloatConst> BartlettIter<T> {
    /// `gain` may be the gain at `index` of a window of `size` gains:
    /// `1 - |(index - (size - 1) / 2) / ((size - 1) / 2)|`, which is zero at
    /// both ends.
    pub open spec fn is_gain(index: usize, size: usize, gain: T) -> bool {
        exists|one: T, two: T, place: T, last: T, middle: T, offset: T, slope: T, fall: T|
            {
                &&& is_one(one)
                &&& is_two(two)
                &&& is_from_usize(index, place)
                &&& is_from_usize((size - 1) as usize, last)
                &&& is_quotient(last, two, middle)
                &&& is_difference(place, middle, offset)
                &&& is_quotient(offset, middle, slope)
                &&& is_abs(slope, fall)
                &&& is_difference(one, fall, gain)
            }
    }

    /// Computes the gain at `index` of a window of `size` gains.
    pub fn gain(index: usize, size: usize) -> (gain: T)
        requires
            size > 0,
        ensures
            Self::is_gain(index, size, gain),
    {
        let one = T::one();
        let two = T::two();
        let index_float = T::from_usize(index);
        let size_minus_one = T::from_usize(size - 1);
        let alpha = size_minus_one.div(two);
        let numerator = index_float.sub(alpha);
        one.sub(numerator.div(alpha).abs())
    }

    /// Creates a cursor at the start of a window of `size` gains.
    pub fn new(size: usize) -> (cursor: Self)
        ensures
            cursor@ == (Cursor { index: 0, size: size as int }),
    {
        BartlettIter { index: 0, size: size, phantom: PhantomData }
    }

    /// Gives the gain that is due and moves on, or nothing when the window
    /// is at its end.
    pub fn next(&mut self) -> (item: Option<T>)
        ensures
            0 <= old(self)@.index <= old(self)@.size,
            old(self)@.index < old(self)@.size ==> item.is_some() && Self::is_gain(
                old(self)@.index as usize,
                old(self)@.size as usize,
                item.unwrap(),
            ) && final(self)@ == old(self)@.advanced(),
            old(self)@.index == old(self)@.size ==> item.is_none() && final(self)@ == old(self)@,
    {
        proof {
            use_type_invariant(&*self);
        }
        if self.index < self.size {
            let window_sample = Self::gain(self.index, self.size);
            self.index = self.index + 1;
            Some(window_sample)
        } else {
            None
        }
    }

    /// Returns the size of the window.
    pub fn len(&self) -> (size: usize)
        ensures
            size == self@.size,
    {
        self.size
    }
}

} // verus!
