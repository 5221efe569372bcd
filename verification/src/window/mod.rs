//! Window functions: gains that shape a block of samples towards its ends.
//!
//! A window of size `size` has one gain for each index below `size`. Each
//! window has a cursor that gives its gains one after the other, and
//! `apply_window` shapes a block by a window of its own size.

pub mod bartlett;
pub mod blackman;
pub mod blackman_harris;
pub mod hamming;
pub mod hann;
pub mod triangular;

pub use self::bartlett::BartlettIter;
pub use self::blackman::BlackmanIter;
pub use self::blackman_harris::BlackmanHarrisIter;
pub use self::hamming::HammingIter;
pub use self::hann::HannIter;
pub use self::triangular::TriangularIter;

use vstd::prelude::*;
use crate::traits::{
    is_from_usize,
    is_one,
    is_pi,
    is_product,
    is_quotient,
    is_two,
    FloatConst,
    Sample,
};

verus! {

/// A window function.
#[derive(Clone, Copy, Debug, Eq, PartialEq)]
pub enum Window {
    /// A rectangular window: every gain is one.
    Rectangular,
    /// A triangular window.
    Triangular,
    /// A triangular window whose ends are zero.
    Bartlett,
    /// A Hann, or Hanning, window.
    Hann,
    /// A Hamming window.
    Hamming,
    /// A Blackman window, where `alpha = 0.16`.
    Blackman,
    /// A Blackman-Harris window.
    BlackmanHarris,
}

/// Where a cursor stands in a window: the index of the gain that is due,
/// and the size of the window.
pub struct Cursor {
    pub index: int,
    pub size: int,
}

impl Cursor {
    /// The cursor one gain further on.
    pub open spec fn advanced(self) -> Self {
        Cursor { index: self.index + 1, size: self.size }
    }
}

/// `r` may be the fraction `numerator / denominator` as a sample.
pub open spec fn is_ratio<T: Sample>(numerator: usize, denominator: usize, r: T) -> bool {
    exists|above: T, below: T|
        {
            &&& is_from_usize(numerator, above)
            &&& is_from_usize(denominator, below)
            &&& is_quotient(above, below, r)
        }
}

/// `theta` may be the angle of the index `index` in a window of `size`
/// gains, `2 * pi * index / (size - 1)`.
pub open spec fn is_angle<T: Sample + FloatConst>(index: usize, size: usize, theta: T) -> bool {
    exists|two: T, pi: T, circle: T, place: T, turns: T, last: T|
        {
            &&& is_two(two)
            &&& is_pi(pi)
            &&& is_product(two, pi, circle)
            &&& is_from_usize(index, place)
            &&& is_product(circle, place, turns)
            &&& is_from_usize((size - 1) as usize, last)
            &&& is_quotient(turns, last, theta)
        }
}

/// `gain` may be the gain at `index` of the window `window` of `size`
/// gains. Every gain of the rectangular window is one.
pub open spec fn is_window_gain<T: Sample + FloatConst>(
    window: Window,
    index: usize,
    size: usize,
    gain: T,
) -> bool {
    match window {
        Window::Rectangular => is_one(gain),
        Window::Triangular => TriangularIter::<T>::is_gain(index, size, gain),
        Window::Bartlett => BartlettIter::<T>::is_gain(index, size, gain),
        Window::Hann => HannIter::<T>::is_gain(index, size, gain),
        Window::Hamming => HammingIter::<T>::is_gain(index, size, gain),
        Window::Blackman => BlackmanIter::<T>::is_gain(index, size, gain),
        Window::BlackmanHarris => BlackmanHarrisIter::<T>::is_gain(index, size, gain),
    }
}

/// `after` may be `before` shaped by `gain`: `gain * before`.
pub open spec fn is_shaped<T: Sample + FloatConst>(
    window: Window,
    index: usize,
    size: usize,
    before: T,
    after: T,
) -> bool {
    exists|gain: T|
        #[trigger] is_window_gain(window, index, size, gain) && is_product(gain, before, after)
}

/// Computes the fraction `numerator / denominator` as a sample.
pub fn ratio<T: Sample>(numerator: usize, denominator: usize) -> (r: T)
    ensures
        is_ratio(numerator, denominator, r),
{
    T::from_usize(numerator).div(T::from_usize(denominator))
}

/// Computes the angle of the index `index` in a window of `size` gains.
pub fn angle<T: Sample + FloatConst>(index: usize, size: usize) -> (theta: T)
    requires
        size > 0,
    ensures
        is_angle(index, size, theta),
{
    T::two().mul(T::pi()).mul(T::from_usize(index)).div(T::from_usize(size - 1))
}

/// Computes the gain at `index` of the window `window` of `size` gains.
pub fn window_gain<T: Sample + FloatConst>(window: Window, index: usize, size: usize) -> (gain: T)
    requires
        size > 0,
    ensures
        is_window_gain(window, index, size, gain),
{
    match window {
        Window::Rectangular => T::one(),
        Window::Triangular => TriangularIter::<T>::gain(index, size),
        Window::Bartlett => BartlettIter::<T>::gain(index, size),
        Window::Hann => HannIter::<T>::gain(index, size),
        Window::Hamming => HammingIter::<T>::gain(index, size),
        Window::Blackman => BlackmanIter::<T>::gain(index, size),
        Window::BlackmanHarris => BlackmanHarrisIter::<T>::gain(index, size),
    }
}

/// Applies a window of the size of `samples` to them: each sample is
/// multiplied by the gain at its index. The rectangular window leaves the
/// samples as they are, without a multiplication.
pub fn apply_window<T: Sample + FloatConst>(samples: &mut [T], window: Window)
    ensures
        final(samples)@.len() == old(samples)@.len(),
        window == Window::Rectangular ==> final(samples)@ == old(samples)@,
        window != Window::Rectangular ==> forall|i: int|
            0 <= i < old(samples)@.len() ==> is_shaped(
                window,
                i as usize,
                old(samples)@.len() as usize,
                old(samples)@[i],
                #[trigger] final(samples)@[i],
            ),
{
    match window {
        Window::Rectangular => {},
        _ => {
            let size = samples.len();
            let mut i: usize = 0;
            while i < size
                invariant
                    samples@.len() == size,
                    old(samples)@.len() == size,
                    i <= size,
                    window != Window::Rectangular,
                    forall|j: int|
                        0 <= j < i ==> is_shaped(
                            window,
                            j as usize,
                            size,
                            old(samples)@[j],
                            #[trigger] samples@[j],
                        ),
                    forall|j: int| i <= j < size ==> samples@[j] == old(samples)@[j],
                decreases size - i,
            {
                let gain: T = window_gain(window, i, size);
                let shaped = gain.mul(samples[i]);
                samples[i] = shaped;
                assert(is_shaped(window, i, size, old(samples)@[i as int], shaped));
                i += 1;
            }
        },
    }
}

} // verus!
