//! A real-time, single-sample signal processing core: recursive and
//! non-recursive filters, time-varying delay lines, a leaky integrator with
//! the envelope detectors built on it, and envelope generators.
//!
//! Every unit advances by one sample per call, in place and without
//! allocating; only the construction and the growth of a delay line
//! allocate. Nothing is validated on the way of a sample: what is no number
//! goes through the arithmetic as it comes. What a setter cannot take it
//! clips or ignores, without an error.
//!
//! The units are generic over their sample type, of which they ask the
//! arithmetic of [`traits::Sample`] and nothing else. That trait promises
//! nothing about the results of its operations, so what is proved of a unit
//! holds whatever the arithmetic does: which operations led from the state
//! and the input to the output, in which order and on which operands, and
//! all that does not rest on arithmetic at all, such as the place of every
//! sample in a delay line.
//!
//! - [`filter`]: one pole, one zero, two pole, two zero and biquad filters
//!   with directly settable coefficients, and biquads designed by formula.
//! - [`delay`]: delay lines with a delay of whole samples and of fractions
//!   of a sample.
//! - [`analysis`]: the leaky integrator, the peak and the root-mean-square
//!   envelope detector.
//! - [`envelope`]: attack-release and attack-decay-sustain-release envelope
//!   generators.
//! - [`window`]: window functions.
//! - [`util`]: conversions between sample values and decibels.

pub mod analysis;
pub mod delay;
pub mod envelope;
pub mod filter;
pub mod traits;
pub mod util;
pub mod window;
