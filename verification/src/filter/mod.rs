//! Recursive and non-recursive filters with directly settable coefficients.

pub mod biquad;
pub mod one_pole;
pub mod one_zero;
pub mod rbj;
pub mod two_pole;
pub mod two_zero;

pub use self::biquad::Biquad1;
pub use self::biquad::Biquad2;
pub use self::one_pole::OnePole;
pub use self::one_zero::OneZero;
pub use self::two_pole::TwoPole;
pub use self::two_zero::TwoZero;
