//! Averaging and envelope following.

pub mod leaky_integrator;
pub mod peak_detector;
pub mod rms_detector;

pub use self::leaky_integrator::LeakyIntegrator;
pub use self::peak_detector::PeakEnvDetector;
pub use self::rms_detector::RmsEnvDetector;
