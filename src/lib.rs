//! Three coupled phase oscillators: a reference ("conductor") that runs
//! freely and two followers pulled toward it, advanced by explicit Euler
//! steps in fixed-point arithmetic, with a lead/lag classification of each
//! follower against the reference.
//!
//! Being integers, results are never NaN or infinite: every input is
//! accepted, overflow is ruled out by proof, and extreme settings give
//! extreme but well-defined motion.
pub mod angle;
pub mod bank;
pub mod driver;
pub mod laws;
pub mod synchrony;
