//! A discrete-time PID control loop verified over exact rational arithmetic.
//!
//! The controller keeps two pieces of state (the previous error sample and the
//! running integral of the error) and turns each fresh error sample into a
//! corrective output from tunable proportional, integral and derivative gains,
//! with an anti-windup rule that damps the integral whenever its sign disagrees
//! with the latest error.

pub mod laws;
pub mod pid;
pub mod rational;

pub use pid::Coefficient;
pub use pid::PidConfig;
pub use pid::PidController;
pub use pid::PidError;
pub use rational::Rational;
