//! A concurrent HTTP health checker: probe outcomes, the probe engine's
//! decisions, and the cadence of the check loop, each with its contract.

pub mod checker;
pub mod clock;
pub mod outcome;
pub mod report;
pub mod schedule;

pub use outcome::HealthCheck;
