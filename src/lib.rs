//! Integration-test orchestration: a fixture engine with gas admission and
//! aggregated run reports, a control protocol above it, and a cooperative
//! scheduler with progress reporting for registered test coroutines.

pub mod fixture;
pub mod engine;
pub mod run;
pub mod laws;
pub mod scheduler;
pub mod progress;
