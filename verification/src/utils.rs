//! What surrounds the telemetry: the operator's options and the values
//! shown alongside the figures.
pub mod args;
pub mod status;
