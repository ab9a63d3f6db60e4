//! Host telemetry: figures derived from raw counter readings.
pub mod cpu;
