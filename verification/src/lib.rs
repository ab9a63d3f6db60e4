//! Telemetry and wire-protocol engine for liquid-cooler status displays.
//!
//! The crate derives power, temperature and utilisation figures from raw
//! host counters, lays them out in each device family's fixed report, and
//! decides, event by event, what a driver does next. It performs no I/O:
//! a caller reads the counters, owns the transport and carries out the
//! actions that the drivers hand back.
use vstd::prelude::*;

pub mod devices;
pub mod monitor;
pub mod utils;

verus! {

/// USB vendor identifier shared by every supported device.
pub const DEFAULT_VENDOR: u16 = 0x3633;

} // verus!
