//! The standard stimulus port assignment.
use vstd::prelude::*;

verus! {

/// Console text output port.
pub const CONSOLE: u8 = 0;

/// RTOS events port: task switches, interrupt entries and exits.
pub const RTOS: u8 = 1;

/// Markers port.
pub const MARKERS: u8 = 2;

/// Counters port.
pub const COUNTERS: u8 = 3;

/// First user-defined port.
pub const USER_BASE: u8 = 4;

} // verus!
