//! Tags of the records sent on the RTOS events port.
use vstd::prelude::*;

verus! {

/// Task switch record.
pub const TASK_SWITCH: u8 = 0x01;

/// Interrupt entry record.
pub const ISR_ENTER: u8 = 0x02;

/// Interrupt exit record.
pub const ISR_EXIT: u8 = 0x03;

/// Idle entry record.
pub const IDLE_ENTER: u8 = 0x04;

/// Idle exit record.
pub const IDLE_EXIT: u8 = 0x05;

} // verus!
