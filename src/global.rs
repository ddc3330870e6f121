//! Convenience calls on an optional, process-wide port handle. The handle
//! is passed explicitly: without one, a call makes no writes.
use vstd::prelude::*;

use crate::events::{ISR_ENTER, ISR_EXIT, TASK_SWITCH};
use crate::ports::{CONSOLE, MARKERS};
use crate::trace::{byte_writes, record_writes, Itm, StimulusWrite};
use vstd::string::StringSliceAdditionalSpecFns;

verus! {

/// Sends a line to the console port of `itm`, if there is one.
pub fn puts(itm: Option<&Itm>, s: &str) -> (r: Vec<StimulusWrite>)
    ensures
        itm is Some ==> r@ == byte_writes(CONSOLE, s.spec_bytes()).push(
            StimulusWrite::Byte { port: CONSOLE, value: 10 },
        ),
        itm is None ==> r@.len() == 0,
{
    match itm {
        Some(i) => i.console().puts(s),
        None => Vec::new(),
    }
}

/// Sends marker `id` through `itm`, if there is one.
pub fn marker(itm: Option<&Itm>, id: u32) -> (r: Vec<StimulusWrite>)
    ensures
        itm is Some ==> r@ == seq![StimulusWrite::Word { port: MARKERS, value: id }],
        itm is None ==> r@.len() == 0,
{
    match itm {
        Some(i) => i.markers().marker(id),
        None => Vec::new(),
    }
}

/// Sends a task switch through `itm`, if there is one.
pub fn task_switch(itm: Option<&Itm>, from: u32, to: u32) -> (r: Vec<StimulusWrite>)
    ensures
        itm is Some ==> r@ == record_writes(TASK_SWITCH, from, to),
        itm is None ==> r@.len() == 0,
{
    match itm {
        Some(i) => i.rtos().task_switch(from, to),
        None => Vec::new(),
    }
}

/// Sends an interrupt entry through `itm`, if there is one.
pub fn isr_enter(itm: Option<&Itm>, isr_id: u32) -> (r: Vec<StimulusWrite>)
    ensures
        itm is Some ==> r@ == record_writes(ISR_ENTER, isr_id, 0),
        itm is None ==> r@.len() == 0,
{
    match itm {
        Some(i) => i.rtos().isr_enter(isr_id),
        None => Vec::new(),
    }
}

/// Sends an interrupt exit through `itm`, if there is one.
pub fn isr_exit(itm: Option<&Itm>, isr_id: u32) -> (r: Vec<StimulusWrite>)
    ensures
        itm is Some ==> r@ == record_writes(ISR_EXIT, isr_id, 0),
        itm is None ==> r@.len() == 0,
{
    match itm {
        Some(i) => i.rtos().isr_exit(isr_id),
        None => Vec::new(),
    }
}

} // verus!
