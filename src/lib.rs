//! Host-side trace pipeline for instrumentation stimulus ports: frame
//! demultiplexing, per-port decoding, capture sessions, and the target-side
//! encoders that produce the port traffic.
use vstd::prelude::*;

pub mod bytes;
pub mod channel;
pub mod decoder;
pub mod events;
pub mod global;
pub mod itm;
pub mod mock;
pub mod ports;
pub mod probe;
pub mod protocol;
pub mod session;
pub mod text;
pub mod trace;

verus! {

} // verus!
