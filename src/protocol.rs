//! Values exchanged between the trace pipeline and its clients: decoded
//! events, port configurations, raw frames, probe descriptions and client
//! commands.
use std::collections::HashMap;
use vstd::prelude::*;

use crate::text::{decimal, labelled};

verus! {

broadcast use vstd::std_specs::hash::group_hash_axioms;

/// A decoded trace event.
#[derive(Debug, Clone, PartialEq)]
pub enum TraceEvent {
    /// A complete line of text.
    Text { message: String },
    /// A marker with its id.
    Marker { id: u32, name: Option<String> },
    /// The scheduler switched from one task to another.
    TaskSwitch { from_task: u32, to_task: u32 },
    /// An interrupt handler was entered.
    IsrEnter { isr_id: u32, name: Option<String> },
    /// An interrupt handler returned.
    IsrExit { isr_id: u32 },
    /// The idle state was entered.
    IdleEnter,
    /// The idle state was left.
    IdleExit,
    /// A counter sample.
    Counter { counter_id: u32, value: u64 },
    /// Bytes that no decoder interpreted.
    Raw { data: Vec<u8> },
}

/// The mathematical value of a [`TraceEvent`].
pub enum EventView {
    Text { message: Seq<char> },
    Marker { id: u32, name: Option<Seq<char>> },
    TaskSwitch { from_task: u32, to_task: u32 },
    IsrEnter { isr_id: u32, name: Option<Seq<char>> },
    IsrExit { isr_id: u32 },
    IdleEnter,
    IdleExit,
    Counter { counter_id: u32, value: u64 },
    Raw { data: Seq<u8> },
}

/// The view of an optional string.
pub open spec fn opt_text(s: Option<String>) -> Option<Seq<char>> {
    match s {
        Some(t) => Some(t@),
        None => None,
    }
}

impl View for TraceEvent {
    type V = EventView;

    open spec fn view(&self) -> EventView {
        match self {
            TraceEvent::Text { message } => EventView::Text { message: message@ },
            TraceEvent::Marker { id, name } => EventView::Marker { id: *id, name: opt_text(*name) },
            TraceEvent::TaskSwitch { from_task, to_task } => EventView::TaskSwitch {
                from_task: *from_task,
                to_task: *to_task,
            },
            TraceEvent::IsrEnter { isr_id, name } => EventView::IsrEnter {
                isr_id: *isr_id,
                name: opt_text(*name),
            },
            TraceEvent::IsrExit { isr_id } => EventView::IsrExit { isr_id: *isr_id },
            TraceEvent::IdleEnter => EventView::IdleEnter,
            TraceEvent::IdleExit => EventView::IdleExit,
            TraceEvent::Counter { counter_id, value } => EventView::Counter {
                counter_id: *counter_id,
                value: *value,
            },
            TraceEvent::Raw { data } => EventView::Raw { data: data@ },
        }
    }
}

/// The views of a sequence of events.
pub open spec fn events_view(v: Seq<TraceEvent>) -> Seq<EventView> {
    v.map_values(|e: TraceEvent| e@)
}

/// The decoder kind assigned to a port.
#[derive(Debug, Clone, PartialEq)]
pub enum DecoderType {
    /// Plain text lines.
    Text,
    /// Marker events with ids.
    Marker,
    /// Task and interrupt context switches.
    TaskIsr,
    /// Counter samples.
    Counter,
    /// A user-defined format, passed through undecoded.
    User { format: String },
}

/// The mathematical value of a [`DecoderType`].
pub enum DecoderKind {
    Text,
    Marker,
    TaskIsr,
    Counter,
    User { format: Seq<char> },
}

impl View for DecoderType {
    type V = DecoderKind;

    open spec fn view(&self) -> DecoderKind {
        match self {
            DecoderType::Text => DecoderKind::Text,
            DecoderType::Marker => DecoderKind::Marker,
            DecoderType::TaskIsr => DecoderKind::TaskIsr,
            DecoderType::Counter => DecoderKind::Counter,
            DecoderType::User { format } => DecoderKind::User { format: format@ },
        }
    }
}

/// The configuration of one stimulus port.
#[derive(Debug, Clone, PartialEq)]
pub struct PortConfig {
    pub port: u8,
    pub name: String,
    pub decoder: DecoderType,
    pub enabled: bool,
}

/// The mathematical value of a [`PortConfig`].
pub struct PortConfigView {
    pub port: u8,
    pub name: Seq<char>,
    pub decoder: DecoderKind,
    pub enabled: bool,
}

impl View for PortConfig {
    type V = PortConfigView;

    open spec fn view(&self) -> PortConfigView {
        PortConfigView {
            port: self.port,
            name: self.name@,
            decoder: self.decoder@,
            enabled: self.enabled,
        }
    }
}

/// An enabled port configuration.
pub open spec fn port_config(port: u8, name: Seq<char>, decoder: DecoderKind) -> PortConfigView {
    PortConfigView { port, name, decoder, enabled: true }
}

/// A port-tagged unit of payload reconstructed from the raw trace stream.
#[derive(Debug, Clone, PartialEq)]
pub struct ItmFrame {
    pub port: u8,
    pub data: Vec<u8>,
    pub timestamp: Option<u64>,
}

/// A debug probe as reported by the probe collaborator.
#[derive(Debug, Clone, PartialEq)]
pub struct ProbeInfo {
    pub identifier: String,
    pub vendor_id: u16,
    pub product_id: u16,
    pub serial_number: Option<String>,
    pub hid_interface: Option<u8>,
}

/// A command sent by a client.
#[derive(Debug, Clone, PartialEq)]
pub enum ClientMessage {
    /// Connect to a probe and target.
    Connect { probe_selector: Option<String>, chip: Option<String>, token: Option<String> },
    /// Start tracing the ports whose bits are set in `allow_mask`.
    Start { allow_mask: u32, baud_rate: Option<u32> },
    /// Stop tracing.
    Stop,
    /// Choose which decoded events are forwarded.
    SetFilter { port_mask: Option<u32>, event_types: Option<Vec<String>> },
}

impl PortConfig {
    /// An enabled port with the text decoder.
    pub fn text_port(port: u8, name: &str) -> (r: PortConfig)
        ensures
            r@ == port_config(port, name@, DecoderKind::Text),
    {
        PortConfig { port, name: name.to_owned(), decoder: DecoderType::Text, enabled: true }
    }

    /// An enabled port with the marker decoder.
    pub fn marker_port(port: u8, name: &str) -> (r: PortConfig)
        ensures
            r@ == port_config(port, name@, DecoderKind::Marker),
    {
        PortConfig { port, name: name.to_owned(), decoder: DecoderType::Marker, enabled: true }
    }

    /// An enabled port with the task and interrupt decoder.
    pub fn task_port(port: u8, name: &str) -> (r: PortConfig)
        ensures
            r@ == port_config(port, name@, DecoderKind::TaskIsr),
    {
        PortConfig { port, name: name.to_owned(), decoder: DecoderType::TaskIsr, enabled: true }
    }

    /// An enabled port with the counter decoder.
    pub fn counter_port(port: u8, name: &str) -> (r: PortConfig)
        ensures
            r@ == port_config(port, name@, DecoderKind::Counter),
    {
        PortConfig { port, name: name.to_owned(), decoder: DecoderType::Counter, enabled: true }
    }
}

impl Default for PortConfig {
    /// An enabled text port 0 named "Default".
    fn default() -> (r: PortConfig)
        ensures
            r@ == port_config(0, "Default"@, DecoderKind::Text),
    {
        PortConfig::text_port(0, "Default")
    }
}

/// The name given to a user port in the standard assignment.
pub open spec fn user_port_name(port: u8) -> Seq<char> {
    "User "@ + decimal(port as nat)
}

/// The standard port assignment: console text on port 0, task and interrupt
/// events on port 1, markers on port 2, counters on port 3, and user text on
/// ports 4 to 7.
pub open spec fn standard_port(port: u8) -> PortConfigView {
    if port == 0 {
        port_config(0, "Console"@, DecoderKind::Text)
    } else if port == 1 {
        port_config(1, "RTOS Events"@, DecoderKind::TaskIsr)
    } else if port == 2 {
        port_config(2, "Markers"@, DecoderKind::Marker)
    } else if port == 3 {
        port_config(3, "Counters"@, DecoderKind::Counter)
    } else {
        port_config(port, user_port_name(port), DecoderKind::Text)
    }
}

/// The configuration that the standard assignment gives `port`.
pub fn standard_config(port: u8) -> (r: PortConfig)
    ensures
        r@ == standard_port(port),
{
    if port == 0 {
        PortConfig::text_port(0, "Console")
    } else if port == 1 {
        PortConfig::task_port(1, "RTOS Events")
    } else if port == 2 {
        PortConfig::marker_port(2, "Markers")
    } else if port == 3 {
        PortConfig::counter_port(3, "Counters")
    } else {
        let name = labelled("User ", port as u32);
        PortConfig::text_port(port, name.as_str())
    }
}

/// The standard port configurations, keyed by port: ports 0 to 7, each as
/// [`standard_port`] describes it.
pub fn default_config() -> (r: HashMap<u8, PortConfig>)
    ensures
        forall|p: u8| #[trigger] r@.contains_key(p) <==> p < 8,
        forall|p: u8| p < 8 ==> (#[trigger] r@[p])@ == standard_port(p),
{
    let mut ports: HashMap<u8, PortConfig> = HashMap::new();
    let mut i: u8 = 0;
    while i < 8
        invariant
            i <= 8,
            forall|p: u8| #[trigger] ports@.contains_key(p) <==> p < i,
            forall|p: u8| p < i ==> (#[trigger] ports@[p])@ == standard_port(p),
        decreases 8 - i,
    {
        ports.insert(i, standard_config(i));
        i = i + 1;
    }
    ports
}

} // verus!
