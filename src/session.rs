//! The capture session: owns the decoder registry, the frame
//! demultiplexer and the statistics; starts, stops and reconfigures
//! capture; and turns raw trace bytes into the messages that go out to the
//! client.
use std::collections::HashMap;
use vstd::prelude::*;

use crate::decoder::{
    fresh_decoder, line_events, standard_kind, text_scan, ItmDecoder, PortDecoder,
    PortDecoderView, LINE_FEED,
};
use crate::itm::{
    clock_after, frame_rest, frames_in, frames_view, idle_processor, lemma_clock_steps,
    lemma_frame_chunks, stamped, FramePayload, FrameView, ItmProcessor, ProcessorView,
};
use crate::probe::{
    simulated_probe_id, simulated_session, simulated_target, ProbeError, ProbeManager, ProbeSessionView, TARGET_CPU_HZ,
};
use crate::protocol::{
    events_view, opt_text, standard_config, standard_port, ClientMessage, DecoderKind, EventView,
    PortConfig,
    PortConfigView, TraceEvent,
};

verus! {

broadcast use vstd::std_specs::hash::group_hash_axioms;

/// A port mask with every port set.
pub const ALL_PORTS: u32 = 0xFFFF_FFFF;

/// The number of slots in the decoder registry, one per stimulus port.
pub const REGISTRY_SLOTS: usize = 32;

/// Whether bit `port` of `mask` is set.
pub open spec fn port_enabled(mask: u32, port: u8) -> bool {
    (mask >> (port as u32)) & 1u32 == 1u32
}

/// Tests bit `port` of `mask`.
pub fn port_bit(mask: u32, port: u8) -> (r: bool)
    requires
        port < 32,
    ensures
        r == port_enabled(mask, port),
{
    (mask >> (port as u32)) & 1u32 == 1u32
}

/// Running counters of a session.
#[derive(Debug, Clone, Copy, PartialEq, Eq)]
pub struct SessionStats {
    /// Events decoded, whether or not they were forwarded.
    pub events_processed: u64,
    /// Raw bytes received while capturing.
    pub bytes_processed: u64,
    /// Frames that no decoder took.
    pub dropped_events: u64,
    /// The clock reading at which the current capture started.
    pub start_time: Option<u64>,
}

/// Statistics of a capture that started at `now`.
pub open spec fn fresh_stats(now: u64) -> SessionStats {
    SessionStats { events_processed: 0, bytes_processed: 0, dropped_events: 0, start_time: Some(now) }
}

/// `x + n`, stopping at `u64::MAX`.
pub open spec fn sat_add(x: u64, n: nat) -> u64 {
    if x + n <= u64::MAX {
        (x + n) as u64
    } else {
        u64::MAX
    }
}

proof fn lemma_sat_add_twice(x: u64, a: nat, b: nat)
    ensures
        sat_add(sat_add(x, a), b) == sat_add(x, a + b),
{
}

/// A message that the session sends to its client.
#[derive(Debug, Clone, PartialEq)]
pub enum SessionMessage {
    /// Whether a probe is engaged, and what it is attached to.
    Status { connected: bool, target: Option<String>, chip: Option<String>, probe: Option<String> },
    /// The port-to-decoder mapping of a capture that started.
    Meta { ports_map: HashMap<u8, PortConfig>, cpu_hz: Option<u64>, dwt_available: bool },
    /// A decoded event that passed the filter.
    Event { timestamp: u64, port: u8, event: TraceEvent },
}

/// The mathematical value of a [`SessionMessage`].
pub enum MessageView {
    Status {
        connected: bool,
        target: Option<Seq<char>>,
        chip: Option<Seq<char>>,
        probe: Option<Seq<char>>,
    },
    Meta { ports_map: Map<u8, PortConfigView>, cpu_hz: Option<u64>, dwt_available: bool },
    Event { timestamp: u64, port: u8, event: EventView },
}

/// The views of the configurations in a port map.
pub open spec fn ports_view(m: Map<u8, PortConfig>) -> Map<u8, PortConfigView> {
    Map::new(|p: u8| m.contains_key(p), |p: u8| m[p]@)
}

impl View for SessionMessage {
    type V = MessageView;

    open spec fn view(&self) -> MessageView {
        match self {
            SessionMessage::Status { connected, target, chip, probe } => MessageView::Status {
                connected: *connected,
                target: opt_text(*target),
                chip: opt_text(*chip),
                probe: opt_text(*probe),
            },
            SessionMessage::Meta { ports_map, cpu_hz, dwt_available } => MessageView::Meta {
                ports_map: ports_view(ports_map@),
                cpu_hz: *cpu_hz,
                dwt_available: *dwt_available,
            },
            SessionMessage::Event { timestamp, port, event } => MessageView::Event {
                timestamp: *timestamp,
                port: *port,
                event: event@,
            },
        }
    }
}

/// The views of a sequence of messages.
pub open spec fn messages_view(v: Seq<SessionMessage>) -> Seq<MessageView> {
    v.map_values(|m: SessionMessage| m@)
}

/// Which decoded events are forwarded.
pub struct FilterView {
    /// Ports whose events are forwarded.
    pub port_mask: u32,
    /// Event kinds that are forwarded, by name; all when `None`.
    pub event_types: Option<Seq<Seq<char>>>,
}

/// The filter that forwards everything.
pub open spec fn open_filter() -> FilterView {
    FilterView { port_mask: ALL_PORTS, event_types: None }
}

/// The name of an event's kind.
pub open spec fn kind_name(e: EventView) -> Seq<char> {
    match e {
        EventView::Text { .. } => "Text"@,
        EventView::Marker { .. } => "Marker"@,
        EventView::TaskSwitch { .. } => "TaskSwitch"@,
        EventView::IsrEnter { .. } => "IsrEnter"@,
        EventView::IsrExit { .. } => "IsrExit"@,
        EventView::IdleEnter => "IdleEnter"@,
        EventView::IdleExit => "IdleExit"@,
        EventView::Counter { .. } => "Counter"@,
        EventView::Raw { .. } => "Raw"@,
    }
}

/// Whether `filter` forwards event `e` of port `port`.
pub open spec fn forwards(filter: FilterView, port: u8, e: EventView) -> bool {
    &&& port_enabled(filter.port_mask, port)
    &&& match filter.event_types {
        None => true,
        Some(names) => names.contains(kind_name(e)),
    }
}

/// The messages for the events `evs` of a frame of `port` stamped
/// `timestamp`: those that `filter` forwards, in order.
pub open spec fn forwarded(filter: FilterView, timestamp: u64, port: u8, evs: Seq<EventView>) -> Seq<
    MessageView,
>
    decreases evs.len(),
{
    if evs.len() == 0 {
        seq![]
    } else {
        let prev = forwarded(filter, timestamp, port, evs.drop_last());
        if forwards(filter, port, evs.last()) {
            prev.push(MessageView::Event { timestamp, port, event: evs.last() })
        } else {
            prev
        }
    }
}

/// The outcome of running frames through the registry.
pub struct PipelineView {
    pub decoders: Seq<Option<PortDecoderView>>,
    pub decoded: nat,
    pub dropped: nat,
    pub messages: Seq<MessageView>,
}

/// One frame through the registry: the decoder of its port decodes it and
/// the forwarded events go out; a frame of a port without decoder is
/// dropped.
pub open spec fn pipeline_step(prev: PipelineView, filter: FilterView, f: FrameView) -> PipelineView {
    if f.port < REGISTRY_SLOTS && prev.decoders[f.port as int] is Some {
        let d = prev.decoders[f.port as int]->0;
        let evs = PortDecoder::decoded(d, f.data);
        PipelineView {
            decoders: prev.decoders.update(f.port as int, Some(PortDecoder::after(d, f.data))),
            decoded: prev.decoded + evs.len(),
            dropped: prev.dropped,
            messages: prev.messages + forwarded(filter, f.timestamp->0, f.port, evs),
        }
    } else {
        PipelineView { dropped: prev.dropped + 1, ..prev }
    }
}

/// Frames through the registry, in order.
pub open spec fn pipeline(
    decoders: Seq<Option<PortDecoderView>>,
    filter: FilterView,
    fs: Seq<FrameView>,
) -> PipelineView
    decreases fs.len(),
{
    if fs.len() == 0 {
        PipelineView { decoders, decoded: 0, dropped: 0, messages: seq![] }
    } else {
        pipeline_step(pipeline(decoders, filter, fs.drop_last()), filter, fs.last())
    }
}

/// The view of a registry slot.
pub open spec fn slot_view(o: Option<PortDecoder>) -> Option<PortDecoderView> {
    match o {
        Some(d) => Some(d@),
        None => None,
    }
}

/// The registry for a port mask: a fresh decoder of the standard kind for
/// each enabled port, and nothing for the others.
pub open spec fn registry_for(mask: u32) -> Seq<Option<PortDecoderView>> {
    Seq::new(
        32,
        |p: int|
            if port_enabled(mask, p as u8) {
                Some(fresh_decoder(standard_kind(p as u8)))
            } else {
                None
            },
    )
}

/// The standard configurations of the enabled ports of a mask.
pub open spec fn enabled_ports_map(mask: u32) -> Map<u8, PortConfigView> {
    Map::new(|p: u8| p < 32 && port_enabled(mask, p), |p: u8| standard_port(p))
}

/// The status sent when capture starts.
pub open spec fn connected_status(probe: ProbeSessionView) -> MessageView {
    MessageView::Status {
        connected: true,
        target: probe.target,
        chip: probe.chip,
        probe: Some(simulated_probe_id()),
    }
}

/// The status sent when capture stops.
pub open spec fn disconnected_status() -> MessageView {
    MessageView::Status { connected: false, target: None, chip: None, probe: None }
}

/// The meta message sent when capture of the ports of `mask` starts.
pub open spec fn meta_for(mask: u32) -> MessageView {
    MessageView::Meta {
        ports_map: enabled_ports_map(mask),
        cpu_hz: Some(TARGET_CPU_HZ),
        dwt_available: true,
    }
}

/// The mathematical value of an [`ItmSession`].
pub struct SessionView {
    pub probe: Option<ProbeSessionView>,
    pub decoders: Seq<Option<PortDecoderView>>,
    pub processor: ProcessorView,
    pub stats: SessionStats,
    pub active: bool,
    pub filter: FilterView,
}

/// The state right after a capture of the ports of `mask` started at `now`.
pub open spec fn started(mask: u32, now: u64) -> SessionView {
    SessionView {
        probe: Some(simulated_session()),
        decoders: registry_for(mask),
        processor: idle_processor(),
        stats: fresh_stats(now),
        active: true,
        filter: open_filter(),
    }
}

/// What feeding `data` to a session in state `s` does: the next state and
/// the messages sent. While idle nothing changes and nothing is sent.
pub open spec fn session_step(s: SessionView, data: Seq<u8>) -> (SessionView, Seq<MessageView>) {
    if !s.active {
        (s, seq![])
    } else {
        let bytes = s.processor.pending + data;
        let run = pipeline(s.decoders, s.filter, stamped(frames_in(bytes), s.processor.clock));
        (
            SessionView {
                decoders: run.decoders,
                processor: ProcessorView {
                    pending: frame_rest(bytes),
                    clock: clock_after(s.processor.clock, frames_in(bytes).len()),
                },
                stats: SessionStats {
                    events_processed: sat_add(s.stats.events_processed, run.decoded),
                    bytes_processed: sat_add(s.stats.bytes_processed, data.len()),
                    dropped_events: sat_add(s.stats.dropped_events, run.dropped),
                    start_time: s.stats.start_time,
                },
                ..s
            },
            run.messages,
        )
    }
}

/// Two runs of the registry one after the other.
pub open spec fn pipeline_join(x: PipelineView, y: PipelineView) -> PipelineView {
    PipelineView {
        decoders: y.decoders,
        decoded: x.decoded + y.decoded,
        dropped: x.dropped + y.dropped,
        messages: x.messages + y.messages,
    }
}

/// Running frames `xs + ys` through the registry is running `xs`, then
/// `ys` from the registry that `xs` left.
pub proof fn lemma_pipeline_concat(
    decoders: Seq<Option<PortDecoderView>>,
    filter: FilterView,
    xs: Seq<FrameView>,
    ys: Seq<FrameView>,
)
    ensures
        pipeline(decoders, filter, xs + ys) == pipeline_join(
            pipeline(decoders, filter, xs),
            pipeline(pipeline(decoders, filter, xs).decoders, filter, ys),
        ),
    decreases ys.len(),
{
    let x = pipeline(decoders, filter, xs);
    if ys.len() == 0 {
        assert(xs + ys =~= xs);
        assert(x.messages + Seq::<MessageView>::empty() =~= x.messages);
    } else {
        assert((xs + ys).drop_last() =~= xs + ys.drop_last());
        assert((xs + ys).last() == ys.last());
        lemma_pipeline_concat(decoders, filter, xs, ys.drop_last());
        let y0 = pipeline(x.decoders, filter, ys.drop_last());
        let f = ys.last();
        if f.port < REGISTRY_SLOTS && y0.decoders[f.port as int] is Some {
            let d = y0.decoders[f.port as int]->0;
            let evs = PortDecoder::decoded(d, f.data);
            assert(x.messages + y0.messages + forwarded(filter, f.timestamp->0, f.port, evs)
                =~= x.messages + (y0.messages + forwarded(filter, f.timestamp->0, f.port, evs)));
        }
    }
}

/// Stamping `xs + ys` from `clock` stamps `xs` from `clock` and `ys` from
/// the clock that `xs` left.
pub proof fn lemma_stamped_concat(xs: Seq<FramePayload>, ys: Seq<FramePayload>, clock: u64)
    ensures
        stamped(xs + ys, clock) == stamped(xs, clock) + stamped(ys, clock_after(clock, xs.len())),
{
    assert forall|j: int| 0 <= j < ys.len() implies #[trigger] stamped(
        ys,
        clock_after(clock, xs.len()),
    )[j].timestamp == Some(clock_after(clock, (xs.len() + j + 1) as nat)) by {
        lemma_clock_steps(clock, xs.len(), (j + 1) as nat);
    }
    assert(stamped(xs + ys, clock) =~= stamped(xs, clock) + stamped(
        ys,
        clock_after(clock, xs.len()),
    ));
}

/// Chunk boundaries carry no meaning: feeding `a` and then `b` to a
/// session leaves it in the state that feeding `a + b` at once does, and
/// sends the same messages in the same order.
pub proof fn lemma_session_chunks(s: SessionView, a: Seq<u8>, b: Seq<u8>)
    ensures
        ({
            let (s1, m1) = session_step(s, a);
            let (s2, m2) = session_step(s1, b);
            session_step(s, a + b) == (s2, m1 + m2)
        }),
{
    let (s1, m1) = session_step(s, a);
    let (s2, m2) = session_step(s1, b);
    if !s.active {
        assert(m1 + m2 =~= Seq::<MessageView>::empty());
    } else {
        let p = s.processor.pending;
        let c = s.processor.clock;
        assert(p + (a + b) =~= (p + a) + b);
        lemma_frame_chunks(p + a, b);
        let f1 = frames_in(p + a);
        let f2 = frames_in(frame_rest(p + a) + b);
        lemma_stamped_concat(f1, f2, c);
        lemma_pipeline_concat(s.decoders, s.filter, stamped(f1, c), stamped(f2, clock_after(c, f1.len())));
        lemma_clock_steps(c, f1.len(), f2.len());
        let r1 = pipeline(s.decoders, s.filter, stamped(f1, c));
        let r2 = pipeline(r1.decoders, s.filter, stamped(f2, clock_after(c, f1.len())));
        lemma_sat_add_twice(s.stats.events_processed, r1.decoded, r2.decoded);
        lemma_sat_add_twice(s.stats.bytes_processed, a.len(), b.len());
        lemma_sat_add_twice(s.stats.dropped_events, r1.dropped, r2.dropped);
        assert(session_step(s, a + b).0 == s2);
    }
}

/// The filter decides only what is forwarded: under any two filters the
/// same frames leave the registry in the same state, and the same numbers
/// of events are decoded and frames dropped.
pub proof fn lemma_filter_only_forwards(
    decoders: Seq<Option<PortDecoderView>>,
    f1: FilterView,
    f2: FilterView,
    fs: Seq<FrameView>,
)
    ensures
        pipeline(decoders, f1, fs).decoders == pipeline(decoders, f2, fs).decoders,
        pipeline(decoders, f1, fs).decoded == pipeline(decoders, f2, fs).decoded,
        pipeline(decoders, f1, fs).dropped == pipeline(decoders, f2, fs).dropped,
    decreases fs.len(),
{
    if fs.len() > 0 {
        lemma_filter_only_forwards(decoders, f1, f2, fs.drop_last());
    }
}

/// A reconfigured filter leaves decoding alone: from two sessions that
/// differ only in their filters, the same bytes lead to the same registry,
/// demultiplexer and statistics.
pub proof fn lemma_filter_keeps_statistics(s: SessionView, filter: FilterView, data: Seq<u8>)
    ensures
        ({
            let t = SessionView { filter, ..s };
            let (s1, _) = session_step(s, data);
            let (t1, _) = session_step(t, data);
            &&& s1.decoders == t1.decoders
            &&& s1.processor == t1.processor
            &&& s1.stats == t1.stats
        }),
{
    let bytes = s.processor.pending + data;
    lemma_filter_only_forwards(
        s.decoders,
        s.filter,
        filter,
        stamped(frames_in(bytes), s.processor.clock),
    );
}

/// Restarting forgets the earlier capture. From any state `s`, a start of
/// the ports of `mask` at clock reading `now` zeroes the counters and
/// records `now`, which is no earlier than the previous start time when
/// the clock did not go back; every enabled port gets a fresh decoder, so
/// a lone line feed on an enabled text port yields no event, whatever
/// text was pending before.
pub proof fn lemma_restart_forgets(s: SessionView, mask: u32, now: u64, port: u8)
    requires
        port < 32,
        port_enabled(mask, port),
        standard_kind(port) == DecoderKind::Text,
    ensures
        ({
            let t = started(mask, now);
            &&& t.stats.events_processed == 0
            &&& t.stats.bytes_processed == 0
            &&& t.stats.dropped_events == 0
            &&& t.stats.start_time == Some(now)
            &&& (s.stats.start_time is Some && s.stats.start_time->0 <= now ==> s.stats.start_time->0
                <= t.stats.start_time->0)
            &&& t.decoders[port as int] == Some(PortDecoderView::Text(seq![]))
            &&& PortDecoder::decoded(t.decoders[port as int]->0, seq![LINE_FEED]) == Seq::<
                EventView,
            >::empty()
        }),
{
    let d = seq![LINE_FEED];
    assert(d.drop_first() =~= Seq::<u8>::empty());
    assert(text_scan(seq![], d) =~= line_events(seq![]) + text_scan(seq![], d.drop_first()));
    assert(line_events(seq![]) =~= Seq::<EventView>::empty());
}

/// One client's capture context.
pub struct ItmSession {
    probe_manager: ProbeManager,
    decoders: Vec<Option<PortDecoder>>,
    processor: ItmProcessor,
    stats: SessionStats,
    active: bool,
    port_filter: u32,
    type_filter: Option<Vec<String>>,
}

/// The views of a list of names.
pub open spec fn names_view(v: Option<Vec<String>>) -> Option<Seq<Seq<char>>> {
    match v {
        Some(names) => Some(names@.map_values(|s: String| s@)),
        None => None,
    }
}

impl View for ItmSession {
    type V = SessionView;

    closed spec fn view(&self) -> SessionView {
        SessionView {
            probe: self.probe_manager@,
            decoders: self.decoders@.map_values(|o: Option<PortDecoder>| slot_view(o)),
            processor: self.processor@,
            stats: self.stats,
            active: self.active,
            filter: FilterView { port_mask: self.port_filter, event_types: names_view(self.type_filter) },
        }
    }
}

/// The name of an event's kind.
pub fn event_kind_name(e: &TraceEvent) -> (r: String)
    ensures
        r@ == kind_name(e@),
{
    match e {
        TraceEvent::Text { .. } => "Text".to_owned(),
        TraceEvent::Marker { .. } => "Marker".to_owned(),
        TraceEvent::TaskSwitch { .. } => "TaskSwitch".to_owned(),
        TraceEvent::IsrEnter { .. } => "IsrEnter".to_owned(),
        TraceEvent::IsrExit { .. } => "IsrExit".to_owned(),
        TraceEvent::IdleEnter => "IdleEnter".to_owned(),
        TraceEvent::IdleExit => "IdleExit".to_owned(),
        TraceEvent::Counter { .. } => "Counter".to_owned(),
        TraceEvent::Raw { .. } => "Raw".to_owned(),
    }
}

/// Builds the registry for a port mask.
fn build_registry(mask: u32) -> (r: Vec<Option<PortDecoder>>)
    ensures
        r@.map_values(|o: Option<PortDecoder>| slot_view(o)) == registry_for(mask),
{
    let mut slots: Vec<Option<PortDecoder>> = Vec::new();
    let mut p: u8 = 0;
    while p < 32
        invariant
            p <= 32,
            slots@.len() == p,
            forall|j: int|
                0 <= j < p ==> slot_view(#[trigger] slots@[j]) == registry_for(mask)[j],
        decreases 32 - p,
    {
        if port_bit(mask, p) {
            slots.push(Some(PortDecoder::for_port(p)));
        } else {
            slots.push(None);
        }
        p = p + 1;
    }
    assert(slots@.map_values(|o: Option<PortDecoder>| slot_view(o)) =~= registry_for(mask));
    slots
}

/// Builds the standard configurations of the enabled ports of a mask.
fn enabled_ports(mask: u32) -> (r: HashMap<u8, PortConfig>)
    ensures
        ports_view(r@) == enabled_ports_map(mask),
{
    let mut ports: HashMap<u8, PortConfig> = HashMap::new();
    let mut p: u8 = 0;
    while p < 32
        invariant
            p <= 32,
            forall|q: u8| #[trigger] ports@.contains_key(q) <==> (q < p && port_enabled(mask, q)),
            forall|q: u8| #[trigger] ports@.contains_key(q) ==> ports@[q]@ == standard_port(q),
        decreases 32 - p,
    {
        if port_bit(mask, p) {
            ports.insert(p, standard_config(p));
        }
        p = p + 1;
    }
    assert(ports_view(ports@) =~= enabled_ports_map(mask));
    ports
}

/// Clones an optional string.
fn clone_text(s: &Option<String>) -> (r: Option<String>)
    ensures
        opt_text(r) == opt_text(*s),
{
    match s {
        Some(t) => Some(t.clone()),
        None => None,
    }
}

impl ItmSession {
    /// An idle session: no probe session, an empty registry, nothing
    /// buffered, zero statistics, and a filter that forwards everything.
    pub fn new() -> (r: ItmSession)
        ensures
            r@ == (SessionView {
                probe: None,
                decoders: registry_for(0),
                processor: idle_processor(),
                stats: SessionStats {
                    events_processed: 0,
                    bytes_processed: 0,
                    dropped_events: 0,
                    start_time: None,
                },
                active: false,
                filter: open_filter(),
            }),
    {
        ItmSession {
            probe_manager: ProbeManager::new(),
            decoders: build_registry(0),
            processor: ItmProcessor::new(),
            stats: SessionStats {
                events_processed: 0,
                bytes_processed: 0,
                dropped_events: 0,
                start_time: None,
            },
            active: false,
            port_filter: ALL_PORTS,
            type_filter: None,
        }
    }

    /// Starts capturing the ports of `allow_mask` at `baud_rate` (or the
    /// probe's default), at clock reading `now`. The registry is rebuilt
    /// from the mask, the demultiplexer reset, the statistics zeroed, and
    /// the filter opened, whatever state the session was in. Sends the
    /// connected status and the port mapping. If the probe cannot be
    /// engaged the session is left as it was.
    pub fn start_tracing(&mut self, allow_mask: u32, baud_rate: Option<u32>, now: u64) -> (r: Result<
        Vec<SessionMessage>,
        ProbeError,
    >)
        ensures
            r is Ok,
            final(self)@ == started(allow_mask, now),
            messages_view(r->Ok_0@) == seq![
                connected_status(simulated_session()),
                meta_for(allow_mask),
            ],
    {
        match self.probe_manager.start_session(allow_mask, baud_rate) {
            Err(e) => {
                return Err(e);
            },
            Ok(()) => {},
        }
        self.decoders = build_registry(allow_mask);
        self.processor.reset();
        self.stats = SessionStats {
            events_processed: 0,
            bytes_processed: 0,
            dropped_events: 0,
            start_time: Some(now),
        };
        self.active = true;
        self.port_filter = ALL_PORTS;
        self.type_filter = None;
        let status = match self.probe_manager.get_session_info() {
            Some(info) => SessionMessage::Status {
                connected: info.connected,
                target: clone_text(&info.target),
                chip: clone_text(&info.chip),
                probe: Some("mock:0001".to_owned()),
            },
            None => SessionMessage::Status {
                connected: false,
                target: None,
                chip: None,
                probe: None,
            },
        };
        let meta = SessionMessage::Meta {
            ports_map: enabled_ports(allow_mask),
            cpu_hz: Some(TARGET_CPU_HZ),
            dwt_available: true,
        };
        let out = vec![status, meta];
        assert(messages_view(out@) =~= seq![
            connected_status(simulated_session()),
            meta_for(allow_mask),
        ]);
        Ok(out)
    }

    /// Stops capturing: halts the probe and sends the disconnected status.
    /// The registry is kept. On an idle session the state stays as it is
    /// and the disconnected status already in effect is sent once more;
    /// stopping never fails.
    pub fn stop_tracing(&mut self) -> (r: Vec<SessionMessage>)
        ensures
            messages_view(r@) == seq![disconnected_status()],
            old(self)@.active ==> final(self)@ == (SessionView {
                probe: None,
                active: false,
                ..old(self)@
            }),
            !old(self)@.active ==> final(self)@ == old(self)@,
    {
        if self.active {
            let _ = self.probe_manager.stop_session();
            self.active = false;
        }
        let out = vec![
            SessionMessage::Status { connected: false, target: None, chip: None, probe: None },
        ];
        assert(messages_view(out@) =~= seq![disconnected_status()]);
        out
    }

    /// Sets which decoded events are forwarded: those of the ports of
    /// `port_mask` (all ports when `None`) whose kind is named in
    /// `event_types` (all kinds when `None`). Decoding is not affected.
    pub fn reconfigure_filter(&mut self, port_mask: Option<u32>, event_types: Option<Vec<String>>)
        ensures
            final(self)@ == (SessionView {
                filter: FilterView {
                    port_mask: match port_mask {
                        Some(m) => m,
                        None => ALL_PORTS,
                    },
                    event_types: names_view(event_types),
                },
                ..old(self)@
            }),
    {
        self.port_filter = match port_mask {
            Some(m) => m,
            None => ALL_PORTS,
        };
        self.type_filter = event_types;
    }

    /// The running statistics.
    pub fn get_stats(&self) -> (r: SessionStats)
        ensures
            r == self@.stats,
    {
        self.stats
    }

    /// Whether a capture is running.
    pub fn is_active(&self) -> (r: bool)
        ensures
            r == self@.active,
    {
        self.active
    }

    /// Whether the filter forwards event `e` of port `port`.
    fn passes_filter(&self, port: u8, e: &TraceEvent) -> (r: bool)
        requires
            port < 32,
        ensures
            r == forwards(self@.filter, port, e@),
    {
        if !port_bit(self.port_filter, port) {
            return false;
        }
        assert(port_enabled(self@.filter.port_mask, port));
        match &self.type_filter {
            None => true,
            Some(names) => {
                let name = event_kind_name(e);
                let ghost views = names@.map_values(|s: String| s@);
                assert(self@.filter.event_types == Some(views));
                let mut j: usize = 0;
                while j < names.len()
                    invariant
                        j <= names@.len(),
                        views == names@.map_values(|s: String| s@),
                        name@ == kind_name(e@),
                        port_enabled(self@.filter.port_mask, port),
                        self@.filter.event_types == Some(views),
                        forall|k: int| 0 <= k < j ==> views[k] != name@,
                    decreases names@.len() - j,
                {
                    if names[j] == name {
                        assert(views[j as int] == names@[j as int]@);
                        assert(views[j as int] == kind_name(e@));
                        assert(views.contains(kind_name(e@)));
                        assert(forwards(self@.filter, port, e@));
                        return true;
                    }
                    j = j + 1;
                }
                assert(!views.contains(kind_name(e@)));
                false
            },
        }
    }

    /// Appends to `out` the messages for the events of one frame of `port`
    /// stamped `timestamp` that the filter forwards.
    fn forward_events(
        &self,
        timestamp: u64,
        port: u8,
        evs: Vec<TraceEvent>,
        out: &mut Vec<SessionMessage>,
    )
        requires
            port < 32,
        ensures
            messages_view(final(out)@) == messages_view(old(out)@) + forwarded(
                self@.filter,
                timestamp,
                port,
                events_view(evs@),
            ),
    {
        let ghost all = events_view(evs@);
        let ghost start = messages_view(out@);
        let mut rest = evs;
        let n = rest.len();
        let mut j: usize = 0;
        assert(events_view(rest@) =~= all.subrange(0, n as int));
        assert(start + forwarded(self@.filter, timestamp, port, all.subrange(0, 0)) =~= start);
        while rest.len() > 0
            invariant
                port < 32,
                j + rest@.len() == n,
                all.len() == n,
                events_view(rest@) =~= all.subrange(j as int, n as int),
                messages_view(out@) == start + forwarded(
                    self@.filter,
                    timestamp,
                    port,
                    all.subrange(0, j as int),
                ),
            decreases rest@.len(),
        {
            let ghost old_rest = rest@;
            assert(events_view(old_rest)[0] == old_rest[0]@);
            assert(all.subrange(j as int, n as int)[0] == all[j as int]);
            let e = rest.remove(0);
            assert(e@ == all[j as int]);
            assert(rest@ =~= old_rest.subrange(1, old_rest.len() as int));
            assert forall|k: int| 0 <= k < rest@.len() implies #[trigger] events_view(rest@)[k]
                == all[j + 1 + k] by {
                assert(events_view(old_rest)[k + 1] == old_rest[k + 1]@);
                assert(all.subrange(j as int, n as int)[k + 1] == all[j + 1 + k]);
            }
            assert(all.subrange(0, j + 1).drop_last() =~= all.subrange(0, j as int));
            assert(events_view(rest@) =~= all.subrange(j + 1, n as int));
            let ghost before = out@;
            if self.passes_filter(port, &e) {
                out.push(SessionMessage::Event { timestamp, port, event: e });
                assert(messages_view(out@) =~= messages_view(before).push(
                    MessageView::Event { timestamp, port, event: all[j as int] },
                ));
            }
            j = j + 1;
        }
        assert(all.subrange(0, n as int) =~= all);
    }

    /// Feeds raw trace bytes through the demultiplexer and the registry.
    /// While capturing, every complete frame goes to the decoder of its
    /// port, in order; all decoded events are counted, and those that the
    /// filter passes are returned as messages stamped with their frame's
    /// timestamp. A frame of a port without decoder is counted as dropped.
    /// While idle the bytes are ignored.
    #[verifier::rlimit(40)]
    pub fn process_data(&mut self, data: &[u8]) -> (r: Vec<SessionMessage>)
        requires
            old(self)@.decoders.len() == REGISTRY_SLOTS,
        ensures
            final(self)@.decoders.len() == REGISTRY_SLOTS,
            (final(self)@, messages_view(r@)) == session_step(old(self)@, data@),
    {
        if !self.active {
            let none: Vec<SessionMessage> = Vec::new();
            assert(messages_view(none@) =~= Seq::<MessageView>::empty());
            return none;
        }
        let ghost s = self@;
        let frames = self.processor.process_data(data);
        let ghost fs = frames_view(frames@);
        self.stats.bytes_processed = self.stats.bytes_processed.saturating_add(data.len() as u64);
        let mut out: Vec<SessionMessage> = Vec::new();
        let mut i: usize = 0;
        assert(fs.subrange(0, 0) =~= Seq::<FrameView>::empty());
        assert(messages_view(out@) =~= Seq::<MessageView>::empty());
        while i < frames.len()
            invariant
                fs == frames_view(frames@),
                fs == stamped(frames_in(s.processor.pending + data@), s.processor.clock),
                0 <= i <= frames@.len(),
                self.decoders@.len() == REGISTRY_SLOTS,
                ({
                    let run = pipeline(s.decoders, s.filter, fs.subrange(0, i as int));
                    &&& self@ == SessionView {
                        decoders: run.decoders,
                        processor: ProcessorView {
                            pending: frame_rest(s.processor.pending + data@),
                            clock: clock_after(
                                s.processor.clock,
                                frames_in(s.processor.pending + data@).len(),
                            ),
                        },
                        stats: SessionStats {
                            events_processed: sat_add(s.stats.events_processed, run.decoded),
                            bytes_processed: sat_add(s.stats.bytes_processed, data@.len()),
                            dropped_events: sat_add(s.stats.dropped_events, run.dropped),
                            start_time: s.stats.start_time,
                        },
                        ..s
                    }
                    &&& messages_view(out@) == run.messages
                }),
            decreases frames@.len() - i,
        {
            let ghost prev = pipeline(s.decoders, s.filter, fs.subrange(0, i as int));
            assert(fs.subrange(0, i + 1).drop_last() =~= fs.subrange(0, i as int));
            assert(fs[i as int] == frames@[i as int]@);
            let port = frames[i].port;
            let ts = match frames[i].timestamp {
                Some(t) => t,
                None => 0,
            };
            let idx = port as usize;
            let ghost f = fs[i as int];
            assert(frames_view(frames@).len() == frames@.len());
            assert(stamped(frames_in(s.processor.pending + data@), s.processor.clock)[i as int]
                .timestamp is Some);
            assert(f.timestamp is Some);
            assert(ts == f.timestamp->0);
            assert(port == f.port);
            if idx < REGISTRY_SLOTS && self.decoders[idx].is_some() {
                let ghost old_slots = self.decoders@;
                assert(prev.decoders[idx as int] == slot_view(old_slots[idx as int]));
                let ghost d = prev.decoders[idx as int]->0;
                let evs = match &mut self.decoders[idx] {
                    Some(dec) => dec.decode(port, frames[i].data.as_slice(), ts),
                    None => Vec::new(),
                };
                assert(events_view(evs@) == PortDecoder::decoded(d, f.data));
                assert(self.decoders@.map_values(|o: Option<PortDecoder>| slot_view(o))
                    =~= prev.decoders.update(idx as int, Some(PortDecoder::after(d, f.data))));
                proof {
                    lemma_sat_add_twice(s.stats.events_processed, prev.decoded, evs@.len());
                }
                self.stats.events_processed = self.stats.events_processed.saturating_add(
                    evs.len() as u64,
                );
                assert(self@.filter == s.filter);
                self.forward_events(ts, port, evs, &mut out);
                assert(self@.decoders == pipeline_step(prev, s.filter, f).decoders);
                assert(messages_view(out@) == pipeline_step(prev, s.filter, f).messages);
            } else {
                proof {
                    lemma_sat_add_twice(s.stats.dropped_events, prev.dropped, 1);
                }
                self.stats.dropped_events = self.stats.dropped_events.saturating_add(1);
                assert(self@.decoders == pipeline_step(prev, s.filter, f).decoders);
            }
            assert(pipeline(s.decoders, s.filter, fs.subrange(0, i + 1)) == pipeline_step(
                prev,
                s.filter,
                f,
            ));
            i = i + 1;
        }
        assert(fs.subrange(0, frames@.len() as int) =~= fs);
        out
    }

    /// Carries out a client command at clock reading `now` and returns the
    /// messages to send back. `Connect` reports the requested probe and
    /// chip as connected; `Start`, `Stop` and `SetFilter` act as
    /// [`ItmSession::start_tracing`], [`ItmSession::stop_tracing`] and
    /// [`ItmSession::reconfigure_filter`] do.
    pub fn handle_command(&mut self, msg: ClientMessage, now: u64) -> (r: Result<
        Vec<SessionMessage>,
        ProbeError,
    >)
        ensures
            r is Ok,
            match msg {
                ClientMessage::Connect { probe_selector, chip, token } => {
                    &&& final(self)@ == old(self)@
                    &&& messages_view(r->Ok_0@) == seq![
                        MessageView::Status {
                            connected: true,
                            target: Some(simulated_target()),
                            chip: opt_text(chip),
                            probe: opt_text(probe_selector),
                        },
                    ]
                },
                ClientMessage::Start { allow_mask, baud_rate } => {
                    &&& final(self)@ == started(allow_mask, now)
                    &&& messages_view(r->Ok_0@) == seq![
                        connected_status(simulated_session()),
                        meta_for(allow_mask),
                    ]
                },
                ClientMessage::Stop => {
                    &&& messages_view(r->Ok_0@) == seq![disconnected_status()]
                    &&& old(self)@.active ==> final(self)@ == (SessionView {
                        probe: None,
                        active: false,
                        ..old(self)@
                    })
                    &&& !old(self)@.active ==> final(self)@ == old(self)@
                },
                ClientMessage::SetFilter { port_mask, event_types } => {
                    &&& final(self)@ == (SessionView {
                        filter: FilterView {
                            port_mask: match port_mask {
                                Some(m) => m,
                                None => ALL_PORTS,
                            },
                            event_types: names_view(event_types),
                        },
                        ..old(self)@
                    })
                    &&& r->Ok_0@.len() == 0
                },
            },
    {
        match msg {
            ClientMessage::Connect { probe_selector, chip, token } => {
                let out = vec![
                    SessionMessage::Status {
                        connected: true,
                        target: Some("Mock Target".to_owned()),
                        chip,
                        probe: probe_selector,
                    },
                ];
                assert(messages_view(out@) =~= seq![out@[0]@]);
                Ok(out)
            },
            ClientMessage::Start { allow_mask, baud_rate } => {
                self.start_tracing(allow_mask, baud_rate, now)
            },
            ClientMessage::Stop => Ok(self.stop_tracing()),
            ClientMessage::SetFilter { port_mask, event_types } => {
                self.reconfigure_filter(port_mask, event_types);
                Ok(Vec::new())
            },
        }
    }
}

} // verus!
