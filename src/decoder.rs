//! Port decoders: one state machine per decoder kind, turning the payload
//! bytes of one stimulus port into trace events. Every decoder is total:
//! short or malformed input yields no event (or a `Raw` event), never an
//! error.
use vstd::prelude::*;

use crate::bytes::{le32, le64, read_u32_le, read_u64_le};
use crate::protocol::{events_view, DecoderKind, DecoderType, EventView, TraceEvent};
use crate::text::{decimal, labelled, lossy_text, text_from_bytes, trimmed, trimmed_text};

verus! {

/// The line-feed byte that ends a text line.
pub const LINE_FEED: u8 = 10;

/// A per-port decoder. Its behaviour is a function of its view and the
/// payload: `decoded` gives the events, `after` the view that follows.
pub trait ItmDecoder: View + Sized {
    /// The events that decoding `data` from state `state` yields.
    spec fn decoded(state: Self::V, data: Seq<u8>) -> Seq<EventView>;

    /// The state after decoding `data` from state `state`.
    spec fn after(state: Self::V, data: Seq<u8>) -> Self::V;

    /// The state that `reset` returns a decoder in state `state` to.
    spec fn initial(state: Self::V) -> Self::V;

    /// Decodes one payload of port `port` captured at `timestamp`.
    fn decode(&mut self, port: u8, data: &[u8], timestamp: u64) -> (r: Vec<TraceEvent>)
        ensures
            events_view(r@) == Self::decoded(old(self)@, data@),
            final(self)@ == Self::after(old(self)@, data@),
    ;

    /// Drops all accumulated state.
    fn reset(&mut self)
        ensures
            final(self)@ == Self::initial(old(self)@),
    ;
}

/// The event that one complete text line gives: none when the line is
/// empty or whitespace only.
pub open spec fn line_events(line: Seq<u8>) -> Seq<EventView> {
    if line.len() == 0 || trimmed_text(lossy_text(line)).len() == 0 {
        seq![]
    } else {
        seq![EventView::Text { message: lossy_text(line) }]
    }
}

/// The events of the lines that `data` completes, when `line` holds the
/// bytes of the unfinished line before it.
pub open spec fn text_scan(line: Seq<u8>, data: Seq<u8>) -> Seq<EventView>
    decreases data.len(),
{
    if data.len() == 0 {
        seq![]
    } else if data[0] == LINE_FEED {
        line_events(line) + text_scan(seq![], data.drop_first())
    } else {
        text_scan(line.push(data[0]), data.drop_first())
    }
}

/// The unfinished line left after `data`, when `line` held the unfinished
/// line before it.
pub open spec fn text_rest(line: Seq<u8>, data: Seq<u8>) -> Seq<u8>
    decreases data.len(),
{
    if data.len() == 0 {
        line
    } else if data[0] == LINE_FEED {
        text_rest(seq![], data.drop_first())
    } else {
        text_rest(line.push(data[0]), data.drop_first())
    }
}

/// Splitting the input of the text decoder anywhere changes nothing: the
/// events of `a + b` are those of `a` followed by those of `b` decoded from
/// the line that `a` left unfinished, and the unfinished line is the same.
pub proof fn lemma_text_chunks(line: Seq<u8>, a: Seq<u8>, b: Seq<u8>)
    ensures
        text_scan(line, a + b) == text_scan(line, a) + text_scan(text_rest(line, a), b),
        text_rest(line, a + b) == text_rest(text_rest(line, a), b),
    decreases a.len(),
{
    if a.len() == 0 {
        assert(a + b =~= b);
        assert(text_scan(line, a) + text_scan(line, b) =~= text_scan(line, b));
    } else {
        assert((a + b).drop_first() =~= a.drop_first() + b);
        assert((a + b)[0] == a[0]);
        if a[0] == LINE_FEED {
            lemma_text_chunks(seq![], a.drop_first(), b);
            assert(text_scan(line, a + b) =~= line_events(line) + (text_scan(seq![], a.drop_first())
                + text_scan(text_rest(seq![], a.drop_first()), b)));
        } else {
            lemma_text_chunks(line.push(a[0]), a.drop_first(), b);
        }
    }
}

/// Accumulates text and emits one `Text` event per complete line.
pub struct TextDecoder {
    buffer: Vec<u8>,
}

impl View for TextDecoder {
    /// The bytes of the unfinished line.
    type V = Seq<u8>;

    closed spec fn view(&self) -> Seq<u8> {
        self.buffer@
    }
}

impl TextDecoder {
    /// A decoder with no pending text.
    pub fn new() -> (r: TextDecoder)
        ensures
            r@ == Seq::<u8>::empty(),
    {
        TextDecoder { buffer: Vec::new() }
    }
}

impl ItmDecoder for TextDecoder {
    open spec fn decoded(state: Seq<u8>, data: Seq<u8>) -> Seq<EventView> {
        text_scan(state, data)
    }

    open spec fn after(state: Seq<u8>, data: Seq<u8>) -> Seq<u8> {
        text_rest(state, data)
    }

    open spec fn initial(state: Seq<u8>) -> Seq<u8> {
        seq![]
    }

    fn decode(&mut self, port: u8, data: &[u8], timestamp: u64) -> (r: Vec<TraceEvent>) {
        let mut events: Vec<TraceEvent> = Vec::new();
        let n = data.len();
        let mut i: usize = 0;
        assert(data@.subrange(0, n as int) =~= data@);
        while i < n
            invariant
                n == data@.len(),
                0 <= i <= n,
                text_scan(old(self)@, data@) == events_view(events@) + text_scan(
                    self@,
                    data@.subrange(i as int, n as int),
                ),
                text_rest(old(self)@, data@) == text_rest(
                    self@,
                    data@.subrange(i as int, n as int),
                ),
            decreases n - i,
        {
            let ghost rest = data@.subrange(i as int, n as int);
            let ghost before = events_view(events@);
            assert(rest.drop_first() =~= data@.subrange(i + 1, n as int));
            let b = data[i];
            if b == LINE_FEED {
                if self.buffer.len() > 0 {
                    let message = text_from_bytes(self.buffer.as_slice());
                    let keep = !trimmed(message.as_str()).is_empty();
                    if keep {
                        events.push(TraceEvent::Text { message });
                    }
                }
                assert(events_view(events@) =~= before + line_events(self@));
                self.buffer.clear();
            } else {
                self.buffer.push(b);
            }
            i = i + 1;
        }
        assert(data@.subrange(n as int, n as int) =~= Seq::<u8>::empty());
        assert(events_view(events@) + Seq::<EventView>::empty() =~= events_view(events@));
        events
    }

    fn reset(&mut self) {
        self.buffer.clear();
    }
}

/// The four bytes of `d` at `at` read as a little-endian `u32`.
pub open spec fn word_at(d: Seq<u8>, at: int) -> u32 {
    le32(d[at], d[at + 1], d[at + 2], d[at + 3]) as u32
}

/// The events of a marker payload: one marker whose id is the first four
/// bytes, named after it, or none when fewer than four bytes came.
pub open spec fn marker_events(d: Seq<u8>) -> Seq<EventView> {
    if d.len() >= 4 {
        seq![
            EventView::Marker {
                id: word_at(d, 0),
                name: Some("Marker "@ + decimal(word_at(d, 0) as nat)),
            },
        ]
    } else {
        seq![]
    }
}

/// The event of a task or interrupt record of at least nine bytes: a tag
/// byte and two little-endian parameters. Unknown tags give the bytes back
/// as `Raw`.
pub open spec fn task_isr_event(d: Seq<u8>) -> EventView {
    let a = word_at(d, 1);
    let b = word_at(d, 5);
    if d[0] == 1 {
        EventView::TaskSwitch { from_task: a, to_task: b }
    } else if d[0] == 2 {
        EventView::IsrEnter { isr_id: a, name: Some("ISR "@ + decimal(a as nat)) }
    } else if d[0] == 3 {
        EventView::IsrExit { isr_id: a }
    } else if d[0] == 4 {
        EventView::IdleEnter
    } else if d[0] == 5 {
        EventView::IdleExit
    } else {
        EventView::Raw { data: d }
    }
}

/// The events of a task or interrupt payload: none under nine bytes.
pub open spec fn task_isr_events(d: Seq<u8>) -> Seq<EventView> {
    if d.len() >= 9 {
        seq![task_isr_event(d)]
    } else {
        seq![]
    }
}

/// The events of a counter payload: a 32-bit id and a 64-bit value, both
/// little-endian; none under twelve bytes.
pub open spec fn counter_events(d: Seq<u8>) -> Seq<EventView> {
    if d.len() >= 12 {
        seq![EventView::Counter { counter_id: word_at(d, 0), value: le64(d, 4) as u64 }]
    } else {
        seq![]
    }
}

/// The events of a user payload: the payload itself, uninterpreted.
pub open spec fn user_events(d: Seq<u8>) -> Seq<EventView> {
    seq![EventView::Raw { data: d }]
}

/// Decodes marker ids. Stateless.
pub struct MarkerDecoder;

/// Decodes task switches and interrupt entries and exits. Stateless.
pub struct TaskIsrDecoder;

/// Decodes counter samples. Stateless.
pub struct CounterDecoder;

/// Passes user payloads through as `Raw` events. Stateless.
pub struct UserDecoder;

impl View for MarkerDecoder {
    type V = ();

    open spec fn view(&self) -> () {
        ()
    }
}

impl View for TaskIsrDecoder {
    type V = ();

    open spec fn view(&self) -> () {
        ()
    }
}

impl View for CounterDecoder {
    type V = ();

    open spec fn view(&self) -> () {
        ()
    }
}

impl View for UserDecoder {
    type V = ();

    open spec fn view(&self) -> () {
        ()
    }
}

impl MarkerDecoder {
    /// A marker decoder.
    pub fn new() -> (r: MarkerDecoder) {
        MarkerDecoder
    }
}

impl TaskIsrDecoder {
    /// A task and interrupt decoder.
    pub fn new() -> (r: TaskIsrDecoder) {
        TaskIsrDecoder
    }
}

impl CounterDecoder {
    /// A counter decoder.
    pub fn new() -> (r: CounterDecoder) {
        CounterDecoder
    }
}

impl UserDecoder {
    /// A pass-through decoder.
    pub fn new() -> (r: UserDecoder) {
        UserDecoder
    }
}

/// Copies a payload into a `Raw` event.
fn raw_event(data: &[u8]) -> (r: TraceEvent)
    ensures
        r@ == (EventView::Raw { data: data@ }),
{
    TraceEvent::Raw { data: vstd::slice::slice_to_vec(data) }
}

impl ItmDecoder for MarkerDecoder {
    open spec fn decoded(state: (), data: Seq<u8>) -> Seq<EventView> {
        marker_events(data)
    }

    open spec fn after(state: (), data: Seq<u8>) -> () {
        ()
    }

    open spec fn initial(state: ()) -> () {
        ()
    }

    fn decode(&mut self, port: u8, data: &[u8], timestamp: u64) -> (r: Vec<TraceEvent>) {
        if data.len() >= 4 {
            let id = read_u32_le(data, 0);
            let name = labelled("Marker ", id);
            let r = vec![TraceEvent::Marker { id, name: Some(name) }];
            assert(events_view(r@) =~= marker_events(data@));
            r
        } else {
            let r: Vec<TraceEvent> = Vec::new();
            assert(events_view(r@) =~= marker_events(data@));
            r
        }
    }

    fn reset(&mut self) {
    }
}

impl ItmDecoder for TaskIsrDecoder {
    open spec fn decoded(state: (), data: Seq<u8>) -> Seq<EventView> {
        task_isr_events(data)
    }

    open spec fn after(state: (), data: Seq<u8>) -> () {
        ()
    }

    open spec fn initial(state: ()) -> () {
        ()
    }

    fn decode(&mut self, port: u8, data: &[u8], timestamp: u64) -> (r: Vec<TraceEvent>) {
        if data.len() >= 9 {
            let tag = data[0];
            let a = read_u32_le(data, 1);
            let b = read_u32_le(data, 5);
            let event = if tag == 1 {
                TraceEvent::TaskSwitch { from_task: a, to_task: b }
            } else if tag == 2 {
                TraceEvent::IsrEnter { isr_id: a, name: Some(labelled("ISR ", a)) }
            } else if tag == 3 {
                TraceEvent::IsrExit { isr_id: a }
            } else if tag == 4 {
                TraceEvent::IdleEnter
            } else if tag == 5 {
                TraceEvent::IdleExit
            } else {
                raw_event(data)
            };
            assert(event@ == task_isr_event(data@));
            let r = vec![event];
            assert(events_view(r@) =~= task_isr_events(data@));
            r
        } else {
            let r: Vec<TraceEvent> = Vec::new();
            assert(events_view(r@) =~= task_isr_events(data@));
            r
        }
    }

    fn reset(&mut self) {
    }
}

impl ItmDecoder for CounterDecoder {
    open spec fn decoded(state: (), data: Seq<u8>) -> Seq<EventView> {
        counter_events(data)
    }

    open spec fn after(state: (), data: Seq<u8>) -> () {
        ()
    }

    open spec fn initial(state: ()) -> () {
        ()
    }

    fn decode(&mut self, port: u8, data: &[u8], timestamp: u64) -> (r: Vec<TraceEvent>) {
        if data.len() >= 12 {
            let counter_id = read_u32_le(data, 0);
            let value = read_u64_le(data, 4);
            let r = vec![TraceEvent::Counter { counter_id, value }];
            assert(events_view(r@) =~= counter_events(data@));
            r
        } else {
            let r: Vec<TraceEvent> = Vec::new();
            assert(events_view(r@) =~= counter_events(data@));
            r
        }
    }

    fn reset(&mut self) {
    }
}

impl ItmDecoder for UserDecoder {
    open spec fn decoded(state: (), data: Seq<u8>) -> Seq<EventView> {
        user_events(data)
    }

    open spec fn after(state: (), data: Seq<u8>) -> () {
        ()
    }

    open spec fn initial(state: ()) -> () {
        ()
    }

    fn decode(&mut self, port: u8, data: &[u8], timestamp: u64) -> (r: Vec<TraceEvent>) {
        let r = vec![raw_event(data)];
        assert(events_view(r@) =~= user_events(data@));
        r
    }

    fn reset(&mut self) {
    }
}

/// A decoder of any kind, dispatched by variant.
pub enum PortDecoder {
    Text(TextDecoder),
    Marker(MarkerDecoder),
    TaskIsr(TaskIsrDecoder),
    Counter(CounterDecoder),
    User(UserDecoder),
}

/// The mathematical value of a [`PortDecoder`]: its kind, and for text the
/// unfinished line.
pub enum PortDecoderView {
    Text(Seq<u8>),
    Marker,
    TaskIsr,
    Counter,
    User,
}

impl View for PortDecoder {
    type V = PortDecoderView;

    open spec fn view(&self) -> PortDecoderView {
        match self {
            PortDecoder::Text(d) => PortDecoderView::Text(d@),
            PortDecoder::Marker(_) => PortDecoderView::Marker,
            PortDecoder::TaskIsr(_) => PortDecoderView::TaskIsr,
            PortDecoder::Counter(_) => PortDecoderView::Counter,
            PortDecoder::User(_) => PortDecoderView::User,
        }
    }
}

/// The fresh decoder for a decoder kind.
pub open spec fn fresh_decoder(kind: DecoderKind) -> PortDecoderView {
    match kind {
        DecoderKind::Text => PortDecoderView::Text(seq![]),
        DecoderKind::Marker => PortDecoderView::Marker,
        DecoderKind::TaskIsr => PortDecoderView::TaskIsr,
        DecoderKind::Counter => PortDecoderView::Counter,
        DecoderKind::User { .. } => PortDecoderView::User,
    }
}

/// The decoder kind of a port in the standard assignment: text on port 0,
/// task and interrupt events on port 1, markers on port 2, counters on
/// port 3, and text on every other port.
pub open spec fn standard_kind(port: u8) -> DecoderKind {
    if port == 1 {
        DecoderKind::TaskIsr
    } else if port == 2 {
        DecoderKind::Marker
    } else if port == 3 {
        DecoderKind::Counter
    } else {
        DecoderKind::Text
    }
}

impl PortDecoder {
    /// A fresh decoder of the given kind.
    pub fn for_kind(kind: &DecoderType) -> (r: PortDecoder)
        ensures
            r@ == fresh_decoder(kind@),
    {
        match kind {
            DecoderType::Text => PortDecoder::Text(TextDecoder::new()),
            DecoderType::Marker => PortDecoder::Marker(MarkerDecoder::new()),
            DecoderType::TaskIsr => PortDecoder::TaskIsr(TaskIsrDecoder::new()),
            DecoderType::Counter => PortDecoder::Counter(CounterDecoder::new()),
            DecoderType::User { .. } => PortDecoder::User(UserDecoder::new()),
        }
    }

    /// A fresh decoder of the kind that the standard assignment gives `port`.
    pub fn for_port(port: u8) -> (r: PortDecoder)
        ensures
            r@ == fresh_decoder(standard_kind(port)),
    {
        if port == 1 {
            PortDecoder::TaskIsr(TaskIsrDecoder::new())
        } else if port == 2 {
            PortDecoder::Marker(MarkerDecoder::new())
        } else if port == 3 {
            PortDecoder::Counter(CounterDecoder::new())
        } else {
            PortDecoder::Text(TextDecoder::new())
        }
    }
}

impl ItmDecoder for PortDecoder {
    open spec fn decoded(state: PortDecoderView, data: Seq<u8>) -> Seq<EventView> {
        match state {
            PortDecoderView::Text(line) => text_scan(line, data),
            PortDecoderView::Marker => marker_events(data),
            PortDecoderView::TaskIsr => task_isr_events(data),
            PortDecoderView::Counter => counter_events(data),
            PortDecoderView::User => user_events(data),
        }
    }

    open spec fn after(state: PortDecoderView, data: Seq<u8>) -> PortDecoderView {
        match state {
            PortDecoderView::Text(line) => PortDecoderView::Text(text_rest(line, data)),
            _ => state,
        }
    }

    open spec fn initial(state: PortDecoderView) -> PortDecoderView {
        match state {
            PortDecoderView::Text(_) => PortDecoderView::Text(seq![]),
            _ => state,
        }
    }

    fn decode(&mut self, port: u8, data: &[u8], timestamp: u64) -> (r: Vec<TraceEvent>) {
        match self {
            PortDecoder::Text(d) => d.decode(port, data, timestamp),
            PortDecoder::Marker(d) => d.decode(port, data, timestamp),
            PortDecoder::TaskIsr(d) => d.decode(port, data, timestamp),
            PortDecoder::Counter(d) => d.decode(port, data, timestamp),
            PortDecoder::User(d) => d.decode(port, data, timestamp),
        }
    }

    fn reset(&mut self) {
        match self {
            PortDecoder::Text(d) => d.reset(),
            PortDecoder::Marker(d) => d.reset(),
            PortDecoder::TaskIsr(d) => d.reset(),
            PortDecoder::Counter(d) => d.reset(),
            PortDecoder::User(d) => d.reset(),
        }
    }
}

} // verus!
