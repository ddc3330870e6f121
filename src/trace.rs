//! The target-side producer: typed trace calls encoded as the writes they
//! make to the stimulus ports. Each call returns its writes in order; the
//! caller performs them on the hardware while the port is ready.
use vstd::prelude::*;

use crate::bytes::{le32, le64};
use crate::decoder::{counter_events, marker_events, task_isr_events, word_at};
use crate::events::{IDLE_ENTER, IDLE_EXIT, ISR_ENTER, ISR_EXIT, TASK_SWITCH};
use crate::protocol::EventView;
use crate::text::decimal;
use crate::ports::{CONSOLE, COUNTERS, MARKERS, RTOS};
use vstd::string::StringSliceAdditionalSpecFns;

verus! {

/// One write to a stimulus port.
#[derive(Clone, Copy, Debug, PartialEq, Eq, Structural)]
pub enum StimulusWrite {
    /// An 8-bit write.
    Byte { port: u8, value: u8 },
    /// A 32-bit write.
    Word { port: u8, value: u32 },
}

/// Byte writes of `bs` to `port`, in order.
pub open spec fn byte_writes(port: u8, bs: Seq<u8>) -> Seq<StimulusWrite> {
    bs.map_values(|b: u8| StimulusWrite::Byte { port, value: b })
}

/// A record of the RTOS events port: the tag byte and two words.
pub open spec fn record_writes(tag: u8, a: u32, b: u32) -> Seq<StimulusWrite> {
    seq![
        StimulusWrite::Byte { port: RTOS, value: tag },
        StimulusWrite::Word { port: RTOS, value: a },
        StimulusWrite::Word { port: RTOS, value: b },
    ]
}

/// The writes of a counter sample: the id, then the low and the high word
/// of the value.
pub open spec fn counter_writes(counter_id: u32, value: u64) -> Seq<StimulusWrite> {
    seq![
        StimulusWrite::Word { port: COUNTERS, value: counter_id },
        StimulusWrite::Word { port: COUNTERS, value: (value % 0x1_0000_0000) as u32 },
        StimulusWrite::Word { port: COUNTERS, value: (value / 0x1_0000_0000) as u32 },
    ]
}

/// The 31-multiplier string hash of some bytes, modulo 2^32.
pub open spec fn name_hash(bs: Seq<u8>) -> u32
    decreases bs.len(),
{
    if bs.len() == 0 {
        0
    } else {
        vstd::wrapping::u32_specs::wrapping_add(
            vstd::wrapping::u32_specs::wrapping_mul(name_hash(bs.drop_last()), 31),
            bs.last() as u32,
        )
    }
}

/// The bytes of a word, least significant first.
pub open spec fn word_bytes(x: u32) -> Seq<u8> {
    seq![
        (x % 256) as u8,
        ((x / 256) % 256) as u8,
        ((x / 65536) % 256) as u8,
        (x / 16777216) as u8,
    ]
}

/// The bytes that a sequence of writes puts on the wire, in order: one per
/// byte write, four (least significant first) per word write.
pub open spec fn payload_bytes(ws: Seq<StimulusWrite>) -> Seq<u8>
    decreases ws.len(),
{
    if ws.len() == 0 {
        seq![]
    } else {
        payload_bytes(ws.drop_last()) + write_payload(ws.last())
    }
}

/// The bytes that one write puts on the wire.
pub open spec fn write_payload(w: StimulusWrite) -> Seq<u8> {
    match w {
        StimulusWrite::Byte { value, .. } => seq![value],
        StimulusWrite::Word { value, .. } => word_bytes(value),
    }
}

proof fn lemma_payload_of_three(w0: StimulusWrite, w1: StimulusWrite, w2: StimulusWrite)
    ensures
        payload_bytes(seq![w0, w1, w2]) == write_payload(w0) + write_payload(w1) + write_payload(
            w2,
        ),
{
    let s = seq![w0, w1, w2];
    let e = Seq::<StimulusWrite>::empty();
    assert(s.drop_last() =~= seq![w0, w1]);
    assert(seq![w0, w1].drop_last() =~= seq![w0]);
    assert(seq![w0].drop_last() =~= e);
    assert(payload_bytes(e) == Seq::<u8>::empty());
    assert(payload_bytes(seq![w0]) == payload_bytes(e) + write_payload(w0));
    assert(payload_bytes(seq![w0]) =~= write_payload(w0));
    assert(payload_bytes(seq![w0, w1]) == payload_bytes(seq![w0]) + write_payload(w1));
    assert(payload_bytes(s) == payload_bytes(seq![w0, w1]) + write_payload(w2));
}

/// The bytes of a record of the RTOS events port hold its tag and both
/// words where the task and interrupt decoder reads them.
proof fn lemma_record_fields(tag: u8, a: u32, b: u32)
    ensures
        ({
            let d = payload_bytes(record_writes(tag, a, b));
            &&& d.len() == 9
            &&& d[0] == tag
            &&& word_at(d, 1) == a
            &&& word_at(d, 5) == b
        }),
{
    lemma_payload_of_three(
        StimulusWrite::Byte { port: RTOS, value: tag },
        StimulusWrite::Word { port: RTOS, value: a },
        StimulusWrite::Word { port: RTOS, value: b },
    );
    lemma_word_bytes(a);
    lemma_word_bytes(b);
}

/// The host decodes each record of the RTOS port encoders to the event it
/// encodes.
pub proof fn lemma_rtos_round_trip(from_task: u32, to_task: u32, isr_id: u32)
    ensures
        task_isr_events(payload_bytes(record_writes(TASK_SWITCH, from_task, to_task))) == seq![
            EventView::TaskSwitch { from_task, to_task },
        ],
        task_isr_events(payload_bytes(record_writes(ISR_ENTER, isr_id, 0))) == seq![
            EventView::IsrEnter { isr_id, name: Some("ISR "@ + decimal(isr_id as nat)) },
        ],
        task_isr_events(payload_bytes(record_writes(ISR_EXIT, isr_id, 0))) == seq![
            EventView::IsrExit { isr_id },
        ],
        task_isr_events(payload_bytes(record_writes(IDLE_ENTER, 0, 0))) == seq![
            EventView::IdleEnter,
        ],
        task_isr_events(payload_bytes(record_writes(IDLE_EXIT, 0, 0))) == seq![
            EventView::IdleExit,
        ],
{
    lemma_record_fields(TASK_SWITCH, from_task, to_task);
    lemma_record_fields(ISR_ENTER, isr_id, 0);
    lemma_record_fields(ISR_EXIT, isr_id, 0);
    lemma_record_fields(IDLE_ENTER, 0, 0);
    lemma_record_fields(IDLE_EXIT, 0, 0);
}

/// The host decodes a marker write to the marker it sends.
pub proof fn lemma_marker_round_trip(id: u32)
    ensures
        marker_events(payload_bytes(seq![StimulusWrite::Word { port: MARKERS, value: id }]))
            == seq![EventView::Marker { id, name: Some("Marker "@ + decimal(id as nat)) }],
{
    let w = StimulusWrite::Word { port: MARKERS, value: id };
    let e = Seq::<StimulusWrite>::empty();
    assert(seq![w].drop_last() =~= e);
    assert(payload_bytes(e) == Seq::<u8>::empty());
    assert(payload_bytes(seq![w]) == payload_bytes(e) + write_payload(w));
    assert(payload_bytes(seq![w]) =~= word_bytes(id));
    lemma_word_bytes(id);
}

/// The host decodes the writes of a counter sample to that sample.
pub proof fn lemma_counter_round_trip(counter_id: u32, value: u64)
    ensures
        counter_events(payload_bytes(counter_writes(counter_id, value))) == seq![
            EventView::Counter { counter_id, value },
        ],
{
    let low = (value % 0x1_0000_0000) as u32;
    let high = (value / 0x1_0000_0000) as u32;
    lemma_payload_of_three(
        StimulusWrite::Word { port: COUNTERS, value: counter_id },
        StimulusWrite::Word { port: COUNTERS, value: low },
        StimulusWrite::Word { port: COUNTERS, value: high },
    );
    lemma_word_bytes(counter_id);
    lemma_word_bytes(low);
    lemma_word_bytes(high);
    let d = payload_bytes(counter_writes(counter_id, value));
    assert(le64(d, 4) == low + 0x1_0000_0000 * high);
    assert(value == 0x1_0000_0000 * high + low);
}

/// Reading the bytes of a word back gives the word.
pub proof fn lemma_word_bytes(x: u32)
    ensures
        le32(word_bytes(x)[0], word_bytes(x)[1], word_bytes(x)[2], word_bytes(x)[3]) == x,
{
    let b0 = x % 256;
    let q0 = x / 256;
    let b1 = q0 % 256;
    let q1 = q0 / 256;
    let b2 = q1 % 256;
    let q2 = q1 / 256;
    assert(x == 256 * q0 + b0);
    assert(q0 == 256 * q1 + b1);
    assert(q1 == 256 * q2 + b2);
    assert(q1 == x / 65536) by {
        vstd::arithmetic::div_mod::lemma_div_denominator(x as int, 256, 256);
    }
    assert(q2 == x / 16777216) by {
        vstd::arithmetic::div_mod::lemma_div_denominator(x as int, 65536, 256);
    }
    assert(q2 < 256);
}

/// Hashes a name into a 32-bit id.
pub fn simple_hash(s: &str) -> (r: u32)
    ensures
        r == name_hash(s.spec_bytes()),
{
    let bs = s.as_bytes();
    let mut hash: u32 = 0;
    let mut i: usize = 0;
    while i < bs.len()
        invariant
            i <= bs@.len(),
            bs@ == s.spec_bytes(),
            hash == name_hash(bs@.subrange(0, i as int)),
        decreases bs@.len() - i,
    {
        assert(bs@.subrange(0, i + 1).drop_last() =~= bs@.subrange(0, i as int));
        hash = hash.wrapping_mul(31).wrapping_add(bs[i] as u32);
        i = i + 1;
    }
    assert(bs@.subrange(0, bs@.len() as int) =~= bs@);
    hash
}

/// Appends byte writes of `bs` to `port`.
fn push_bytes(out: &mut Vec<StimulusWrite>, port: u8, bs: &[u8])
    ensures
        final(out)@ == old(out)@ + byte_writes(port, bs@),
{
    let ghost start = out@;
    let mut i: usize = 0;
    while i < bs.len()
        invariant
            i <= bs@.len(),
            out@ == start + byte_writes(port, bs@.subrange(0, i as int)),
        decreases bs@.len() - i,
    {
        out.push(StimulusWrite::Byte { port, value: bs[i] });
        i = i + 1;
        assert(byte_writes(port, bs@.subrange(0, i as int)) =~= byte_writes(
            port,
            bs@.subrange(0, i - 1),
        ).push(StimulusWrite::Byte { port, value: bs@[i - 1] }));
    }
    assert(bs@.subrange(0, bs@.len() as int) =~= bs@);
}

/// Access to the stimulus ports.
pub struct Itm {
    _private: (),
}

/// The console text port.
pub struct ConsolePort {
    _private: (),
}

/// The RTOS events port.
pub struct RtosPort {
    _private: (),
}

/// The markers port.
pub struct MarkersPort {
    _private: (),
}

/// The counters port.
pub struct CountersPort {
    _private: (),
}

/// A user-defined port.
pub struct UserPort {
    port: u8,
}

impl Itm {
    /// Access to the stimulus ports, assumed enabled by the debugger or
    /// bootloader.
    pub fn new() -> (r: Itm) {
        Itm { _private: () }
    }

    /// The console port.
    pub fn console(&self) -> (r: ConsolePort) {
        ConsolePort::new()
    }

    /// The RTOS events port.
    pub fn rtos(&self) -> (r: RtosPort) {
        RtosPort::new()
    }

    /// The markers port.
    pub fn markers(&self) -> (r: MarkersPort) {
        MarkersPort::new()
    }

    /// The counters port.
    pub fn counters(&self) -> (r: CountersPort) {
        CountersPort::new()
    }

    /// The user-defined port `port`.
    pub fn user_port(&self, port: u8) -> (r: UserPort)
        ensures
            r.port() == port,
    {
        UserPort::new(port)
    }
}

impl Default for Itm {
    fn default() -> (r: Itm) {
        Itm::new()
    }
}

impl ConsolePort {
    fn new() -> (r: ConsolePort) {
        ConsolePort { _private: () }
    }

    /// The writes that send a line: its bytes, then a line feed.
    pub fn puts(&self, s: &str) -> (r: Vec<StimulusWrite>)
        ensures
            r@ == byte_writes(CONSOLE, s.spec_bytes()).push(
                StimulusWrite::Byte { port: CONSOLE, value: 10 },
            ),
    {
        let mut out: Vec<StimulusWrite> = Vec::new();
        push_bytes(&mut out, CONSOLE, s.as_bytes());
        out.push(StimulusWrite::Byte { port: CONSOLE, value: 10 });
        assert(out@ =~= byte_writes(CONSOLE, s.spec_bytes()).push(
            StimulusWrite::Byte { port: CONSOLE, value: 10 },
        ));
        out
    }

    /// The writes that send text without a line feed.
    pub fn print(&self, s: &str) -> (r: Vec<StimulusWrite>)
        ensures
            r@ == byte_writes(CONSOLE, s.spec_bytes()),
    {
        let mut out: Vec<StimulusWrite> = Vec::new();
        push_bytes(&mut out, CONSOLE, s.as_bytes());
        assert(out@ =~= byte_writes(CONSOLE, s.spec_bytes()));
        out
    }

    /// The write that sends one character.
    pub fn putc(&self, c: u8) -> (r: Vec<StimulusWrite>)
        ensures
            r@ == seq![StimulusWrite::Byte { port: CONSOLE, value: c }],
    {
        let r = vec![StimulusWrite::Byte { port: CONSOLE, value: c }];
        assert(r@ =~= seq![StimulusWrite::Byte { port: CONSOLE, value: c }]);
        r
    }
}

/// The writes of a record of the RTOS events port.
fn record(tag: u8, a: u32, b: u32) -> (r: Vec<StimulusWrite>)
    ensures
        r@ == record_writes(tag, a, b),
{
    let r = vec![
        StimulusWrite::Byte { port: RTOS, value: tag },
        StimulusWrite::Word { port: RTOS, value: a },
        StimulusWrite::Word { port: RTOS, value: b },
    ];
    assert(r@ =~= record_writes(tag, a, b));
    r
}

impl RtosPort {
    fn new() -> (r: RtosPort) {
        RtosPort { _private: () }
    }

    /// A task switch record.
    pub fn task_switch(&self, from_task: u32, to_task: u32) -> (r: Vec<StimulusWrite>)
        ensures
            r@ == record_writes(TASK_SWITCH, from_task, to_task),
    {
        record(TASK_SWITCH, from_task, to_task)
    }

    /// An interrupt entry record; the second word is reserved as 0.
    pub fn isr_enter(&self, isr_id: u32) -> (r: Vec<StimulusWrite>)
        ensures
            r@ == record_writes(ISR_ENTER, isr_id, 0),
    {
        record(ISR_ENTER, isr_id, 0)
    }

    /// An interrupt exit record; the second word is reserved as 0.
    pub fn isr_exit(&self, isr_id: u32) -> (r: Vec<StimulusWrite>)
        ensures
            r@ == record_writes(ISR_EXIT, isr_id, 0),
    {
        record(ISR_EXIT, isr_id, 0)
    }

    /// An idle entry record; both words are reserved as 0.
    pub fn idle_enter(&self) -> (r: Vec<StimulusWrite>)
        ensures
            r@ == record_writes(IDLE_ENTER, 0, 0),
    {
        record(IDLE_ENTER, 0, 0)
    }

    /// An idle exit record; both words are reserved as 0.
    pub fn idle_exit(&self) -> (r: Vec<StimulusWrite>)
        ensures
            r@ == record_writes(IDLE_EXIT, 0, 0),
    {
        record(IDLE_EXIT, 0, 0)
    }

    /// A record with any tag and parameters.
    pub fn event(&self, event_type: u8, param_a: u32, param_b: u32) -> (r: Vec<StimulusWrite>)
        ensures
            r@ == record_writes(event_type, param_a, param_b),
    {
        record(event_type, param_a, param_b)
    }
}

impl MarkersPort {
    fn new() -> (r: MarkersPort) {
        MarkersPort { _private: () }
    }

    /// The write that sends marker `id`.
    pub fn marker(&self, id: u32) -> (r: Vec<StimulusWrite>)
        ensures
            r@ == seq![StimulusWrite::Word { port: MARKERS, value: id }],
    {
        let r = vec![StimulusWrite::Word { port: MARKERS, value: id }];
        assert(r@ =~= seq![StimulusWrite::Word { port: MARKERS, value: id }]);
        r
    }

    /// The write that sends the marker whose id is the hash of `name`.
    pub fn named_marker(&self, name: &str) -> (r: Vec<StimulusWrite>)
        ensures
            r@ == seq![StimulusWrite::Word { port: MARKERS, value: name_hash(name.spec_bytes()) }],
    {
        let id = simple_hash(name);
        self.marker(id)
    }
}

impl CountersPort {
    fn new() -> (r: CountersPort) {
        CountersPort { _private: () }
    }

    /// The writes of a counter sample.
    pub fn counter(&self, counter_id: u32, value: u64) -> (r: Vec<StimulusWrite>)
        ensures
            r@ == counter_writes(counter_id, value),
    {
        let low = (value % 0x1_0000_0000) as u32;
        let high = (value / 0x1_0000_0000) as u32;
        let r = vec![
            StimulusWrite::Word { port: COUNTERS, value: counter_id },
            StimulusWrite::Word { port: COUNTERS, value: low },
            StimulusWrite::Word { port: COUNTERS, value: high },
        ];
        assert(r@ =~= counter_writes(counter_id, value));
        r
    }

    /// The writes of a 32-bit counter sample.
    pub fn counter32(&self, counter_id: u32, value: u32) -> (r: Vec<StimulusWrite>)
        ensures
            r@ == counter_writes(counter_id, value as u64),
    {
        self.counter(counter_id, value as u64)
    }
}

impl UserPort {
    fn new(port: u8) -> (r: UserPort)
        ensures
            r.port() == port,
    {
        UserPort { port }
    }

    /// The port number.
    pub closed spec fn port_spec(&self) -> u8 {
        self.port
    }

    /// The port number.
    #[verifier::when_used_as_spec(port_spec)]
    pub fn port(&self) -> (r: u8)
        ensures
            r == self.port_spec(),
    {
        self.port
    }

    /// The write that sends a word.
    pub fn write32(&self, data: u32) -> (r: Vec<StimulusWrite>)
        ensures
            r@ == seq![StimulusWrite::Word { port: self.port(), value: data }],
    {
        let r = vec![StimulusWrite::Word { port: self.port, value: data }];
        assert(r@ =~= seq![StimulusWrite::Word { port: self.port(), value: data }]);
        r
    }

    /// The write that sends a byte.
    pub fn write8(&self, data: u8) -> (r: Vec<StimulusWrite>)
        ensures
            r@ == seq![StimulusWrite::Byte { port: self.port(), value: data }],
    {
        let r = vec![StimulusWrite::Byte { port: self.port, value: data }];
        assert(r@ =~= seq![StimulusWrite::Byte { port: self.port(), value: data }]);
        r
    }

    /// The writes that send some bytes, one by one.
    pub fn write_bytes(&self, data: &[u8]) -> (r: Vec<StimulusWrite>)
        ensures
            r@ == byte_writes(self.port(), data@),
    {
        let mut out: Vec<StimulusWrite> = Vec::new();
        push_bytes(&mut out, self.port, data);
        assert(out@ =~= byte_writes(self.port(), data@));
        out
    }
}

} // verus!
