//! Synthetic trace traffic for exercising a client without hardware. The
//! generator decides, tick by tick, which events to send; the caller runs
//! the clock, the pauses and the delivery.
use vstd::prelude::*;

use crate::protocol::{EventView, TraceEvent};
use crate::session::{messages_view, MessageView, SessionMessage};
use crate::text::{decimal, labelled};

verus! {

/// The ticks between two task switches.
pub const TASK_SWITCH_EVERY: u32 = 10;

/// The ticks between two markers.
pub const MARKER_EVERY: u32 = 15;

/// The ticks between two text lines.
pub const TEXT_EVERY: u32 = 20;

/// The ticks between two interrupts.
pub const ISR_EVERY: u32 = 25;

/// The ticks between two counter samples.
pub const COUNTER_EVERY: u32 = 50;

/// The ticks between two statistics updates.
pub const STATS_EVERY: u32 = 100;

/// Every this many ticks the caller pauses a little longer.
pub const PAUSE_EVERY: u32 = 7;

/// How long after entering an interrupt its exit is stamped.
pub const ISR_DURATION: u64 = 500;

/// The text lines the generator cycles through.
pub open spec fn mock_line(i: nat) -> Seq<char> {
    if i == 0 {
        "System initialized"@
    } else if i == 1 {
        "Processing data..."@
    } else if i == 2 {
        "Task completed successfully"@
    } else if i == 3 {
        "Warning: Low memory"@
    } else {
        "Debug: Function called"@
    }
}

/// An event message of the generator.
pub open spec fn mock_event(timestamp: u64, port: u8, event: EventView) -> Seq<MessageView> {
    seq![MessageView::Event { timestamp, port, event }]
}

/// The marker count after a tick with counter `c`.
pub open spec fn next_marker(c: u32, markers: u32) -> u32 {
    if c % MARKER_EVERY == 0 {
        vstd::wrapping::u32_specs::wrapping_add(markers, 1)
    } else {
        markers
    }
}

/// The messages of a tick with counter `c`, marker count `markers`, at
/// `timestamp`: a task switch every 10 ticks, a marker every 15, a text
/// line every 20, an interrupt entry and exit every 25, and a counter
/// sample every 50, in that order.
pub open spec fn tick_messages(c: u32, markers: u32, timestamp: u64) -> Seq<MessageView> {
    let m = next_marker(c, markers);
    let isr = (c % 3 + 10) as u32;
    (if c % TASK_SWITCH_EVERY == 0 {
        mock_event(
            timestamp,
            1,
            EventView::TaskSwitch {
                from_task: (c % 4 + 1) as u32,
                to_task: ((c + 1) % 4 + 1) as u32,
            },
        )
    } else {
        seq![]
    }) + (if c % MARKER_EVERY == 0 {
        mock_event(
            timestamp,
            2,
            EventView::Marker { id: m, name: Some("Checkpoint "@ + decimal(m as nat)) },
        )
    } else {
        seq![]
    }) + (if c % TEXT_EVERY == 0 {
        mock_event(timestamp, 0, EventView::Text { message: mock_line((c % 5) as nat) })
    } else {
        seq![]
    }) + (if c % ISR_EVERY == 0 {
        mock_event(
            timestamp,
            1,
            EventView::IsrEnter { isr_id: isr, name: Some("Timer"@ + decimal((isr - 9) as nat)) },
        ) + mock_event(
            if timestamp + ISR_DURATION <= u64::MAX {
                (timestamp + ISR_DURATION) as u64
            } else {
                u64::MAX
            },
            1,
            EventView::IsrExit { isr_id: isr },
        )
    } else {
        seq![]
    }) + (if c % COUNTER_EVERY == 0 {
        mock_event(
            timestamp,
            3,
            EventView::Counter { counter_id: 1, value: (c * 1000 + timestamp % 1000) as u64 },
        )
    } else {
        seq![]
    })
}

/// What one tick asks of the caller.
pub struct MockTick {
    /// The number of the tick, before it advanced the count.
    pub tick: u32,
    /// Event messages to send, in order.
    pub events: Vec<SessionMessage>,
    /// Whether a statistics update is due.
    pub stats_due: bool,
    /// Whether to pause a little longer before the next tick.
    pub extra_pause: bool,
}

/// Generates synthetic trace events.
pub struct MockDataGenerator {
    task_counter: u32,
    marker_counter: u32,
}

/// The mathematical value of a [`MockDataGenerator`].
pub struct MockView {
    pub ticks: u32,
    pub markers: u32,
}

impl View for MockDataGenerator {
    type V = MockView;

    closed spec fn view(&self) -> MockView {
        MockView { ticks: self.task_counter, markers: self.marker_counter }
    }
}

/// The text line `i` of the generator, for `i < 5`.
fn line(i: u32) -> (r: String)
    requires
        i < 5,
    ensures
        r@ == mock_line(i as nat),
{
    if i == 0 {
        "System initialized".to_owned()
    } else if i == 1 {
        "Processing data...".to_owned()
    } else if i == 2 {
        "Task completed successfully".to_owned()
    } else if i == 3 {
        "Warning: Low memory".to_owned()
    } else {
        "Debug: Function called".to_owned()
    }
}

/// Appends one event message.
fn push_event(out: &mut Vec<SessionMessage>, timestamp: u64, port: u8, event: TraceEvent)
    ensures
        messages_view(final(out)@) == messages_view(old(out)@) + mock_event(timestamp, port, event@),
{
    let ghost before = out@;
    out.push(SessionMessage::Event { timestamp, port, event });
    assert(messages_view(out@) =~= messages_view(before) + mock_event(timestamp, port, event@));
}

impl MockDataGenerator {
    /// A generator at tick 0 with no markers sent.
    pub fn new() -> (r: MockDataGenerator)
        ensures
            r@ == (MockView { ticks: 0, markers: 0 }),
    {
        MockDataGenerator { task_counter: 0, marker_counter: 0 }
    }

    /// Runs one tick at `timestamp`: the messages it sends, whether a
    /// statistics update is due (every 100 ticks), and whether the next
    /// tick comes after a longer pause (when the new tick count is a
    /// multiple of 7). The tick count wraps around.
    pub fn tick(&mut self, timestamp: u64) -> (r: MockTick)
        ensures
            messages_view(r.events@) == tick_messages(old(self)@.ticks, old(self)@.markers, timestamp),
            r.tick == old(self)@.ticks,
            r.stats_due == (old(self)@.ticks % STATS_EVERY == 0),
            final(self)@ == (MockView {
                ticks: vstd::wrapping::u32_specs::wrapping_add(old(self)@.ticks, 1),
                markers: next_marker(old(self)@.ticks, old(self)@.markers),
            }),
            r.extra_pause == (final(self)@.ticks % PAUSE_EVERY == 0),
    {
        let c = self.task_counter;
        let mut out: Vec<SessionMessage> = Vec::new();
        let ghost empty = messages_view(out@);
        assert(empty =~= Seq::<MessageView>::empty());
        if c % TASK_SWITCH_EVERY == 0 {
            let from_task = c % 4 + 1;
            let to_task = ((c as u64 + 1) % 4) as u32 + 1;
            push_event(&mut out, timestamp, 1, TraceEvent::TaskSwitch { from_task, to_task });
        }
        let ghost after_switch = messages_view(out@);
        if c % MARKER_EVERY == 0 {
            self.marker_counter = self.marker_counter.wrapping_add(1);
            let id = self.marker_counter;
            let name = labelled("Checkpoint ", id);
            push_event(&mut out, timestamp, 2, TraceEvent::Marker { id, name: Some(name) });
        }
        let ghost after_marker = messages_view(out@);
        if c % TEXT_EVERY == 0 {
            push_event(&mut out, timestamp, 0, TraceEvent::Text { message: line(c % 5) });
        }
        let ghost after_text = messages_view(out@);
        if c % ISR_EVERY == 0 {
            let isr_id = c % 3 + 10;
            let name = labelled("Timer", isr_id - 9);
            push_event(&mut out, timestamp, 1, TraceEvent::IsrEnter { isr_id, name: Some(name) });
            push_event(
                &mut out,
                timestamp.saturating_add(ISR_DURATION),
                1,
                TraceEvent::IsrExit { isr_id },
            );
        }
        let ghost after_isr = messages_view(out@);
        if c % COUNTER_EVERY == 0 {
            let value = c as u64 * 1000 + timestamp % 1000;
            push_event(&mut out, timestamp, 3, TraceEvent::Counter { counter_id: 1, value });
        }
        self.task_counter = self.task_counter.wrapping_add(1);
        assert(messages_view(out@) =~= tick_messages(c, old(self)@.markers, timestamp));
        MockTick {
            tick: c,
            events: out,
            stats_due: c % STATS_EVERY == 0,
            extra_pause: self.task_counter % PAUSE_EVERY == 0,
        }
    }
}

} // verus!
