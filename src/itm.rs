//! The frame demultiplexer: reassembles port-tagged frames from an
//! arbitrarily chunked trace byte stream.
//!
//! Wire format: a byte below 32 opens a frame for that stimulus port; the
//! next byte is the payload length `n`, and the `n` bytes after it are the
//! payload. Any byte of 32 or more outside a frame is idle fill and is
//! skipped. A frame that is not yet complete stays buffered until a later
//! chunk completes it or the demultiplexer is reset.
use vstd::prelude::*;

use crate::protocol::ItmFrame;

verus! {

/// The number of stimulus ports; a frame header names one of them.
pub const PORT_COUNT: u8 = 32;

/// The step of the internal clock that stamps each frame.
pub const TIMESTAMP_STEP: u64 = 1000;

/// A reassembled frame without its timestamp.
pub struct FramePayload {
    pub port: u8,
    pub data: Seq<u8>,
}

/// A reassembled frame as handed out.
pub struct FrameView {
    pub port: u8,
    pub data: Seq<u8>,
    pub timestamp: Option<u64>,
}

impl View for ItmFrame {
    type V = FrameView;

    open spec fn view(&self) -> FrameView {
        FrameView { port: self.port, data: self.data@, timestamp: self.timestamp }
    }
}

/// The views of a sequence of frames.
pub open spec fn frames_view(v: Seq<ItmFrame>) -> Seq<FrameView> {
    v.map_values(|f: ItmFrame| f@)
}

/// Whether `s` starts with a frame header whose frame is complete.
pub open spec fn complete_frame_at_start(s: Seq<u8>) -> bool {
    s.len() >= 2 && s[0] < PORT_COUNT && s.len() >= 2 + s[1]
}

/// The complete frames of a byte stream, in order.
pub open spec fn frames_in(s: Seq<u8>) -> Seq<FramePayload>
    decreases s.len(),
{
    if s.len() == 0 {
        seq![]
    } else if s[0] >= PORT_COUNT {
        frames_in(s.drop_first())
    } else if !complete_frame_at_start(s) {
        seq![]
    } else {
        seq![FramePayload { port: s[0], data: s.subrange(2, 2 + s[1]) }] + frames_in(
            s.subrange(2 + s[1], s.len() as int),
        )
    }
}

/// The bytes of a stream that follow its last complete frame: an
/// unfinished frame, or nothing.
pub open spec fn frame_rest(s: Seq<u8>) -> Seq<u8>
    decreases s.len(),
{
    if s.len() == 0 {
        s
    } else if s[0] >= PORT_COUNT {
        frame_rest(s.drop_first())
    } else if !complete_frame_at_start(s) {
        s
    } else {
        frame_rest(s.subrange(2 + s[1], s.len() as int))
    }
}

/// The clock after `k` more frames from `clock`; it stops at `u64::MAX`.
pub open spec fn clock_after(clock: u64, k: nat) -> u64 {
    if clock + TIMESTAMP_STEP * k <= u64::MAX {
        (clock + TIMESTAMP_STEP * k) as u64
    } else {
        u64::MAX
    }
}

/// Frames stamped in order from `clock`: the `j`-th gets the clock after
/// `j + 1` steps.
pub open spec fn stamped(fs: Seq<FramePayload>, clock: u64) -> Seq<FrameView> {
    Seq::new(
        fs.len(),
        |j: int| FrameView { port: fs[j].port, data: fs[j].data, timestamp: Some(clock_after(clock, (j + 1) as nat)) },
    )
}

/// Splitting the stream anywhere changes nothing: the frames of `a + b`
/// are those of `a` followed by those that `b` completes after what `a`
/// left unfinished, and the same bytes stay unfinished.
pub proof fn lemma_frame_chunks(a: Seq<u8>, b: Seq<u8>)
    ensures
        frames_in(a + b) == frames_in(a) + frames_in(frame_rest(a) + b),
        frame_rest(a + b) == frame_rest(frame_rest(a) + b),
    decreases a.len(),
{
    if a.len() == 0 {
        assert(a + b =~= b);
        assert(frames_in(a) + frames_in(b) =~= frames_in(b));
    } else if a[0] >= PORT_COUNT {
        assert((a + b).drop_first() =~= a.drop_first() + b);
        lemma_frame_chunks(a.drop_first(), b);
    } else if !complete_frame_at_start(a) {
        assert(seq![] + frames_in(a + b) =~= frames_in(a + b));
    } else {
        let end = 2 + a[1];
        assert((a + b).subrange(2, end) =~= a.subrange(2, end));
        assert((a + b).subrange(end, (a + b).len() as int) =~= a.subrange(end, a.len() as int) + b);
        lemma_frame_chunks(a.subrange(end, a.len() as int), b);
        assert(frames_in(a + b) =~= frames_in(a) + frames_in(frame_rest(a) + b));
    }
}

/// What a stream leaves unfinished holds no complete frame.
pub proof fn lemma_rest_has_no_frame(s: Seq<u8>)
    ensures
        frames_in(frame_rest(s)) == Seq::<FramePayload>::empty(),
    decreases s.len(),
{
    if s.len() == 0 {
    } else if s[0] >= PORT_COUNT {
        lemma_rest_has_no_frame(s.drop_first());
    } else if !complete_frame_at_start(s) {
    } else {
        lemma_rest_has_no_frame(s.subrange(2 + s[1], s.len() as int));
    }
}

/// Clock steps add up.
pub proof fn lemma_clock_steps(clock: u64, k: nat, j: nat)
    ensures
        clock_after(clock_after(clock, k), j) == clock_after(clock, k + j),
{
    assert(TIMESTAMP_STEP * (k + j) == TIMESTAMP_STEP * k + TIMESTAMP_STEP * j) by (nonlinear_arith);
}

/// Reassembles frames from raw trace bytes and stamps them from an
/// internal clock.
pub struct ItmProcessor {
    buffer: Vec<u8>,
    timestamp_base: u64,
}

/// The mathematical value of an [`ItmProcessor`].
pub struct ProcessorView {
    /// Bytes of an unfinished frame.
    pub pending: Seq<u8>,
    /// The timestamp of the last frame handed out, or 0 after a reset.
    pub clock: u64,
}

impl View for ItmProcessor {
    type V = ProcessorView;

    closed spec fn view(&self) -> ProcessorView {
        ProcessorView { pending: self.buffer@, clock: self.timestamp_base }
    }
}

/// The state of a fresh or reset processor.
pub open spec fn idle_processor() -> ProcessorView {
    ProcessorView { pending: seq![], clock: 0 }
}

impl ItmProcessor {
    /// A processor with nothing buffered and its clock at zero.
    pub fn new() -> (r: ItmProcessor)
        ensures
            r@ == idle_processor(),
            frames_in(r@.pending) == Seq::<FramePayload>::empty(),
    {
        ItmProcessor { buffer: Vec::new(), timestamp_base: 0 }
    }

    /// Appends `data` to the buffered bytes and hands out every frame that
    /// is now complete, stamped in order from the internal clock. What
    /// follows the last complete frame stays buffered.
    pub fn process_data(&mut self, data: &[u8]) -> (r: Vec<ItmFrame>)
        ensures
            frames_view(r@) == stamped(frames_in(old(self)@.pending + data@), old(self)@.clock),
            final(self)@ == (ProcessorView {
                pending: frame_rest(old(self)@.pending + data@),
                clock: clock_after(old(self)@.clock, frames_in(old(self)@.pending + data@).len()),
            }),
            frames_in(final(self)@.pending) == Seq::<FramePayload>::empty(),
    {
        proof {
            lemma_rest_has_no_frame(old(self)@.pending + data@);
        }
        let ghost s = old(self)@.pending + data@;
        let ghost clock0 = old(self)@.clock;
        let mut k: usize = 0;
        let m = data.len();
        while k < m
            invariant
                m == data@.len(),
                0 <= k <= m,
                self.buffer@ == old(self)@.pending + data@.subrange(0, k as int),
                self.timestamp_base == clock0,
            decreases m - k,
        {
            self.buffer.push(data[k]);
            k = k + 1;
            assert(data@.subrange(0, k as int) =~= data@.subrange(0, k - 1).push(data@[k - 1]));
        }
        assert(data@.subrange(0, m as int) =~= data@);
        let mut frames: Vec<ItmFrame> = Vec::new();
        let ghost mut done: Seq<FramePayload> = seq![];
        let n = self.buffer.len();
        let mut i: usize = 0;
        let mut stalled = false;
        assert(s.subrange(0, n as int) =~= s);
        assert(done + frames_in(s) =~= frames_in(s));
        while i < n && !stalled
            invariant
                n == s.len(),
                self.buffer@ == s,
                0 <= i <= n,
                frames_in(s) == done + frames_in(s.subrange(i as int, n as int)),
                frame_rest(s) == frame_rest(s.subrange(i as int, n as int)),
                stalled ==> !complete_frame_at_start(s.subrange(i as int, n as int)) && s[i as int]
                    < PORT_COUNT && i < n,
                frames_view(frames@) == stamped(done, clock0),
                self.timestamp_base == clock_after(clock0, done.len()),
            decreases (n - i) as int + if stalled { 0int } else { 1int },
        {
            let ghost rest = s.subrange(i as int, n as int);
            let h = self.buffer[i];
            if h >= PORT_COUNT {
                assert(rest.drop_first() =~= s.subrange(i + 1, n as int));
                i = i + 1;
            } else if n - i < 2 || n - i - 2 < self.buffer[i + 1] as usize {
                stalled = true;
            } else {
                let len = self.buffer[i + 1] as usize;
                let end = i + 2 + len;
                let payload = vstd::slice::slice_to_vec(
                    vstd::slice::slice_subrange(self.buffer.as_slice(), i + 2, end),
                );
                let ts = self.get_timestamp();
                let ghost f = FramePayload { port: h, data: payload@ };
                assert(rest.subrange(2, 2 + rest[1]) =~= payload@);
                assert(rest.subrange(2 + rest[1], rest.len() as int) =~= s.subrange(
                    end as int,
                    n as int,
                ));
                let ghost old_frames = frames@;
                let ghost old_done = done;
                assert(frames_view(old_frames).len() == old_frames.len());
                assert(stamped(old_done, clock0).len() == old_done.len());
                frames.push(ItmFrame { port: h, data: payload, timestamp: Some(ts) });
                proof {
                    lemma_clock_steps(clock0, done.len(), 1);
                    assert(done.push(f) + frames_in(s.subrange(end as int, n as int)) =~= done + (
                    seq![f] + frames_in(s.subrange(end as int, n as int))));
                    done = done.push(f);
                    assert forall|j: int| 0 <= j < done.len() implies #[trigger] frames_view(
                        frames@,
                    )[j] == stamped(done, clock0)[j] by {
                        if j < old_done.len() {
                            assert(frames@[j] == old_frames[j]);
                            assert(frames_view(old_frames)[j] == stamped(old_done, clock0)[j]);
                        }
                    }
                    assert(frames_view(frames@) =~= stamped(done, clock0));
                }
                i = end;
            }
        }
        proof {
            let rest = s.subrange(i as int, n as int);
            if !stalled {
                assert(rest =~= Seq::<u8>::empty());
            }
            assert(frames_in(rest) =~= Seq::<FramePayload>::empty());
            assert(done + frames_in(rest) =~= done);
            assert(frame_rest(rest) == rest);
        }
        self.buffer = vstd::slice::slice_to_vec(
            vstd::slice::slice_subrange(self.buffer.as_slice(), i, n),
        );
        frames
    }

    /// Advances the internal clock by one step, stopping at `u64::MAX`, and
    /// returns it.
    fn get_timestamp(&mut self) -> (r: u64)
        ensures
            r == clock_after(old(self)@.clock, 1),
            final(self)@ == (ProcessorView { pending: old(self)@.pending, clock: r }),
    {
        self.timestamp_base = self.timestamp_base.saturating_add(TIMESTAMP_STEP);
        self.timestamp_base
    }

    /// Drops any unfinished frame and sets the clock back to zero.
    pub fn reset(&mut self)
        ensures
            final(self)@ == idle_processor(),
            frames_in(final(self)@.pending) == Seq::<FramePayload>::empty(),
    {
        self.buffer.clear();
        self.timestamp_base = 0;
    }
}

impl Default for ItmProcessor {
    fn default() -> (r: ItmProcessor)
        ensures
            r@ == idle_processor(),
    {
        ItmProcessor::new()
    }
}

} // verus!
