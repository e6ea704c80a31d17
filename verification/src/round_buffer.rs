use vstd::prelude::*;

use crate::snapshot::{FrameSnapshot, Recording};

verus! {

/// What the round buffer holds: the snapshots accumulated for the current
/// round, and whether the last push crossed a round boundary and a flush
/// is owed.
pub ghost struct BufferView {
    pub frames: Seq<FrameSnapshot>,
    pub pending_flush: bool,
}

/// Accumulates the current round's snapshots; flushes exactly once per
/// detected round boundary. The boundary snapshot itself belongs to the
/// next round: a flush hands out everything before it and keeps it as the
/// first entry of the new round.
pub struct RoundBuffer {
    frames: Vec<FrameSnapshot>,
    pending_flush: bool,
}

impl View for RoundBuffer {
    type V = BufferView;

    closed spec fn view(&self) -> BufferView {
        BufferView { frames: self.frames@, pending_flush: self.pending_flush }
    }
}

pub open spec fn spec_empty_buffer() -> BufferView {
    BufferView { frames: Seq::<FrameSnapshot>::empty(), pending_flush: false }
}

/// The buffer after appending one snapshot: pushes never drop anything,
/// and a snapshot whose frame counter decreased marks the flush owed.
pub open spec fn spec_buffer_pushed(m: BufferView, s: FrameSnapshot) -> BufferView {
    BufferView { frames: m.frames.push(s), pending_flush: s.spec_is_round_boundary() }
}

/// The buffer and the recording a flush attempt produces: nothing when no
/// flush is owed; otherwise everything before the boundary snapshot goes
/// out and the boundary snapshot alone stays.
pub open spec fn spec_buffer_flushed(m: BufferView) -> (BufferView, Option<Seq<FrameSnapshot>>) {
    if m.pending_flush {
        (
            BufferView { frames: seq![m.frames.last()], pending_flush: false },
            Some(m.frames.drop_last()),
        )
    } else {
        (m, None)
    }
}

impl RoundBuffer {
    /// A flush is only ever owed to a buffer the owed snapshot was pushed
    /// into.
    pub open spec fn wf(&self) -> bool {
        self@.pending_flush ==> self@.frames.len() >= 1
    }

    pub fn new() -> (r: RoundBuffer)
        ensures
            r@ == spec_empty_buffer(),
            r.wf(),
    {
        RoundBuffer { frames: Vec::new(), pending_flush: false }
    }

    /// The snapshots currently held, in insertion order.
    pub fn frames(&self) -> (r: &Vec<FrameSnapshot>)
        ensures
            r@ == self@.frames,
    {
        &self.frames
    }

    /// Appends unconditionally, in insertion order.
    pub fn push(&mut self, s: FrameSnapshot)
        requires
            old(self).wf(),
        ensures
            final(self).wf(),
            final(self)@ == spec_buffer_pushed(old(self)@, s),
    {
        let pending = s.is_round_boundary();
        self.frames.push(s);
        self.pending_flush = pending;
    }

    /// Flushes if and only if the last push crossed a round boundary. The
    /// recording holds exactly the snapshots pushed before the boundary
    /// one; the boundary snapshot stays behind as the first entry of the
    /// next round.
    pub fn maybe_flush(&mut self) -> (r: Option<Recording>)
        requires
            old(self).wf(),
        ensures
            final(self).wf(),
            final(self)@ == spec_buffer_flushed(old(self)@).0,
            r matches Some(rec) ==> Some(rec.frames@) == spec_buffer_flushed(old(self)@).1,
            r is None ==> spec_buffer_flushed(old(self)@).1 is None,
    {
        if self.pending_flush {
            let boundary = self.frames.pop().unwrap();
            let mut kept: Vec<FrameSnapshot> = Vec::new();
            kept.push(boundary);
            core::mem::swap(&mut self.frames, &mut kept);
            self.pending_flush = false;
            Some(Recording { frames: kept })
        } else {
            None
        }
    }
}

/// A whole capture run over the buffer: each snapshot is pushed and a
/// flush attempted right after, as the capture loop does. Returns the
/// final buffer and every recording flushed along the way, in order.
pub open spec fn spec_capture_run(m: BufferView, inputs: Seq<FrameSnapshot>) -> (
    BufferView,
    Seq<Seq<FrameSnapshot>>,
)
    decreases inputs.len(),
{
    if inputs.len() == 0 {
        (m, Seq::<Seq<FrameSnapshot>>::empty())
    } else {
        let (m1, out) = spec_buffer_flushed(spec_buffer_pushed(m, inputs[0]));
        let head = match out {
            Some(rec) => seq![rec],
            None => Seq::<Seq<FrameSnapshot>>::empty(),
        };
        let (m2, rest) = spec_capture_run(m1, inputs.drop_first());
        (m2, head + rest)
    }
}

/// While no pushed snapshot crosses a round boundary, the buffer only
/// accumulates: nothing is flushed and every snapshot stays, in order.
proof fn lemma_capture_run_accumulates(m: BufferView, inputs: Seq<FrameSnapshot>)
    requires
        !m.pending_flush,
        forall|i: int| 0 <= i < inputs.len() ==> !(#[trigger] inputs[i]).spec_is_round_boundary(),
    ensures
        spec_capture_run(m, inputs).0 == (BufferView {
            frames: m.frames + inputs,
            pending_flush: false,
        }),
        spec_capture_run(m, inputs).1 == Seq::<Seq<FrameSnapshot>>::empty(),
    decreases inputs.len(),
{
    if inputs.len() == 0 {
        assert(m.frames + inputs =~= m.frames);
    } else {
        let m1 = spec_buffer_pushed(m, inputs[0]);
        assert(!m1.pending_flush);
        assert(spec_buffer_flushed(m1).0 == m1);
        lemma_capture_run_accumulates(m1, inputs.drop_first());
        assert(m1.frames + inputs.drop_first() =~= m.frames + inputs);
    }
}

/// One round's capture: pushing snapshots whose frame counters rise
/// strictly, linked each to its predecessor's counter, and then the first
/// snapshot of the next round (its counter decreased), flushes exactly
/// once; the one recording holds exactly the snapshots before the
/// boundary, and the buffer afterwards holds exactly the boundary
/// snapshot.
pub proof fn lemma_round_flush(inputs: Seq<FrameSnapshot>)
    requires
        inputs.len() >= 2,
        !inputs[0].spec_is_round_boundary(),
        forall|i: int| 0 <= i < inputs.len() ==> (#[trigger] inputs[i]).round_frame is Some,
        forall|i: int|
            1 <= i < inputs.len() ==> (#[trigger] inputs[i]).round_frame_previous == inputs[i
                - 1].round_frame,
        forall|i: int|
            1 <= i < inputs.len() - 1 ==> (#[trigger] inputs[i]).round_frame->0 > inputs[i
                - 1].round_frame->0,
        inputs.last().round_frame->0 < inputs[inputs.len() - 2].round_frame->0,
    ensures
        spec_capture_run(spec_empty_buffer(), inputs).1 == seq![inputs.drop_last()],
        spec_capture_run(spec_empty_buffer(), inputs).0 == (BufferView {
            frames: seq![inputs.last()],
            pending_flush: false,
        }),
{
    reveal_with_fuel(spec_capture_run, 3);
    let body = inputs.drop_last();
    let boundary = inputs.last();
    assert(forall|i: int|
        0 <= i < body.len() ==> !(#[trigger] body[i]).spec_is_round_boundary()) by {
        assert forall|i: int| 0 <= i < body.len() implies !(
        #[trigger] body[i]).spec_is_round_boundary() by {
            assert(body[i] == inputs[i]);
            if i >= 1 {
                assert(inputs[i].round_frame_previous == inputs[i - 1].round_frame);
            }
        }
    }
    lemma_capture_run_accumulates(spec_empty_buffer(), body);
    let mid = spec_capture_run(spec_empty_buffer(), body).0;
    assert(mid.frames =~= body);
    assert(boundary.spec_is_round_boundary()) by {
        assert(inputs[inputs.len() - 1].round_frame_previous == inputs[inputs.len()
            - 2].round_frame);
    }
    lemma_capture_run_split(spec_empty_buffer(), body, seq![boundary]);
    assert(body + seq![boundary] =~= inputs);
    let pushed = spec_buffer_pushed(mid, boundary);
    assert(pushed.frames.drop_last() =~= body);
    assert(spec_capture_run(mid, seq![boundary]).1 =~= seq![body]);
    assert(seq![boundary].drop_first() =~= Seq::<FrameSnapshot>::empty());
    assert(spec_capture_run(spec_empty_buffer(), inputs).1 =~= seq![inputs.drop_last()]);
}

/// Running the buffer over two batches one after the other is the same as
/// running it over their concatenation.
proof fn lemma_capture_run_split(m: BufferView, a: Seq<FrameSnapshot>, b: Seq<FrameSnapshot>)
    ensures
        spec_capture_run(m, a + b).0 == spec_capture_run(spec_capture_run(m, a).0, b).0,
        spec_capture_run(m, a + b).1 == spec_capture_run(m, a).1 + spec_capture_run(
            spec_capture_run(m, a).0,
            b,
        ).1,
    decreases a.len(),
{
    if a.len() == 0 {
        assert(a + b =~= b);
        assert(spec_capture_run(m, a).1 + spec_capture_run(m, b).1 =~= spec_capture_run(m, b).1);
    } else {
        let (m1, out) = spec_buffer_flushed(spec_buffer_pushed(m, a[0]));
        lemma_capture_run_split(m1, a.drop_first(), b);
        assert((a + b)[0] == a[0]);
        assert((a + b).drop_first() =~= a.drop_first() + b);
        let head = match out {
            Some(rec) => seq![rec],
            None => Seq::<Seq<FrameSnapshot>>::empty(),
        };
        assert(spec_capture_run(m, a + b).1 =~= head + spec_capture_run(m1, a.drop_first() + b).1);
        assert(head + (spec_capture_run(m1, a.drop_first()).1 + spec_capture_run(
            spec_capture_run(m1, a.drop_first()).0,
            b,
        ).1) =~= (head + spec_capture_run(m1, a.drop_first()).1) + spec_capture_run(
            spec_capture_run(m1, a.drop_first()).0,
            b,
        ).1);
    }
}

} // verus!
