//! The segment workers' side of a transfer: accumulating a segment body in
//! memory, committing it to the shared output at the segment's offset, and
//! the state machine a whole transfer moves through.

use vstd::prelude::*;
use crate::plan::Segment;
use crate::progress::StreamProgress;

verus! {

/// Appends one received chunk to a segment's in-memory body.
pub fn append_chunk(body: &mut Vec<u8>, chunk: &[u8])
    requires
        old(body)@.len() + chunk@.len() <= usize::MAX,
    ensures
        final(body)@ == old(body)@ + chunk@,
{
    body.extend_from_slice(chunk);
}

/// Writes `data` into `dest` starting at `offset`, leaving every other
/// byte unchanged. This is the seek-then-write pair a worker performs on
/// the shared output, modelled on an in-memory image of the file.
pub fn write_at(dest: &mut Vec<u8>, offset: usize, data: &[u8])
    requires
        offset + data@.len() <= old(dest)@.len(),
    ensures
        final(dest)@.len() == old(dest)@.len(),
        forall|k: int|
            offset <= k < offset + data@.len() ==> final(dest)@[k] == data@[k - offset],
        forall|k: int|
            0 <= k < old(dest)@.len() && !(offset <= k < offset + data@.len())
                ==> final(dest)@[k] == old(dest)@[k],
{
    let dest_len = dest.len();
    let mut i: usize = 0;
    while i < data.len()
        invariant
            dest_len == dest@.len(),
            offset + data@.len() <= dest_len,
            dest@.len() == old(dest)@.len(),
            0 <= i <= data@.len(),
            forall|k: int| offset <= k < offset + i ==> dest@[k] == data@[k - offset],
            forall|k: int|
                0 <= k < old(dest)@.len() && !(offset <= k < offset + i)
                    ==> dest@[k] == old(dest)@[k],
        decreases data@.len() - i,
    {
        dest[offset + i] = data[i];
        i = i + 1;
    }
}

/// Commits a completed segment body to the shared output: the body lands
/// exactly on the segment's byte range, and no byte outside that range
/// moves.
pub fn commit_segment(dest: &mut Vec<u8>, seg: &Segment, body: &[u8])
    requires
        seg.start <= seg.end,
        seg.end < old(dest)@.len(),
        body@.len() == seg.end - seg.start + 1,
    ensures
        final(dest)@.len() == old(dest)@.len(),
        forall|k: int|
            seg.start <= k <= seg.end ==> final(dest)@[k] == body@[k - seg.start],
        forall|k: int|
            0 <= k < old(dest)@.len() && !(seg.start <= k <= seg.end)
                ==> final(dest)@[k] == old(dest)@[k],
{
    let n = dest.len();
    proof {
        assert(seg.start < n);
    }
    write_at(dest, seg.start as usize, body);
}

/// One block of the single-stream fallback copy, modelled on an in-memory
/// image of the destination: the block lands at the end of the output, and
/// the same byte count enters the progress accounting — so the cumulative
/// progress always equals the bytes written, and the terminal report
/// equals the destination's length.
pub fn copy_block(
    dest: &mut Vec<u8>,
    progress: &mut StreamProgress,
    chunk: &[u8],
    now_ms: u64,
) -> (emit: Option<u64>)
    requires
        old(progress).wf(),
        old(progress).counter.total == old(dest)@.len(),
        old(dest)@.len() + chunk@.len() <= usize::MAX,
        old(dest)@.len() + chunk@.len() <= u64::MAX,
    ensures
        final(progress).wf(),
        final(dest)@ == old(dest)@ + chunk@,
        final(progress).counter.total == final(dest)@.len(),
        emit is Some <==> old(progress).throttle.spec_is_due(now_ms),
        match emit {
            Some(v) => v == final(dest)@.len(),
            None => true,
        },
{
    dest.extend_from_slice(chunk);
    progress.on_chunk(chunk.len() as u64, now_ms)
}

/// The phase a transfer is in, following the segmented path's lifecycle.
#[derive(Clone, Copy, Debug, PartialEq, Eq, Structural)]
pub enum TransferPhase {
    /// Asking the server about size and range support.
    Probing,
    /// Deciding the strategy and cutting segments.
    Planning,
    /// Segment workers are streaming; this many are still pending.
    Downloading { pending: usize },
    /// All segments landed; the output is being flushed and synced.
    Finalizing,
    /// The transfer succeeded.
    Done,
    /// A segment exhausted its retries, or an earlier stage failed.
    Failed,
}

/// The lifecycle of one transfer:
/// `Probing -> Planning -> Downloading -> Finalizing -> Done`, with any
/// fatal failure moving to `Failed`. Each step is legal only in the phase
/// it belongs to, so a driver that type-checks against this machine cannot
/// reorder the stages.
pub struct TransferMachine {
    pub phase: TransferPhase,
}

impl TransferMachine {
    /// A new transfer, about to probe the resource.
    pub fn start() -> (r: TransferMachine)
        ensures
            r.phase == TransferPhase::Probing,
    {
        TransferMachine { phase: TransferPhase::Probing }
    }

    /// The probe answered (or failed soft, which planning treats as "no
    /// range support"): move on to planning.
    pub fn probed(&mut self)
        requires
            old(self).phase == TransferPhase::Probing,
        ensures
            final(self).phase == TransferPhase::Planning,
    {
        self.phase = TransferPhase::Planning;
    }

    /// Planning chose the segmented path with `segment_count` workers.
    pub fn start_segments(&mut self, segment_count: usize)
        requires
            old(self).phase == TransferPhase::Planning,
            segment_count > 0,
        ensures
            final(self).phase == (TransferPhase::Downloading { pending: segment_count }),
    {
        self.phase = TransferPhase::Downloading { pending: segment_count };
    }

    /// One segment worker finished its range; when the last one lands the
    /// transfer moves to finalizing.
    pub fn segment_done(&mut self)
        requires
            old(self).phase matches TransferPhase::Downloading { pending } && pending > 0,
        ensures
            old(self).phase matches TransferPhase::Downloading { pending } ==> if pending == 1 {
                final(self).phase == TransferPhase::Finalizing
            } else {
                final(self).phase == (TransferPhase::Downloading { pending: (pending - 1) as usize })
            },
    {
        match self.phase {
            TransferPhase::Downloading { pending } => {
                if pending == 1 {
                    self.phase = TransferPhase::Finalizing;
                } else {
                    self.phase = TransferPhase::Downloading { pending: pending - 1 };
                }
            },
            _ => {},
        }
    }

    /// A segment exhausted its retries: the whole transfer fails.
    pub fn segment_failed(&mut self)
        requires
            old(self).phase matches TransferPhase::Downloading { pending } && pending > 0,
        ensures
            final(self).phase == TransferPhase::Failed,
    {
        self.phase = TransferPhase::Failed;
    }

    /// The output was flushed and synced: the transfer is done.
    pub fn finalized(&mut self)
        requires
            old(self).phase == TransferPhase::Finalizing,
        ensures
            final(self).phase == TransferPhase::Done,
    {
        self.phase = TransferPhase::Done;
    }

    /// An earlier stage failed hard (probe refused and fallback failed,
    /// planning impossible, or a local I/O error).
    pub fn failed(&mut self)
        ensures
            final(self).phase == TransferPhase::Failed,
    {
        self.phase = TransferPhase::Failed;
    }
}

} // verus!
