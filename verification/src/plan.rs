//! Transfer planning: deciding between the single-stream and the segmented
//! path, and cutting the resource into disjoint, contiguous byte ranges.

use vstd::prelude::*;
use vstd::arithmetic::div_mod::*;
use vstd::arithmetic::mul::*;

verus! {

/// Sizes below this threshold always use the single-stream path.
pub const MIN_SEGMENTED_SIZE: u64 = 1048576;

/// The fewest segments a segmented transfer may use.
pub const MIN_SEGMENTS: usize = 2;

/// The most segments a segmented transfer may use.
pub const MAX_SEGMENTS: usize = 8;

/// One contiguous byte range of the remote resource, owned by one worker.
/// `end` is inclusive.
#[derive(Clone, Copy, Debug, PartialEq, Eq, Structural)]
pub struct Segment {
    pub index: usize,
    pub start: u64,
    pub end: u64,
}

/// The decision for one transfer: how large the resource is, whether the
/// server honours ranges, and the segments to fetch (empty on the
/// single-stream path).
#[derive(Debug)]
pub struct TransferPlan {
    pub total_size: u64,
    pub supports_range: bool,
    pub segments: Vec<Segment>,
}

impl TransferPlan {
    /// Whether this plan uses the single-stream fallback.
    pub open spec fn is_single_stream(&self) -> bool {
        self.segments@.len() == 0
    }
}

/// A desired segment count clamped into `[MIN_SEGMENTS, MAX_SEGMENTS]`.
pub open spec fn spec_clamp_segment_count(desired: usize) -> usize {
    if desired < MIN_SEGMENTS {
        MIN_SEGMENTS
    } else if desired > MAX_SEGMENTS {
        MAX_SEGMENTS
    } else {
        desired
    }
}

/// Clamp a desired segment count into the allowed band.
pub fn clamp_segment_count(desired: usize) -> (r: usize)
    ensures
        r == spec_clamp_segment_count(desired),
{
    if desired < MIN_SEGMENTS {
        MIN_SEGMENTS
    } else if desired > MAX_SEGMENTS {
        MAX_SEGMENTS
    } else {
        desired
    }
}

/// Relies on num_cpus::get, which is documented to always return at least 1:
/// reports the number of logical processors available to this process.
#[verifier::external_body]
fn available_parallelism() -> (r: usize)
    ensures
        r >= 1,
{
    num_cpus::get()
}

/// The segment count used when the caller does not override it: the number
/// of available execution units, clamped into the allowed band.
pub fn default_segment_count() -> (r: usize)
    ensures
        MIN_SEGMENTS <= r <= MAX_SEGMENTS,
{
    clamp_segment_count(available_parallelism())
}

/// Width of every segment but the last: the total divided evenly.
pub open spec fn spec_chunk_size(total_size: u64, count: usize) -> int {
    total_size as int / count as int
}

/// Start offset of segment `i`.
pub open spec fn spec_seg_start(total_size: u64, count: usize, i: int) -> int {
    i * spec_chunk_size(total_size, count)
}

/// Inclusive end offset of segment `i`; the final segment absorbs the
/// remainder.
pub open spec fn spec_seg_end(total_size: u64, count: usize, i: int) -> int {
    if i == count - 1 {
        total_size as int - 1
    } else {
        (i + 1) * spec_chunk_size(total_size, count) - 1
    }
}

/// The segment list of a segmented transfer of `total_size` bytes cut into
/// `count` ranges.
pub open spec fn spec_segments(total_size: u64, count: usize) -> Seq<Segment> {
    Seq::new(
        count as nat,
        |i: int|
            Segment {
                index: i as usize,
                start: spec_seg_start(total_size, count, i) as u64,
                end: spec_seg_end(total_size, count, i) as u64,
            },
    )
}

/// Well-formed segment list for a resource of `total_size` bytes: indices in
/// order, the first range starting at zero, each range non-empty, adjacent
/// ranges contiguous, and the last range ending at the last byte.
pub open spec fn segments_wf(segs: Seq<Segment>, total_size: u64) -> bool {
    &&& segs.len() > 0
    &&& total_size > 0
    &&& segs[0].start == 0
    &&& segs[segs.len() - 1].end == total_size - 1
    &&& forall|i: int| 0 <= i < segs.len() ==> (#[trigger] segs[i]).index == i
    &&& forall|i: int| 0 <= i < segs.len() ==> (#[trigger] segs[i]).start <= segs[i].end
    &&& forall|i: int|
        0 <= i < segs.len() - 1 ==> (#[trigger] segs[i]).end + 1 == segs[i + 1].start
}

proof fn lemma_chunk_bounds(total_size: u64, count: usize)
    requires
        MIN_SEGMENTS <= count <= MAX_SEGMENTS,
        count <= total_size,
    ensures
        1 <= spec_chunk_size(total_size, count),
        count * spec_chunk_size(total_size, count) <= total_size,
{
    let c = spec_chunk_size(total_size, count);
    lemma_fundamental_div_mod(total_size as int, count as int);
    assert(total_size as int == count * c + total_size as int % count as int);
    lemma_mod_bound(total_size as int, count as int);
    assert(c >= 1) by {
        if c < 1 {
            assert(count * c <= 0) by (nonlinear_arith)
                requires c <= 0, count >= 2;
        }
    }
}

/// The segment list computed for any in-policy configuration is well formed.
pub proof fn lemma_spec_segments_wf(total_size: u64, count: usize)
    requires
        MIN_SEGMENTS <= count <= MAX_SEGMENTS,
        count <= total_size,
    ensures
        segments_wf(spec_segments(total_size, count), total_size),
{
    let c = spec_chunk_size(total_size, count);
    let segs = spec_segments(total_size, count);
    lemma_chunk_bounds(total_size, count);
    assert forall|i: int| 0 <= i < count implies (#[trigger] segs[i]).start <= segs[i].end by {
        lemma_seg_offset_bounds(total_size, count, i);
    }
    assert forall|i: int|
        0 <= i < segs.len() - 1 implies (#[trigger] segs[i]).end + 1 == segs[i + 1].start by {
        lemma_seg_offset_bounds(total_size, count, i);
        lemma_seg_offset_bounds(total_size, count, i + 1);
    }
    assert(segs[0].start == 0) by {
        lemma_seg_offset_bounds(total_size, count, 0);
    }
}

/// Offset arithmetic bounds for one segment index: its start is in range,
/// its nominal end stays within the resource, and one chunk separates it
/// from the next start.
proof fn lemma_seg_offset_bounds(total_size: u64, count: usize, i: int)
    requires
        MIN_SEGMENTS <= count <= MAX_SEGMENTS,
        count <= total_size,
        0 <= i < count,
    ensures
        0 <= i * spec_chunk_size(total_size, count),
        (i + 1) * spec_chunk_size(total_size, count) <= total_size,
        (i + 1) * spec_chunk_size(total_size, count) == i * spec_chunk_size(total_size, count)
            + spec_chunk_size(total_size, count),
        i * spec_chunk_size(total_size, count) <= total_size - 1,
        i == 0 ==> i * spec_chunk_size(total_size, count) == 0,
{
    let c = spec_chunk_size(total_size, count);
    lemma_chunk_bounds(total_size, count);
    lemma_mul_nonnegative(i, c);
    lemma_mul_inequality(i + 1, count as int, c);
    assert((i + 1) * c == i * c + c) by {
        lemma_mul_is_distributive_add_other_way(c, i, 1);
        assert(1 * c == c) by (nonlinear_arith);
    }
    if i == 0 {
        assert(0 * c == 0) by (nonlinear_arith);
    }
}

/// In a well-formed segment list, start and end offsets grow with the index.
proof fn lemma_segments_monotone(segs: Seq<Segment>, total_size: u64, i: int, j: int)
    requires
        segments_wf(segs, total_size),
        0 <= i <= j < segs.len(),
    ensures
        segs[i].start <= segs[j].start,
        segs[i].end <= segs[j].end,
        i < j ==> segs[i].end < segs[j].start,
    decreases j - i,
{
    if i < j {
        lemma_segments_monotone(segs, total_size, i, j - 1);
        assert(segs[j - 1].end + 1 == segs[j].start);
    }
}

/// No two distinct segments of a well-formed list share a byte.
pub proof fn lemma_segments_disjoint(segs: Seq<Segment>, total_size: u64, i: int, j: int)
    requires
        segments_wf(segs, total_size),
        0 <= i < j < segs.len(),
    ensures
        segs[i].end < segs[j].start,
{
    lemma_segments_monotone(segs, total_size, i, j);
}

/// Every byte of `[0, total_size)` lies in some segment of a well-formed
/// list, and no segment reaches past the end of the resource.
pub proof fn lemma_segments_cover(segs: Seq<Segment>, total_size: u64, b: u64)
    requires
        segments_wf(segs, total_size),
        b < total_size,
    ensures
        exists|i: int|
            0 <= i < segs.len() && (#[trigger] segs[i]).start <= b && b <= segs[i].end,
    decreases segs.len(),
{
    let n = segs.len() as int;
    if b >= segs[n - 1].start {
        assert(segs[n - 1].start <= b && b <= segs[n - 1].end);
    } else {
        let shorter = segs.drop_last();
        assert(n >= 2) by {
            if n == 1 {
                assert(segs[0].start == 0);
            }
        }
        assert(segments_wf(shorter, (segs[n - 2].end + 1) as u64)) by {
            assert(segs[n - 2].end + 1 == segs[n - 1].start);
            lemma_segments_monotone(segs, total_size, n - 2, n - 1);
            assert(forall|k: int|
                0 <= k < shorter.len() ==> #[trigger] shorter[k] == segs[k]);
        }
        lemma_segments_cover(shorter, (segs[n - 2].end + 1) as u64, b);
        let w = choose|i: int|
            0 <= i < shorter.len() && (#[trigger] shorter[i]).start <= b && b <= shorter[i].end;
        assert(segs[w].start <= b && b <= segs[w].end);
    }
}

/// Computes the segment ranges of a segmented transfer: `count` equal-width
/// ranges, the final one absorbing the remainder.
pub fn compute_segments(total_size: u64, count: usize) -> (r: Vec<Segment>)
    requires
        MIN_SEGMENTS <= count <= MAX_SEGMENTS,
        count as u64 <= total_size,
    ensures
        r@ == spec_segments(total_size, count),
        segments_wf(r@, total_size),
{
    proof {
        lemma_chunk_bounds(total_size, count);
        lemma_spec_segments_wf(total_size, count);
    }
    let chunk: u64 = total_size / (count as u64);
    let mut segments: Vec<Segment> = Vec::new();
    let mut i: usize = 0;
    while i < count
        invariant
            MIN_SEGMENTS <= count <= MAX_SEGMENTS,
            count as u64 <= total_size,
            chunk == spec_chunk_size(total_size, count),
            1 <= chunk,
            count * chunk <= total_size,
            0 <= i <= count,
            segments@ =~= spec_segments(total_size, count).subrange(0, i as int),
        decreases count - i,
    {
        proof {
            lemma_seg_offset_bounds(total_size, count, i as int);
        }
        let start: u64 = (i as u64) * chunk;
        let end: u64 = if i == count - 1 {
            total_size - 1
        } else {
            (i as u64 + 1) * chunk - 1
        };
        segments.push(Segment { index: i, start, end });
        proof {
            assert(segments@ =~= spec_segments(total_size, count).subrange(0, i + 1 as int));
        }
        i = i + 1;
    }
    proof {
        assert(segments@ =~= spec_segments(total_size, count));
    }
    segments
}

/// The full planning decision as a function of its inputs: empty on the
/// single-stream path, the computed ranges otherwise.
pub open spec fn spec_plan_segments(
    total_size: u64,
    supports_range: bool,
    count: usize,
) -> Seq<Segment> {
    if total_size < MIN_SEGMENTED_SIZE || !supports_range {
        Seq::empty()
    } else {
        spec_segments(total_size, spec_clamp_segment_count(count))
    }
}

/// Decides the strategy for one transfer.
///
/// A size below the 1 MiB threshold (including 0, which stands for
/// "unknown") or a server without range support falls back to a single
/// stream; anything else is cut into `segment_count` ranges, clamped into
/// the allowed band.
pub fn plan_transfer(total_size: u64, supports_range: bool, segment_count: usize) -> (p:
    TransferPlan)
    ensures
        p.total_size == total_size,
        p.supports_range == supports_range,
        p.segments@ == spec_plan_segments(total_size, supports_range, segment_count),
        p.is_single_stream() <==> (total_size < MIN_SEGMENTED_SIZE || !supports_range),
        !p.is_single_stream() ==> segments_wf(p.segments@, total_size),
{
    if total_size < MIN_SEGMENTED_SIZE || !supports_range {
        TransferPlan { total_size, supports_range, segments: Vec::new() }
    } else {
        let count = clamp_segment_count(segment_count);
        let segments = compute_segments(total_size, count);
        TransferPlan { total_size, supports_range, segments }
    }
}

/// Whether some segment's range holds the byte offset `b`.
pub open spec fn segment_covering(segs: Seq<Segment>, b: u64) -> bool {
    exists|i: int| 0 <= i < segs.len() && (#[trigger] segs[i]).start <= b && b <= segs[i].end
}

/// Coverage law: for any total size of at least the threshold and any
/// segment count in the allowed band, the computed ranges partition
/// `[0, total_size)`: they are non-empty, contiguous from zero to the last
/// byte, and pairwise disjoint.
pub proof fn lemma_plan_coverage(total_size: u64, count: usize)
    requires
        MIN_SEGMENTS <= count <= MAX_SEGMENTS,
        count as u64 <= total_size,
    ensures
        segments_wf(spec_segments(total_size, count), total_size),
        forall|b: u64| b < total_size ==> #[trigger] segment_covering(
            spec_segments(total_size, count),
            b,
        ),
        forall|i: int, j: int|
            0 <= i < j < count ==> (#[trigger] spec_segments(total_size, count)[i]).end < (
            #[trigger] spec_segments(total_size, count)[j]).start,
{
    let segs = spec_segments(total_size, count);
    lemma_spec_segments_wf(total_size, count);
    assert forall|b: u64| b < total_size implies #[trigger] segment_covering(segs, b) by {
        lemma_segments_cover(segs, total_size, b);
    }
    assert forall|i: int, j: int| 0 <= i < j < count implies (#[trigger] segs[i]).end < (
    #[trigger] segs[j]).start by {
        lemma_segments_disjoint(segs, total_size, i, j);
    }
}

/// Reconstruction law: two images of the resource that agree on every
/// segment's byte range are equal — so workers that each land their own
/// range, in any completion order, rebuild the source byte for byte.
pub proof fn lemma_segment_agreement_reconstructs(
    segs: Seq<Segment>,
    total_size: u64,
    a: Seq<u8>,
    b: Seq<u8>,
)
    requires
        segments_wf(segs, total_size),
        a.len() == total_size,
        b.len() == total_size,
        forall|i: int|
            0 <= i < segs.len() ==> forall|k: int|
                (#[trigger] segs[i]).start <= k <= segs[i].end ==> a[k] == b[k],
    ensures
        a == b,
{
    assert forall|k: int| 0 <= k < a.len() implies a[k] == b[k] by {
        lemma_segments_cover(segs, total_size, k as u64);
        let i = choose|i: int|
            0 <= i < segs.len() && (#[trigger] segs[i]).start <= k as u64 && k as u64
                <= segs[i].end;
        assert(segs[i].start <= k <= segs[i].end);
    }
    assert(a =~= b);
}

/// Idempotence law: two plans drawn from identical inputs carry identical
/// segment lists.
pub proof fn lemma_planning_idempotent(
    p1: TransferPlan,
    p2: TransferPlan,
    total_size: u64,
    supports_range: bool,
    count: usize,
)
    requires
        p1.segments@ == spec_plan_segments(total_size, supports_range, count),
        p2.segments@ == spec_plan_segments(total_size, supports_range, count),
    ensures
        p1.segments@ == p2.segments@,
{
}

} // verus!
