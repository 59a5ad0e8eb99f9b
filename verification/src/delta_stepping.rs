//! Delta-stepping single-source shortest paths: initial distances, the
//! frontier bucket sweep, and buffer sizes.
//!
//! Distances live on the GPU as the bit patterns of `f32` values, so that
//! the relaxation kernel can update them with integer atomics.
use vstd::prelude::*;
use crate::launch::{byte_len, capped_dispatch, capped_launch, Dispatch, DispatchMode};
use crate::pagerank::{csr_rows, rows_of};
use crate::pingpong::{flip, Slot};

verus! {

/// Bit pattern of `f32::INFINITY`: the distance of a node not reached yet.
pub const INFINITY_BITS: u32 = 0x7f80_0000;

/// Bit pattern of `0.0f32`: the distance of the source.
pub const ZERO_BITS: u32 = 0;

/// Threads per threadgroup for the relaxation kernel.
pub const SWEEP_GROUP: u64 = 256;

/// Initial distances: 0 at the source, infinity everywhere else.
pub fn initial_distance_bits(num_nodes: u32, source: u32) -> (dist: Vec<u32>)
    requires
        source < num_nodes,
    ensures
        dist@.len() == num_nodes,
        dist@[source as int] == ZERO_BITS,
        forall|i: int| 0 <= i < num_nodes && i != source ==> dist@[i] == INFINITY_BITS,
{
    let mut dist: Vec<u32> = Vec::new();
    let mut i: u32 = 0;
    while i < num_nodes
        invariant
            i <= num_nodes,
            source < num_nodes,
            dist@.len() == i,
            forall|j: int| 0 <= j < i ==> dist@[j] == (if j == source { ZERO_BITS } else { INFINITY_BITS }),
        decreases num_nodes - i,
    {
        if i == source {
            dist.push(ZERO_BITS);
        } else {
            dist.push(INFINITY_BITS);
        }
        i = i + 1;
    }
    dist
}

/// One relaxation pass: the bucket it reads, the bucket it fills, and its launch.
#[derive(Clone, Copy, Debug, PartialEq, Eq, Structural)]
pub struct Relaxation {
    pub read: Slot,
    pub write: Slot,
    pub dispatch: Dispatch,
}

/// The state of the bucket sweep between relaxation passes.
#[derive(Clone, Copy, Debug, PartialEq, Eq, Structural)]
pub struct BucketSweep {
    /// Passes run so far.
    pub pass: u32,
    /// Safety limit on the number of passes.
    pub max_passes: u32,
    /// Nodes in the bucket that the next pass reads.
    pub bucket_size: u32,
    /// The bucket buffer that the next pass reads.
    pub current: Slot,
}

impl BucketSweep {
    /// Whether another pass runs: the limit is not reached and the current
    /// bucket holds a node.
    pub open spec fn runs(self) -> bool {
        self.pass < self.max_passes && self.bucket_size > 0
    }

    /// The sweep after a pass that left `next_bucket_size` nodes in the next bucket.
    pub open spec fn after(self, next_bucket_size: u32) -> BucketSweep {
        BucketSweep {
            pass: (self.pass + 1) as u32,
            max_passes: self.max_passes,
            bucket_size: next_bucket_size,
            current: flip(self.current),
        }
    }

    /// The relaxation that the next pass performs.
    pub open spec fn relaxation(self) -> Relaxation {
        Relaxation {
            read: self.current,
            write: flip(self.current),
            dispatch: capped_launch(self.bucket_size as u64, SWEEP_GROUP),
        }
    }

    /// The sweep before the first pass over a graph of `num_nodes` nodes: the
    /// primary bucket holds the source alone, and at most `2 * num_nodes`
    /// passes run.
    pub fn start(num_nodes: u32) -> (s: BucketSweep)
        requires
            num_nodes * 2 <= u32::MAX,
        ensures
            s == (BucketSweep { pass: 0, max_passes: (num_nodes * 2) as u32, bucket_size: 1, current: Slot::Primary }),
    {
        BucketSweep { pass: 0, max_passes: num_nodes * 2, bucket_size: 1, current: Slot::Primary }
    }

    /// The next relaxation pass, or `None` when the sweep is over.
    pub fn next_relaxation(&self) -> (r: Option<Relaxation>)
        ensures
            r.is_some() == self.runs(),
            self.runs() ==> r == Some(self.relaxation()),
            r matches Some(x) ==> {
                &&& x.dispatch.mode == DispatchMode::Threads
                &&& x.dispatch.grid.width == self.bucket_size
                &&& 1 <= x.dispatch.group.width <= SWEEP_GROUP
                &&& x.dispatch.group.width <= self.bucket_size
                &&& x.read == self.current
                &&& x.write != x.read
            },
    {
        if self.pass < self.max_passes && self.bucket_size > 0 {
            Some(
                Relaxation {
                    read: self.current,
                    write: self.current.other(),
                    dispatch: capped_dispatch(self.bucket_size as u64, SWEEP_GROUP),
                },
            )
        } else {
            None
        }
    }

    /// Records a pass that left `next_bucket_size` nodes in the next bucket:
    /// the buckets trade places.
    pub fn record(&mut self, next_bucket_size: u32)
        requires
            old(self).runs(),
        ensures
            *final(self) == old(self).after(next_bucket_size),
            final(self).pass == old(self).pass + 1,
            final(self).max_passes == old(self).max_passes,
            final(self).bucket_size == next_bucket_size,
            final(self).current != old(self).current,
    {
        self.pass = self.pass + 1;
        self.bucket_size = next_bucket_size;
        self.current = self.current.other();
    }
}

/// Passes the sweep runs from state `s` when the kernel reports the bucket
/// sizes `reports` in turn.
pub open spec fn sweep_passes(s: BucketSweep, reports: Seq<u32>) -> nat
    decreases reports.len(),
{
    if !s.runs() || reports.len() == 0 {
        0
    } else {
        1 + sweep_passes(s.after(reports[0]), reports.drop_first())
    }
}

/// Whatever bucket sizes the kernel reports, the sweep runs at most
/// `max_passes - pass` more passes; from the start, at most `2 * num_nodes`.
pub proof fn lemma_sweep_bounded(s: BucketSweep, reports: Seq<u32>)
    requires
        s.pass <= s.max_passes,
    ensures
        sweep_passes(s, reports) <= s.max_passes - s.pass,
    decreases reports.len(),
{
    if s.runs() && reports.len() > 0 {
        lemma_sweep_bounded(s.after(reports[0]), reports.drop_first());
    }
}

/// An empty bucket ends the sweep at once.
pub proof fn lemma_empty_bucket_stops(s: BucketSweep, reports: Seq<u32>)
    requires
        s.bucket_size == 0,
    ensures
        sweep_passes(s, reports) == 0,
{
}

/// Everything the host decides before the sweep.
pub struct SsspPlan {
    pub num_nodes: u32,
    pub row_ptr_bytes: u64,
    pub col_idx_bytes: u64,
    pub weights_bytes: u64,
    /// Size of the distance buffer.
    pub dist_bytes: u64,
    /// Size of each of the two bucket buffers (a bucket never exceeds the node count).
    pub bucket_bytes: u64,
    /// Initial distances, as `f32` bits.
    pub initial_distances: Vec<u32>,
    /// The node placed in the first bucket.
    pub first_bucket_node: u32,
    pub sweep: BucketSweep,
    /// Length of the distance vector handed back.
    pub result_len: usize,
}

/// Plans delta-stepping from `source` over a CSR graph with
/// `row_ptr_len - 1` nodes.
pub fn plan_delta_stepping(row_ptr_len: usize, col_idx_len: usize, weights_len: usize, source: u32) -> (plan: SsspPlan)
    requires
        row_ptr_len >= 1,
        source < csr_rows(row_ptr_len),
        row_ptr_len * 4 <= usize::MAX,
        col_idx_len * 4 <= usize::MAX,
        weights_len * 4 <= usize::MAX,
        csr_rows(row_ptr_len) * 4 <= usize::MAX,
        csr_rows(row_ptr_len) * 2 <= u32::MAX,
    ensures
        plan.num_nodes == csr_rows(row_ptr_len),
        plan.row_ptr_bytes == row_ptr_len * 4,
        plan.col_idx_bytes == col_idx_len * 4,
        plan.weights_bytes == weights_len * 4,
        plan.dist_bytes == plan.num_nodes * 4,
        plan.bucket_bytes == plan.num_nodes * 4,
        plan.initial_distances@.len() == plan.num_nodes,
        plan.initial_distances@[source as int] == ZERO_BITS,
        forall|i: int| 0 <= i < plan.num_nodes && i != source ==> plan.initial_distances@[i] == INFINITY_BITS,
        plan.first_bucket_node == source,
        plan.sweep == (BucketSweep { pass: 0, max_passes: (plan.num_nodes * 2) as u32, bucket_size: 1, current: Slot::Primary }),
        plan.result_len == plan.num_nodes,
{
    let num_nodes = rows_of(row_ptr_len);
    let dist_bytes = byte_len(num_nodes as usize);
    SsspPlan {
        num_nodes,
        row_ptr_bytes: byte_len(row_ptr_len),
        col_idx_bytes: byte_len(col_idx_len),
        weights_bytes: byte_len(weights_len),
        dist_bytes,
        bucket_bytes: dist_bytes,
        initial_distances: initial_distance_bits(num_nodes, source),
        first_bucket_node: source,
        sweep: BucketSweep::start(num_nodes),
        result_len: num_nodes as usize,
    }
}

/// A relaxation pass launches one thread for every node of the current
/// bucket, in threadgroups of at most 256 that never exceed the bucket, and
/// fills the other bucket buffer.
pub proof fn lemma_relaxation_covers_bucket(s: BucketSweep)
    requires
        s.runs(),
    ensures
        s.relaxation().dispatch.mode == DispatchMode::Threads,
        s.relaxation().dispatch.grid.width == s.bucket_size,
        s.relaxation().dispatch.grid.height == 1,
        s.relaxation().dispatch.grid.depth == 1,
        1 <= s.relaxation().dispatch.group.width <= SWEEP_GROUP,
        s.relaxation().dispatch.group.width <= s.bucket_size,
        s.relaxation().read == s.current,
        s.relaxation().write != s.current,
{
}

/// After a pass, one more pass has run, the reported size becomes the
/// current bucket's size, and the buckets have traded places.
pub proof fn lemma_sweep_step(s: BucketSweep, next_bucket_size: u32)
    requires
        s.runs(),
    ensures
        s.after(next_bucket_size).pass == s.pass + 1,
        s.after(next_bucket_size).max_passes == s.max_passes,
        s.after(next_bucket_size).bucket_size == next_bucket_size,
        s.after(next_bucket_size).current != s.current,
{
}

} // verus!
