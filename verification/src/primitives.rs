//! Single-pass prefix scan and stream compaction: block counts, buffer sizes
//! and launches.
use vstd::prelude::*;
use crate::launch::{block_dispatch, block_launch, blocks_for, row_dispatch, row_launch, Dispatch};

verus! {

/// Threads per threadgroup (and elements per block) of the scan kernels.
pub const SCAN_GROUP: u64 = 512;

/// Everything the host decides before a scan of `n` elements.
pub struct ScanPlan {
    pub n: u64,
    /// Number of blocks of `SCAN_GROUP` elements: the fewest that cover the input.
    pub num_blocks: u64,
    /// Size of the input buffer, and of the output buffer.
    pub data_bytes: u64,
    /// Size of each per-block look-back buffer (status, aggregate, inclusive prefix).
    pub block_state_bytes: u64,
    /// The element count handed to the kernel (a 32-bit value).
    pub kernel_n: u32,
    /// One threadgroup per block.
    pub dispatch: Dispatch,
    /// Length of the scanned vector handed back.
    pub result_len: usize,
}

/// Plans an exclusive prefix scan over `len` elements.
pub fn plan_scan(len: usize) -> (plan: ScanPlan)
    requires
        len + SCAN_GROUP <= u64::MAX,
        len * 4 <= u64::MAX,
    ensures
        plan.n == len,
        plan.num_blocks == (len + SCAN_GROUP - 1) / (SCAN_GROUP as int),
        plan.num_blocks * SCAN_GROUP >= len,
        plan.num_blocks * SCAN_GROUP < len + SCAN_GROUP,
        plan.data_bytes == len * 4,
        plan.block_state_bytes == plan.num_blocks * 4,
        plan.kernel_n == len as u32,
        plan.dispatch == block_launch(plan.num_blocks, SCAN_GROUP),
        plan.result_len == len,
{
    let n = len as u64;
    let num_blocks = blocks_for(n, SCAN_GROUP);
    assert(num_blocks * 4 <= n * 4 + 2048) by (nonlinear_arith)
        requires
            num_blocks * 512 < n + 512,
    ;
    ScanPlan {
        n,
        num_blocks,
        data_bytes: n * 4,
        block_state_bytes: num_blocks * 4,
        kernel_n: n as u32,
        dispatch: block_dispatch(num_blocks, SCAN_GROUP),
        result_len: len,
    }
}

/// Everything the host decides before compacting `n` elements.
pub struct CompactPlan {
    /// The scan of the predicate flags.
    pub scan: ScanPlan,
    /// Size of the predicate and scatter-index buffers (`u32` per element).
    pub flag_bytes: u64,
    /// Launch of the predicate and scatter kernels: one thread per element.
    pub element_dispatch: Dispatch,
}

/// Plans stream compaction of `len` elements (keeping those `> 0.0`).
pub fn plan_compact(len: usize) -> (plan: CompactPlan)
    requires
        len + SCAN_GROUP <= u64::MAX,
        len * 4 <= u64::MAX,
    ensures
        plan.scan.n == len,
        plan.scan.num_blocks == (len + SCAN_GROUP - 1) / (SCAN_GROUP as int),
        plan.scan.data_bytes == len * 4,
        plan.scan.block_state_bytes == plan.scan.num_blocks * 4,
        plan.scan.kernel_n == len as u32,
        plan.scan.dispatch == block_launch(plan.scan.num_blocks, SCAN_GROUP),
        plan.scan.result_len == len,
        plan.flag_bytes == len * 4,
        plan.element_dispatch == row_launch(len as u64, SCAN_GROUP),
        plan.element_dispatch.grid.width >= len,
{
    let scan = plan_scan(len);
    let flag_bytes = scan.data_bytes;
    let element_dispatch = row_dispatch(len as u64, SCAN_GROUP);
    CompactPlan { scan, flag_bytes, element_dispatch }
}

/// Number of elements read back after compaction: the count the scatter
/// kernel reports, but never more than the `n` elements the output buffer holds.
pub fn compacted_len(reported: u32, n: usize) -> (len: usize)
    ensures
        len == (if (reported as int) < (n as int) { reported as int } else { n as int }),
        len <= n,
{
    if (reported as u64) < (n as u64) {
        reported as usize
    } else {
        n
    }
}

} // verus!
