//! PageRank power iteration over a CSR matrix: buffer sizes, kernel choice,
//! launch geometry and the double-buffered iteration schedule.
use vstd::prelude::*;
use crate::launch::{byte_len, row_dispatch, simd_row_dispatch, row_launch, simd_row_launch, Dispatch};
use crate::pingpong::PingPong;

verus! {

/// Threads per threadgroup for the PageRank and SpMV kernels.
pub const ROW_GROUP: u64 = 512;

/// Which kernel variant processes the rows.
#[derive(Clone, Copy, Debug, PartialEq, Eq, Structural)]
pub enum RowKernel {
    /// One thread per row.
    Scalar,
    /// One SIMD group of 32 threads per row.
    Vector,
}

/// Number of rows of a CSR matrix whose row pointer array has `row_ptr_len`
/// entries (one more than the rows).
pub open spec fn csr_rows(row_ptr_len: usize) -> u32 {
    (row_ptr_len - 1) as u32
}

/// Rows of a CSR matrix from the length of its row pointer array.
pub fn rows_of(row_ptr_len: usize) -> (rows: u32)
    requires
        row_ptr_len >= 1,
    ensures
        rows == csr_rows(row_ptr_len),
{
    (row_ptr_len - 1) as u32
}

/// The launch for one pass over `rows` rows with the chosen kernel.
pub open spec fn row_kernel_launch(rows: u32, kernel: RowKernel) -> Dispatch {
    match kernel {
        RowKernel::Scalar => row_launch(rows as u64, ROW_GROUP),
        RowKernel::Vector => simd_row_launch(rows),
    }
}

/// Picks the kernel and computes its launch.
pub fn row_kernel_dispatch(rows: u32, use_vector_kernel: bool) -> (r: (RowKernel, Dispatch))
    requires
        use_vector_kernel ==> rows * 32 <= u32::MAX,
    ensures
        r.0 == (if use_vector_kernel { RowKernel::Vector } else { RowKernel::Scalar }),
        r.1 == row_kernel_launch(rows, r.0),
{
    if use_vector_kernel {
        (RowKernel::Vector, simd_row_dispatch(rows))
    } else {
        (RowKernel::Scalar, row_dispatch(rows as u64, ROW_GROUP))
    }
}

/// Everything the host decides before running PageRank.
pub struct PageRankPlan {
    pub num_nodes: u32,
    pub kernel: RowKernel,
    pub values_bytes: u64,
    pub col_indices_bytes: u64,
    pub row_ptr_bytes: u64,
    /// Size of each of the two rank buffers.
    pub rank_bytes: u64,
    /// The launch of every pass.
    pub dispatch: Dispatch,
    /// The double-buffered pass schedule, `max_iters` passes.
    pub passes: PingPong,
    /// Length of the rank vector handed back.
    pub result_len: usize,
}

/// Plans PageRank over a CSR matrix with `row_ptr_len - 1` rows. The rank
/// vector starts in the primary buffer; after the schedule has run, the
/// ranks are in the buffer it names as its result.
pub fn plan_pagerank(
    values_len: usize,
    col_indices_len: usize,
    row_ptr_len: usize,
    max_iters: u32,
    use_vector_kernel: bool,
) -> (plan: PageRankPlan)
    requires
        row_ptr_len >= 1,
        values_len * 4 <= usize::MAX,
        col_indices_len * 4 <= usize::MAX,
        row_ptr_len * 4 <= usize::MAX,
        csr_rows(row_ptr_len) * 4 <= usize::MAX,
        use_vector_kernel ==> csr_rows(row_ptr_len) * 32 <= u32::MAX,
    ensures
        plan.num_nodes == csr_rows(row_ptr_len),
        plan.kernel == (if use_vector_kernel { RowKernel::Vector } else { RowKernel::Scalar }),
        plan.values_bytes == values_len * 4,
        plan.col_indices_bytes == col_indices_len * 4,
        plan.row_ptr_bytes == row_ptr_len * 4,
        plan.rank_bytes == plan.num_nodes * 4,
        plan.dispatch == row_kernel_launch(plan.num_nodes, plan.kernel),
        plan.passes == (PingPong { total: max_iters, done: 0 }),
        plan.result_len == plan.num_nodes,
{
    let num_nodes = rows_of(row_ptr_len);
    let (kernel, dispatch) = row_kernel_dispatch(num_nodes, use_vector_kernel);
    PageRankPlan {
        num_nodes,
        kernel,
        values_bytes: byte_len(values_len),
        col_indices_bytes: byte_len(col_indices_len),
        row_ptr_bytes: byte_len(row_ptr_len),
        rank_bytes: byte_len(num_nodes as usize),
        dispatch,
        passes: PingPong::new(max_iters),
        result_len: num_nodes as usize,
    }
}

/// A row pointer array holds one more entry than the matrix has rows.
pub proof fn lemma_csr_rows(row_ptr_len: usize)
    requires
        1 <= row_ptr_len <= u32::MAX + 1,
    ensures
        csr_rows(row_ptr_len) + 1 == row_ptr_len,
{
}

/// The scalar kernel launches one thread per row (at least one); the vector
/// kernel one SIMD group of 32 threads per row (at least one group).
pub proof fn lemma_row_kernel_threads(rows: u32)
    requires
        rows * 32 <= u32::MAX,
    ensures
        row_kernel_launch(rows, RowKernel::Scalar).grid.width == (if rows == 0 { 1 } else { rows as int }),
        row_kernel_launch(rows, RowKernel::Scalar).group.width <= ROW_GROUP,
        row_kernel_launch(rows, RowKernel::Vector).grid.width == (if rows == 0 { 32 } else { rows * 32 }),
        row_kernel_launch(rows, RowKernel::Vector).group.width <= ROW_GROUP,
{
    crate::launch::lemma_row_launch_shape(rows as u64, ROW_GROUP);
    crate::launch::lemma_simd_row_launch_shape(rows);
}

} // verus!
