//! Sparse matrix-vector product `y = A x` over a CSR matrix: buffer sizes,
//! kernel choice and launch geometry.
use vstd::prelude::*;
use crate::launch::{byte_len, Dispatch};
use crate::pagerank::{csr_rows, rows_of, row_kernel_dispatch, row_kernel_launch, RowKernel};

verus! {

/// Everything the host decides before running one SpMV.
pub struct SpmvPlan {
    pub num_rows: u32,
    pub kernel: RowKernel,
    pub values_bytes: u64,
    pub col_indices_bytes: u64,
    pub row_ptr_bytes: u64,
    pub x_bytes: u64,
    pub y_bytes: u64,
    pub dispatch: Dispatch,
    /// Length of `y` handed back: one entry per row.
    pub result_len: usize,
}

/// Plans `y = A x` for a CSR matrix with `row_ptr_len - 1` rows.
pub fn plan_spmv(
    values_len: usize,
    col_indices_len: usize,
    row_ptr_len: usize,
    x_len: usize,
    use_vector_kernel: bool,
) -> (plan: SpmvPlan)
    requires
        row_ptr_len >= 1,
        values_len * 4 <= usize::MAX,
        col_indices_len * 4 <= usize::MAX,
        row_ptr_len * 4 <= usize::MAX,
        x_len * 4 <= usize::MAX,
        csr_rows(row_ptr_len) * 4 <= usize::MAX,
        use_vector_kernel ==> csr_rows(row_ptr_len) * 32 <= u32::MAX,
    ensures
        plan.num_rows == csr_rows(row_ptr_len),
        plan.kernel == (if use_vector_kernel { RowKernel::Vector } else { RowKernel::Scalar }),
        plan.values_bytes == values_len * 4,
        plan.col_indices_bytes == col_indices_len * 4,
        plan.row_ptr_bytes == row_ptr_len * 4,
        plan.x_bytes == x_len * 4,
        plan.y_bytes == plan.num_rows * 4,
        plan.dispatch == row_kernel_launch(plan.num_rows, plan.kernel),
        plan.result_len == plan.num_rows,
{
    let num_rows = rows_of(row_ptr_len);
    let (kernel, dispatch) = row_kernel_dispatch(num_rows, use_vector_kernel);
    SpmvPlan {
        num_rows,
        kernel,
        values_bytes: byte_len(values_len),
        col_indices_bytes: byte_len(col_indices_len),
        row_ptr_bytes: byte_len(row_ptr_len),
        x_bytes: byte_len(x_len),
        y_bytes: byte_len(num_rows as usize),
        dispatch,
        result_len: num_rows as usize,
    }
}

} // verus!
