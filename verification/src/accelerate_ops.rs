//! Dense matrix product `C = alpha * A * B + beta * C` through CBLAS `sgemm`:
//! dimension checks and the arguments of the call.
use vstd::prelude::*;

verus! {

/// CBLAS constant for row-major storage.
pub const CBLAS_ROW_MAJOR: i32 = 101;

/// CBLAS constant for an operand used as it is (not transposed).
pub const CBLAS_NO_TRANS: i32 = 111;

/// Why a matrix product was refused.
#[derive(Clone, Copy, Debug, PartialEq, Eq, Structural)]
pub enum GemmError {
    /// A buffer is shorter than its matrix: `A` is `m x k`, `B` is `k x n`,
    /// `C` is `m x n`.
    InvalidDimensions,
}

/// The integer arguments of a row-major, untransposed `cblas_sgemm` call.
#[derive(Clone, Copy, Debug, PartialEq, Eq, Structural)]
pub struct GemmCall {
    pub order: i32,
    pub trans_a: i32,
    pub trans_b: i32,
    pub m: i32,
    pub n: i32,
    pub k: i32,
    /// Leading dimension of `A` (its row length `k`).
    pub lda: i32,
    /// Leading dimension of `B` (its row length `n`).
    pub ldb: i32,
    /// Leading dimension of `C` (its row length `n`).
    pub ldc: i32,
}

/// Some buffer is too short for its matrix.
pub open spec fn gemm_too_short(m: usize, n: usize, k: usize, a_len: usize, b_len: usize, c_len: usize) -> bool {
    a_len < m * k || b_len < k * n || c_len < m * n
}

/// Checks the buffer lengths against the dimensions and, if they fit, gives
/// the arguments of the `sgemm` call (dimensions passed as 32-bit integers).
pub fn plan_sgemm(m: usize, n: usize, k: usize, a_len: usize, b_len: usize, c_len: usize) -> (r: Result<GemmCall, GemmError>)
    requires
        m * k <= usize::MAX,
        a_len >= m * k ==> k * n <= usize::MAX,
        a_len >= m * k && b_len >= k * n ==> m * n <= usize::MAX,
    ensures
        r.is_err() <==> gemm_too_short(m, n, k, a_len, b_len, c_len),
        r.is_ok() <==> (a_len >= m * k && b_len >= k * n && c_len >= m * n),
        r matches Err(e) ==> e == GemmError::InvalidDimensions,
        r matches Ok(call) ==> call == (GemmCall {
            order: CBLAS_ROW_MAJOR,
            trans_a: CBLAS_NO_TRANS,
            trans_b: CBLAS_NO_TRANS,
            m: m as i32,
            n: n as i32,
            k: k as i32,
            lda: k as i32,
            ldb: n as i32,
            ldc: n as i32,
        }),
{
    if a_len < m * k || b_len < k * n || c_len < m * n {
        return Err(GemmError::InvalidDimensions);
    }
    Ok(
        GemmCall {
            order: CBLAS_ROW_MAJOR,
            trans_a: CBLAS_NO_TRANS,
            trans_b: CBLAS_NO_TRANS,
            m: m as i32,
            n: n as i32,
            k: k as i32,
            lda: k as i32,
            ldb: n as i32,
            ldc: n as i32,
        },
    )
}

/// Buffers that hold at least their whole matrices (`A` of `m x k`, `B` of
/// `k x n`, `C` of `m x n`) are always accepted, whatever the dimensions.
pub proof fn lemma_fitting_buffers_accepted(m: usize, n: usize, k: usize, a_len: usize, b_len: usize, c_len: usize)
    requires
        a_len >= m * k,
        b_len >= k * n,
        c_len >= m * n,
    ensures
        !gemm_too_short(m, n, k, a_len, b_len, c_len),
{
}

/// A buffer shorter than its matrix is always refused.
pub proof fn lemma_short_buffer_refused(m: usize, n: usize, k: usize, a_len: usize, b_len: usize, c_len: usize)
    requires
        a_len < m * k || b_len < k * n || c_len < m * n,
    ensures
        gemm_too_short(m, n, k, a_len, b_len, c_len),
{
}

/// Longer buffers are never refused where shorter ones are accepted.
pub proof fn lemma_acceptance_monotone(
    m: usize,
    n: usize,
    k: usize,
    a_len: usize,
    b_len: usize,
    c_len: usize,
    a2: usize,
    b2: usize,
    c2: usize,
)
    requires
        !gemm_too_short(m, n, k, a_len, b_len, c_len),
        a2 >= a_len,
        b2 >= b_len,
        c2 >= c_len,
    ensures
        !gemm_too_short(m, n, k, a2, b2, c2),
{
}

} // verus!
