//! All-pairs N-body integration: body count, buffer sizes, launch and the
//! double-buffered step schedule.
use vstd::prelude::*;
use crate::launch::{byte_len, row_dispatch, row_launch, Dispatch};
use crate::pingpong::PingPong;

verus! {

/// Threads per threadgroup of the integration kernel.
pub const BODY_GROUP: u64 = 256;

/// Floats per body in the position buffer (`x, y, z, mass`) and in the
/// velocity buffer (`vx, vy, vz, 0`).
pub const FLOATS_PER_BODY: usize = 4;

/// Everything the host decides before integrating.
pub struct NBodyPlan {
    pub num_bodies: u32,
    /// Size of each position buffer, and of the velocity buffer.
    pub state_bytes: u64,
    /// One thread per body.
    pub dispatch: Dispatch,
    /// The double-buffered step schedule, `max_iters` steps; positions start
    /// in the primary buffer.
    pub passes: PingPong,
    /// Length of the position vector handed back.
    pub result_len: usize,
}

/// Plans `max_iters` integration steps of the bodies whose positions fill
/// `positions_len` floats.
pub fn plan_nbody(positions_len: usize, max_iters: u32) -> (plan: NBodyPlan)
    requires
        positions_len * 4 <= usize::MAX,
    ensures
        plan.num_bodies == (positions_len / 4) as u32,
        plan.state_bytes == positions_len * 4,
        plan.dispatch == row_launch(plan.num_bodies as u64, BODY_GROUP),
        plan.passes == (PingPong { total: max_iters, done: 0 }),
        plan.result_len == positions_len,
{
    let num_bodies = (positions_len / FLOATS_PER_BODY) as u32;
    NBodyPlan {
        num_bodies,
        state_bytes: byte_len(positions_len),
        dispatch: row_dispatch(num_bodies as u64, BODY_GROUP),
        passes: PingPong::new(max_iters),
        result_len: positions_len,
    }
}

} // verus!
