//! Shiloach-Vishkin connected components: the initial forest, the
//! convergence loop, launch geometry and buffer sizes.
use vstd::prelude::*;
use crate::launch::{byte_len, capped_dispatch, capped_launch, Dispatch};

verus! {

/// Threads per threadgroup for the hooking and pointer-jumping kernels.
pub const LABEL_GROUP: u64 = 256;

/// The iteration count at which the loop stops even if labels still change.
pub const MAX_ITERATIONS: u32 = 1000;

/// The initial forest: every node is its own parent.
pub fn initial_parents(num_nodes: u32) -> (parents: Vec<u32>)
    ensures
        parents@.len() == num_nodes,
        forall|i: int| 0 <= i < num_nodes ==> parents@[i] == i,
{
    let mut parents: Vec<u32> = Vec::new();
    let mut i: u32 = 0;
    while i < num_nodes
        invariant
            i <= num_nodes,
            parents@.len() == i,
            forall|j: int| 0 <= j < i ==> parents@[j] == j,
        decreases num_nodes - i,
    {
        parents.push(i);
        i = i + 1;
    }
    parents
}

/// The convergence loop between passes of hooking + pointer jumping.
#[derive(Clone, Copy, Debug, PartialEq, Eq, Structural)]
pub struct Convergence {
    /// Passes that changed a label and were followed by another pass.
    pub iteration: u32,
    /// Whether the loop has stopped.
    pub finished: bool,
}

impl Convergence {
    /// The loop after a pass whose kernels reported `changed` (0 = no label changed):
    /// it stops when nothing changed or the iteration limit is reached.
    pub open spec fn after(self, changed: u32) -> Convergence {
        if changed == 0 || self.iteration >= MAX_ITERATIONS {
            Convergence { iteration: self.iteration, finished: true }
        } else {
            Convergence { iteration: (self.iteration + 1) as u32, finished: false }
        }
    }

    /// Before the first pass.
    pub fn start() -> (c: Convergence)
        ensures
            c == (Convergence { iteration: 0, finished: false }),
    {
        Convergence { iteration: 0, finished: false }
    }

    /// Whether another pass runs.
    pub fn runs(&self) -> (r: bool)
        ensures
            r == !self.finished,
    {
        !self.finished
    }

    /// Records a pass whose kernels reported `changed`.
    pub fn observe(&mut self, changed: u32)
        requires
            !old(self).finished,
            old(self).iteration <= MAX_ITERATIONS,
        ensures
            *final(self) == old(self).after(changed),
            final(self).iteration <= MAX_ITERATIONS,
    {
        if changed == 0 || self.iteration >= MAX_ITERATIONS {
            self.finished = true;
        } else {
            self.iteration = self.iteration + 1;
        }
    }
}

/// Passes the loop runs from state `c` when the kernels report the flags
/// `reports` in turn.
pub open spec fn convergence_passes(c: Convergence, reports: Seq<u32>) -> nat
    decreases reports.len(),
{
    if c.finished || reports.len() == 0 {
        0
    } else {
        1 + convergence_passes(c.after(reports[0]), reports.drop_first())
    }
}

/// Whatever the kernels report, the loop runs at most
/// `MAX_ITERATIONS + 1 - iteration` more passes; from the start, at most 1001.
pub proof fn lemma_convergence_bounded(c: Convergence, reports: Seq<u32>)
    requires
        c.iteration <= MAX_ITERATIONS,
    ensures
        convergence_passes(c, reports) <= MAX_ITERATIONS + 1 - c.iteration,
    decreases reports.len(),
{
    if !c.finished && reports.len() > 0 {
        lemma_convergence_bounded(c.after(reports[0]), reports.drop_first());
    }
}

/// A pass that changes nothing is the last one.
pub proof fn lemma_stable_pass_is_last(c: Convergence, reports: Seq<u32>)
    requires
        !c.finished,
        reports.len() > 0,
        reports[0] == 0,
    ensures
        convergence_passes(c, reports) == 1,
{
    assert(c.after(reports[0]).finished);
    assert(convergence_passes(c.after(reports[0]), reports.drop_first()) == 0);
}

/// Everything the host decides before the loop.
pub struct ComponentsPlan {
    pub row_ptr_bytes: u64,
    pub col_idx_bytes: u64,
    pub parent_bytes: u64,
    /// The initial forest.
    pub initial_parents: Vec<u32>,
    /// The launch of both kernels in every pass.
    pub dispatch: Dispatch,
    pub convergence: Convergence,
    /// Length of the label vector handed back.
    pub result_len: usize,
}

/// Plans connected components over a CSR graph of `num_nodes` nodes.
pub fn plan_components(row_ptr_len: usize, col_idx_len: usize, num_nodes: u32) -> (plan: ComponentsPlan)
    requires
        row_ptr_len * 4 <= usize::MAX,
        col_idx_len * 4 <= usize::MAX,
        num_nodes * 4 <= usize::MAX,
    ensures
        plan.row_ptr_bytes == row_ptr_len * 4,
        plan.col_idx_bytes == col_idx_len * 4,
        plan.parent_bytes == num_nodes * 4,
        plan.initial_parents@.len() == num_nodes,
        forall|i: int| 0 <= i < num_nodes ==> plan.initial_parents@[i] == i,
        plan.dispatch == capped_launch(num_nodes as u64, LABEL_GROUP),
        plan.convergence == (Convergence { iteration: 0, finished: false }),
        plan.result_len == num_nodes,
{
    ComponentsPlan {
        row_ptr_bytes: byte_len(row_ptr_len),
        col_idx_bytes: byte_len(col_idx_len),
        parent_bytes: byte_len(num_nodes as usize),
        initial_parents: initial_parents(num_nodes),
        dispatch: capped_dispatch(num_nodes as u64, LABEL_GROUP),
        convergence: Convergence::start(),
        result_len: num_nodes as usize,
    }
}

/// The stop rule: a pass that changes no label ends the loop, a pass at the
/// iteration limit ends it, and any other pass continues with the count up by one.
pub proof fn lemma_convergence_step(c: Convergence, changed: u32)
    requires
        c.iteration <= MAX_ITERATIONS,
    ensures
        changed == 0 ==> c.after(changed).finished,
        c.iteration == MAX_ITERATIONS ==> c.after(changed).finished,
        changed != 0 && c.iteration < MAX_ITERATIONS ==> !c.after(changed).finished && c.after(changed).iteration
            == c.iteration + 1,
        c.after(changed).iteration <= MAX_ITERATIONS,
{
}

} // verus!
