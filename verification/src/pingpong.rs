//! Double buffering for iterative kernels: each pass reads one buffer and
//! writes the other, then the two trade places.
use vstd::prelude::*;

verus! {

/// One of the two buffers of a double-buffered pair.
#[derive(Clone, Copy, Debug, PartialEq, Eq, Structural)]
pub enum Slot {
    /// The buffer that holds the initial data.
    Primary,
    /// The scratch buffer written by the first pass.
    Secondary,
}

/// The other buffer of the pair.
pub open spec fn flip(s: Slot) -> Slot {
    match s {
        Slot::Primary => Slot::Secondary,
        Slot::Secondary => Slot::Primary,
    }
}

/// The buffer that holds the current data after `passes` passes.
pub open spec fn slot_after(passes: nat) -> Slot {
    if passes % 2 == 0 {
        Slot::Primary
    } else {
        Slot::Secondary
    }
}

impl Slot {
    /// The other buffer of the pair.
    pub fn other(self) -> (s: Slot)
        ensures
            s == flip(self),
    {
        match self {
            Slot::Primary => Slot::Secondary,
            Slot::Secondary => Slot::Primary,
        }
    }
}

/// The buffers one pass reads and writes.
#[derive(Clone, Copy, Debug, PartialEq, Eq, Structural)]
pub struct Pass {
    pub read: Slot,
    pub write: Slot,
}

/// A fixed number of double-buffered passes.
#[derive(Clone, Copy, Debug, PartialEq, Eq, Structural)]
pub struct PingPong {
    /// Passes to run.
    pub total: u32,
    /// Passes run so far.
    pub done: u32,
}

impl PingPong {
    /// A schedule of `total` passes, none run yet.
    pub fn new(total: u32) -> (p: PingPong)
        ensures
            p.total == total,
            p.done == 0,
    {
        PingPong { total, done: 0 }
    }

    /// The next pass to run, or `None` once all passes have run. A pass reads
    /// the buffer holding the current data and writes the other one.
    pub fn next_pass(&mut self) -> (pass: Option<Pass>)
        ensures
            final(self).total == old(self).total,
            old(self).done < old(self).total ==> {
                &&& pass == Some(Pass { read: slot_after(old(self).done as nat), write: slot_after((old(self).done + 1) as nat) })
                &&& final(self).done == old(self).done + 1
            },
            old(self).done >= old(self).total ==> pass.is_none() && *final(self) == *old(self),
    {
        if self.done < self.total {
            let read = if self.done % 2 == 0 { Slot::Primary } else { Slot::Secondary };
            let write = read.other();
            self.done = self.done + 1;
            Some(Pass { read, write })
        } else {
            None
        }
    }

    /// The buffer that holds the current data.
    pub fn result_slot(&self) -> (s: Slot)
        ensures
            s == slot_after(self.done as nat),
    {
        if self.done % 2 == 0 {
            Slot::Primary
        } else {
            Slot::Secondary
        }
    }
}

/// Each pass writes the buffer that the next pass reads, and after at least
/// one pass the current data is in the buffer the last pass wrote; with no
/// pass it is still in the initial buffer.
pub proof fn lemma_result_is_last_write(passes: nat)
    ensures
        slot_after(passes + 1) == flip(slot_after(passes)),
        passes == 0 ==> slot_after(passes) == Slot::Primary,
{
}

/// Two swaps bring the pair back to where it was.
pub proof fn lemma_flip_twice(s: Slot)
    ensures
        flip(flip(s)) == s,
{
}

/// The two buffers of a pair differ; the data starts in the primary buffer,
/// moves to the secondary after one pass, and returns every second pass.
pub proof fn lemma_slots_alternate(s: Slot, passes: nat)
    ensures
        flip(s) != s,
        slot_after(0) == Slot::Primary,
        slot_after(1) == Slot::Secondary,
        slot_after(passes + 2) == slot_after(passes),
        slot_after(passes + 1) != slot_after(passes),
{
}

} // verus!
