//! Launch geometry for compute kernels: how many threads a kernel is
//! dispatched over and how they are grouped.
use vstd::prelude::*;

verus! {

/// Bytes per element of every GPU buffer used here (`u32` and `f32`).
pub const ELEMENT_BYTES: usize = 4;

/// Lanes in one SIMD group on the target GPUs.
pub const SIMD_WIDTH: u32 = 32;

/// A three-dimensional extent, as the GPU API takes it.
#[derive(Clone, Copy, Debug, PartialEq, Eq, Structural)]
pub struct GridSize {
    pub width: u64,
    pub height: u64,
    pub depth: u64,
}

/// How the grid of a dispatch is counted.
#[derive(Clone, Copy, Debug, PartialEq, Eq, Structural)]
pub enum DispatchMode {
    /// The grid counts threads (`dispatch_threads`).
    Threads,
    /// The grid counts threadgroups (`dispatch_thread_groups`).
    Threadgroups,
}

/// A kernel launch: the grid and the size of one threadgroup.
#[derive(Clone, Copy, Debug, PartialEq, Eq, Structural)]
pub struct Dispatch {
    pub mode: DispatchMode,
    pub grid: GridSize,
    pub group: GridSize,
}

/// A one-dimensional extent of `n`.
pub open spec fn line(n: u64) -> GridSize {
    GridSize { width: n, height: 1, depth: 1 }
}

/// `n`, but at least 1.
pub open spec fn at_least_one(n: u64) -> u64 {
    if n == 0 { 1 } else { n }
}

/// `min(cap, n)`, but at least 1.
pub open spec fn capped(n: u64, cap: u64) -> u64 {
    at_least_one(if cap < n { cap } else { n })
}

/// One thread per item, in groups of `cap`; a grid smaller than one group is
/// launched as a single group of exactly its size (at least one thread).
pub open spec fn row_launch(items: u64, cap: u64) -> Dispatch {
    if items < cap {
        Dispatch {
            mode: DispatchMode::Threads,
            grid: line(at_least_one(items)),
            group: line(at_least_one(items)),
        }
    } else {
        Dispatch { mode: DispatchMode::Threads, grid: line(items), group: line(cap) }
    }
}

/// One SIMD group of 32 threads per row, in groups of up to 512 threads; a
/// grid smaller than one group is launched as a single group of its size
/// (at least one SIMD group).
pub open spec fn simd_row_launch(rows: u32) -> Dispatch {
    let total = (rows * 32) as u64;
    if total < 512 {
        let w: u64 = if total < 32 { 32 } else { total };
        Dispatch { mode: DispatchMode::Threads, grid: line(w), group: line(w) }
    } else {
        Dispatch { mode: DispatchMode::Threads, grid: line(total), group: line(512) }
    }
}

/// One thread per item, in groups of `min(cap, items)` threads (at least 1).
pub open spec fn capped_launch(items: u64, cap: u64) -> Dispatch {
    Dispatch { mode: DispatchMode::Threads, grid: line(items), group: line(capped(items, cap)) }
}

/// One thread per cell of a `width` x `height` plane, in tiles of at most
/// `cap` x `cap` (each side at least 1).
pub open spec fn plane_launch(width: u32, height: u32, cap: u64) -> Dispatch {
    Dispatch {
        mode: DispatchMode::Threads,
        grid: GridSize { width: width as u64, height: height as u64, depth: 1 },
        group: GridSize {
            width: capped(width as u64, cap),
            height: capped(height as u64, cap),
            depth: 1,
        },
    }
}

/// `groups` threadgroups of `group` threads each.
pub open spec fn block_launch(groups: u64, group: u64) -> Dispatch {
    Dispatch { mode: DispatchMode::Threadgroups, grid: line(groups), group: line(group) }
}

/// A one-dimensional extent of `n`.
pub fn linear(n: u64) -> (g: GridSize)
    ensures
        g == line(n),
{
    GridSize { width: n, height: 1, depth: 1 }
}

fn at_least_one_exec(n: u64) -> (r: u64)
    ensures
        r == at_least_one(n),
{
    if n == 0 {
        1
    } else {
        n
    }
}

fn capped_exec(n: u64, cap: u64) -> (r: u64)
    ensures
        r == capped(n, cap),
{
    at_least_one_exec(if cap < n { cap } else { n })
}

/// Size in bytes of a buffer of `count` 32-bit elements.
pub fn byte_len(count: usize) -> (bytes: u64)
    requires
        count * 4 <= usize::MAX,
    ensures
        bytes == count * 4,
{
    (count * ELEMENT_BYTES) as u64
}

/// Launch with one thread per item, grouped by `cap`.
pub fn row_dispatch(items: u64, cap: u64) -> (d: Dispatch)
    requires
        cap >= 1,
    ensures
        d == row_launch(items, cap),
        d.grid.width >= items,
        1 <= d.group.width <= cap,
        d.group.width <= d.grid.width,
{
    if items < cap {
        let w = at_least_one_exec(items);
        Dispatch { mode: DispatchMode::Threads, grid: linear(w), group: linear(w) }
    } else {
        Dispatch { mode: DispatchMode::Threads, grid: linear(items), group: linear(cap) }
    }
}

/// Launch with one SIMD group per row.
pub fn simd_row_dispatch(rows: u32) -> (d: Dispatch)
    requires
        rows * 32 <= u32::MAX,
    ensures
        d == simd_row_launch(rows),
        d.grid.width >= rows * 32,
        d.group.width % 32 == 0,
        32 <= d.group.width <= 512,
        d.group.width <= d.grid.width,
{
    let total = rows * SIMD_WIDTH;
    if total < 512 {
        let w: u64 = if total < 32 { 32 } else { total as u64 };
        assert(w % 32 == 0) by {
            assert(total == rows * 32);
        }
        Dispatch { mode: DispatchMode::Threads, grid: linear(w), group: linear(w) }
    } else {
        Dispatch { mode: DispatchMode::Threads, grid: linear(total as u64), group: linear(512) }
    }
}

/// Launch with one thread per item, in groups of at most `cap`.
pub fn capped_dispatch(items: u64, cap: u64) -> (d: Dispatch)
    requires
        cap >= 1,
    ensures
        d == capped_launch(items, cap),
        d.grid.width == items,
        1 <= d.group.width <= cap,
        items >= 1 ==> d.group.width <= d.grid.width,
{
    Dispatch {
        mode: DispatchMode::Threads,
        grid: linear(items),
        group: linear(capped_exec(items, cap)),
    }
}

/// Launch over a `width` x `height` plane in tiles of at most `cap` x `cap`.
pub fn plane_dispatch(width: u32, height: u32, cap: u64) -> (d: Dispatch)
    requires
        cap >= 1,
    ensures
        d == plane_launch(width, height, cap),
        d.grid.width == width && d.grid.height == height,
        1 <= d.group.width <= cap && 1 <= d.group.height <= cap,
{
    Dispatch {
        mode: DispatchMode::Threads,
        grid: GridSize { width: width as u64, height: height as u64, depth: 1 },
        group: GridSize {
            width: capped_exec(width as u64, cap),
            height: capped_exec(height as u64, cap),
            depth: 1,
        },
    }
}

/// Launch of `groups` threadgroups of `group` threads.
pub fn block_dispatch(groups: u64, group: u64) -> (d: Dispatch)
    ensures
        d == block_launch(groups, group),
{
    Dispatch { mode: DispatchMode::Threadgroups, grid: linear(groups), group: linear(group) }
}

/// The number of groups of `group` items needed to hold `n` items:
/// the fewest that cover them all.
pub fn blocks_for(n: u64, group: u64) -> (blocks: u64)
    requires
        group >= 1,
        n + group <= u64::MAX,
    ensures
        blocks == (n + group - 1) / (group as int),
        blocks * group >= n,
        blocks * group < n + group,
{
    let b = (n + group - 1) / group;
    proof {
        lemma_ceil_div(n as int, group as int);
    }
    b
}

proof fn lemma_ceil_div(n: int, g: int)
    requires
        n >= 0,
        g >= 1,
    ensures
        ((n + g - 1) / g) * g >= n,
        ((n + g - 1) / g) * g < n + g,
{
    let q = (n + g - 1) / g;
    let r = (n + g - 1) % g;
    assert(q * g + r == n + g - 1 && 0 <= r < g) by (nonlinear_arith)
        requires
            q == (n + g - 1) / g,
            r == (n + g - 1) % g,
            g >= 1,
    ;
}

/// One thread per item: the grid has `max(items, 1)` threads and the
/// threadgroup `min(max(items, 1), cap)`.
pub proof fn lemma_row_launch_shape(items: u64, cap: u64)
    requires
        cap >= 1,
    ensures
        row_launch(items, cap).mode == DispatchMode::Threads,
        row_launch(items, cap).grid.width == (if items == 0 { 1 } else { items }),
        row_launch(items, cap).group.width == (if items == 0 { 1 } else if items < cap { items } else { cap }),
        row_launch(items, cap).grid.height == 1 && row_launch(items, cap).grid.depth == 1,
        row_launch(items, cap).group.height == 1 && row_launch(items, cap).group.depth == 1,
{
}

/// One SIMD group per row: the grid has `max(32 * rows, 32)` threads and the
/// threadgroup `min(grid, 512)`.
pub proof fn lemma_simd_row_launch_shape(rows: u32)
    requires
        rows * 32 <= u32::MAX,
    ensures
        simd_row_launch(rows).mode == DispatchMode::Threads,
        simd_row_launch(rows).grid.width == (if rows == 0 { 32 } else { rows * 32 }),
        simd_row_launch(rows).group.width == (if rows == 0 { 32 } else if rows * 32 < 512 { rows * 32 } else { 512 }),
        simd_row_launch(rows).grid.height == 1 && simd_row_launch(rows).grid.depth == 1,
        simd_row_launch(rows).group.height == 1 && simd_row_launch(rows).group.depth == 1,
{
}

/// One thread per item in groups of `max(min(items, cap), 1)`.
pub proof fn lemma_capped_launch_shape(items: u64, cap: u64)
    ensures
        capped_launch(items, cap).mode == DispatchMode::Threads,
        capped_launch(items, cap).grid.width == items,
        capped_launch(items, cap).group.width == (if items == 0 || cap == 0 { 1 } else if items < cap { items } else { cap }),
        capped_launch(items, cap).grid.height == 1 && capped_launch(items, cap).grid.depth == 1,
        capped_launch(items, cap).group.height == 1 && capped_launch(items, cap).group.depth == 1,
{
}

/// One thread per plane cell, in tiles whose sides are each `max(min(side, cap), 1)`.
pub proof fn lemma_plane_launch_shape(width: u32, height: u32, cap: u64)
    requires
        cap >= 1,
    ensures
        plane_launch(width, height, cap).mode == DispatchMode::Threads,
        plane_launch(width, height, cap).grid == (GridSize { width: width as u64, height: height as u64, depth: 1 }),
        plane_launch(width, height, cap).group.width == (if width == 0 { 1 } else if (width as u64) < cap { width as u64 } else { cap }),
        plane_launch(width, height, cap).group.height == (if height == 0 { 1 } else if (height as u64) < cap { height as u64 } else { cap }),
        plane_launch(width, height, cap).group.depth == 1,
{
}

/// `groups` threadgroups of `group` threads.
pub proof fn lemma_block_launch_shape(groups: u64, group: u64)
    ensures
        block_launch(groups, group).mode == DispatchMode::Threadgroups,
        block_launch(groups, group).grid == (GridSize { width: groups, height: 1, depth: 1 }),
        block_launch(groups, group).group == (GridSize { width: group, height: 1, depth: 1 }),
{
}

} // verus!
