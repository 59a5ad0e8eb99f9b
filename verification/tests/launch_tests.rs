use c2m_core::launch::{
    block_dispatch, blocks_for, byte_len, capped_dispatch, plane_dispatch, row_dispatch, simd_row_dispatch, Dispatch,
    DispatchMode, GridSize,
};

fn line(n: u64) -> GridSize {
    GridSize { width: n, height: 1, depth: 1 }
}

fn threads(grid: u64, group: u64) -> Dispatch {
    Dispatch { mode: DispatchMode::Threads, grid: line(grid), group: line(group) }
}

#[test]
fn row_dispatch_small_grid_is_one_group() {
    assert_eq!(row_dispatch(5, 512), threads(5, 5));
    assert_eq!(row_dispatch(0, 512), threads(1, 1));
    assert_eq!(row_dispatch(511, 512), threads(511, 511));
}

#[test]
fn row_dispatch_large_grid_uses_full_groups() {
    assert_eq!(row_dispatch(512, 512), threads(512, 512));
    assert_eq!(row_dispatch(1000, 256), threads(1000, 256));
}

#[test]
fn simd_row_dispatch_gives_each_row_a_simd_group() {
    assert_eq!(simd_row_dispatch(0), threads(32, 32));
    assert_eq!(simd_row_dispatch(5), threads(160, 160));
    assert_eq!(simd_row_dispatch(16), threads(512, 512));
    assert_eq!(simd_row_dispatch(100), threads(3200, 512));
}

#[test]
fn capped_dispatch_values() {
    assert_eq!(capped_dispatch(3, 256), threads(3, 3));
    assert_eq!(capped_dispatch(1000, 256), threads(1000, 256));
    assert_eq!(capped_dispatch(0, 256), threads(0, 1));
}

#[test]
fn plane_dispatch_values() {
    let d = plane_dispatch(5, 40, 16);
    assert_eq!(d.mode, DispatchMode::Threads);
    assert_eq!(d.grid, GridSize { width: 5, height: 40, depth: 1 });
    assert_eq!(d.group, GridSize { width: 5, height: 16, depth: 1 });
    let z = plane_dispatch(0, 0, 16);
    assert_eq!(z.group, GridSize { width: 1, height: 1, depth: 1 });
}

#[test]
fn block_dispatch_counts_groups() {
    let d = block_dispatch(3, 512);
    assert_eq!(d.mode, DispatchMode::Threadgroups);
    assert_eq!(d.grid, line(3));
    assert_eq!(d.group, line(512));
}

#[test]
fn blocks_cover_exactly() {
    assert_eq!(blocks_for(0, 512), 0);
    assert_eq!(blocks_for(5, 512), 1);
    assert_eq!(blocks_for(512, 512), 1);
    assert_eq!(blocks_for(513, 512), 2);
    assert_eq!(blocks_for(1025, 512), 3);
}

#[test]
fn byte_len_is_four_per_element() {
    assert_eq!(byte_len(0), 0);
    assert_eq!(byte_len(10), 40);
}
