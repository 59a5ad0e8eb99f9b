use c2m_core::accelerate_ops::{plan_sgemm, GemmCall, GemmError, CBLAS_NO_TRANS, CBLAS_ROW_MAJOR};
use c2m_core::gnn::{check_layers, plan_forward, plan_norm_coeffs, Activation, GnnError};
use c2m_core::launch::{DispatchMode, GridSize};
use c2m_core::nbody::plan_nbody;
use c2m_core::pagerank::{plan_pagerank, rows_of, RowKernel};
use c2m_core::pingpong::PingPong;
use c2m_core::primitives::{compacted_len, plan_compact, plan_scan};
use c2m_core::spmv::plan_spmv;

#[test]
fn rows_of_row_pointer() {
    assert_eq!(rows_of(6), 5);
    assert_eq!(rows_of(1), 0);
}

#[test]
fn pagerank_plan_scalar() {
    let p = plan_pagerank(10, 10, 6, 50, false);
    assert_eq!(p.num_nodes, 5);
    assert_eq!(p.kernel, RowKernel::Scalar);
    assert_eq!((p.values_bytes, p.col_indices_bytes, p.row_ptr_bytes, p.rank_bytes), (40, 40, 24, 20));
    assert_eq!(p.dispatch.grid.width, 5);
    assert_eq!(p.dispatch.group.width, 5);
    assert_eq!(p.passes, PingPong { total: 50, done: 0 });
    assert_eq!(p.result_len, 5);
}

#[test]
fn pagerank_plan_vector() {
    let p = plan_pagerank(10, 10, 6, 1, true);
    assert_eq!(p.kernel, RowKernel::Vector);
    assert_eq!(p.dispatch.grid.width, 160);
    assert_eq!(p.dispatch.group.width, 160);
    let big = plan_pagerank(0, 0, 1001, 1, true);
    assert_eq!(big.dispatch.grid.width, 32000);
    assert_eq!(big.dispatch.group.width, 512);
}

#[test]
fn spmv_plan() {
    let p = plan_spmv(10, 10, 6, 5, false);
    assert_eq!(p.num_rows, 5);
    assert_eq!(p.kernel, RowKernel::Scalar);
    assert_eq!((p.x_bytes, p.y_bytes), (20, 20));
    assert_eq!(p.result_len, 5);
    let big = plan_spmv(0, 0, 701, 0, false);
    assert_eq!(big.dispatch.grid.width, 700);
    assert_eq!(big.dispatch.group.width, 512);
}

#[test]
fn layer_check_accepts_consistent_shapes() {
    assert_eq!(check_layers(2, 2, 3), Ok(2));
}

#[test]
fn layer_check_rejects_inconsistent_shapes() {
    assert_eq!(check_layers(0, 0, 1), Err(GnnError::InconsistentLayers));
    assert_eq!(check_layers(2, 1, 3), Err(GnnError::InconsistentLayers));
    assert_eq!(check_layers(2, 2, 2), Err(GnnError::InconsistentLayers));
    assert_eq!(check_layers(2, 2, 0), Err(GnnError::InconsistentLayers));
}

#[test]
fn forward_plan_two_layers() {
    let dims = vec![8u32, 32, 3];
    let w = vec![8usize * 32, 32 * 3];
    let b = vec![32usize, 3];
    let p = plan_forward(100, &dims, &w, &b, 101, 400, 400, 800).unwrap();
    assert_eq!(p.layers.len(), 2);
    let l0 = p.layers[0];
    assert_eq!((l0.f_in, l0.f_out, l0.activation), (8, 32, Activation::Relu));
    assert_eq!((l0.aggregate_bytes, l0.output_bytes), (3200, 12800));
    assert_eq!((l0.weight_bytes, l0.bias_bytes), (1024, 128));
    assert_eq!(l0.aggregate_dispatch.grid, GridSize { width: 100, height: 8, depth: 1 });
    assert_eq!(l0.aggregate_dispatch.group, GridSize { width: 16, height: 8, depth: 1 });
    assert_eq!(l0.transform_dispatch.group, GridSize { width: 16, height: 16, depth: 1 });
    let l1 = p.layers[1];
    assert_eq!((l1.f_in, l1.f_out, l1.activation), (32, 3, Activation::Identity));
    assert_eq!(p.classes, 3);
    assert_eq!(p.softmax_dispatch.mode, DispatchMode::Threadgroups);
    assert_eq!(p.softmax_dispatch.grid.width, 100);
    assert_eq!(p.softmax_dispatch.group.width, 32);
    assert_eq!(p.result_len, 300);
    assert_eq!((p.row_ptr_bytes, p.col_idx_bytes, p.edge_vals_bytes, p.features_bytes), (404, 1600, 1600, 3200));
}

#[test]
fn forward_plan_rejects_missing_bias() {
    let r = plan_forward(10, &vec![4, 2], &vec![8], &vec![], 11, 0, 0, 40);
    assert!(matches!(r, Err(GnnError::InconsistentLayers)));
}

#[test]
fn norm_plan() {
    let p = plan_norm_coeffs(6, 10);
    assert_eq!(p.num_nodes, 5);
    assert_eq!((p.row_ptr_bytes, p.col_idx_bytes, p.edge_vals_bytes), (24, 40, 40));
    assert_eq!(p.dispatch.grid.width, 5);
    assert_eq!(p.dispatch.group.width, 5);
    assert_eq!(p.result_len, 10);
}

#[test]
fn scan_plan_small_input() {
    let p = plan_scan(5);
    assert_eq!(p.n, 5);
    assert_eq!(p.num_blocks, 1);
    assert_eq!(p.data_bytes, 20);
    assert_eq!(p.block_state_bytes, 4);
    assert_eq!(p.kernel_n, 5);
    assert_eq!(p.dispatch.mode, DispatchMode::Threadgroups);
    assert_eq!(p.dispatch.grid.width, 1);
    assert_eq!(p.dispatch.group.width, 512);
    assert_eq!(p.result_len, 5);
}

#[test]
fn scan_plan_several_blocks() {
    let p = plan_scan(1025);
    assert_eq!(p.num_blocks, 3);
    assert_eq!(p.block_state_bytes, 12);
}

#[test]
fn compact_plan() {
    let p = plan_compact(6);
    assert_eq!(p.scan.num_blocks, 1);
    assert_eq!(p.flag_bytes, 24);
    assert_eq!(p.element_dispatch.grid.width, 6);
    assert_eq!(p.element_dispatch.group.width, 6);
    let e = plan_compact(0);
    assert_eq!(e.scan.num_blocks, 0);
    assert_eq!(e.element_dispatch.grid.width, 1);
}

#[test]
fn nbody_plan() {
    let p = plan_nbody(4 * 300, 10);
    assert_eq!(p.num_bodies, 300);
    assert_eq!(p.state_bytes, 4800);
    assert_eq!(p.dispatch.grid.width, 300);
    assert_eq!(p.dispatch.group.width, 256);
    assert_eq!(p.passes, PingPong { total: 10, done: 0 });
    assert_eq!(p.result_len, 1200);
    let small = plan_nbody(10, 1);
    assert_eq!(small.num_bodies, 2);
    assert_eq!(small.dispatch.group.width, 2);
}

#[test]
fn sgemm_accepts_fitting_buffers() {
    let r = plan_sgemm(2, 3, 4, 8, 12, 6);
    assert_eq!(
        r,
        Ok(GemmCall {
            order: CBLAS_ROW_MAJOR,
            trans_a: CBLAS_NO_TRANS,
            trans_b: CBLAS_NO_TRANS,
            m: 2,
            n: 3,
            k: 4,
            lda: 4,
            ldb: 3,
            ldc: 3,
        })
    );
    assert_eq!((CBLAS_ROW_MAJOR, CBLAS_NO_TRANS), (101, 111));
}

#[test]
fn sgemm_rejects_short_buffers() {
    assert_eq!(plan_sgemm(2, 3, 4, 7, 12, 6), Err(GemmError::InvalidDimensions));
    assert_eq!(plan_sgemm(2, 3, 4, 8, 11, 6), Err(GemmError::InvalidDimensions));
    assert_eq!(plan_sgemm(2, 3, 4, 8, 12, 5), Err(GemmError::InvalidDimensions));
}

#[test]
fn compacted_len_is_bounded_by_input() {
    assert_eq!(compacted_len(3, 6), 3);
    assert_eq!(compacted_len(6, 6), 6);
    assert_eq!(compacted_len(9, 6), 6);
    assert_eq!(compacted_len(0, 0), 0);
}
