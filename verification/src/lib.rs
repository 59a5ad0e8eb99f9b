//! Host-side logic for Metal compute kernels: graph buffers in CSR layout,
//! launch geometry, iteration control and input validation.
pub mod graph;
pub mod launch;
pub mod pingpong;
pub mod pagerank;
pub mod spmv;
pub mod delta_stepping;
pub mod connected_components;
pub mod gnn;
pub mod primitives;
pub mod nbody;
pub mod accelerate_ops;
