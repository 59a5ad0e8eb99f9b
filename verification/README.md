# c2m_core

Metal compute primitives for Apple Silicon (graph analytics, sparse and dense
linear algebra, scans, N-body, GCN), exposed to Python.

- `src/` is the verified library (Verus): everything the host decides before
  and between GPU passes. `graph` (node/edge buffers with per-node CSR ranges),
  `launch` (grid and threadgroup sizes), `pingpong` (double-buffered pass
  schedules), and one module per algorithm with its buffer sizes, launches,
  input checks and iteration control (`pagerank`, `spmv`, `delta_stepping`,
  `connected_components`, `gnn`, `primitives`, `nbody`, `accelerate_ops`).
- `app/` is the Python extension: it owns the Metal device, creates buffers,
  encodes the planned launches, reads results back, and converts `f32` values
  to and from the bit patterns the library stores. The Metal shader sources
  are expected under `app/kernels/`.
- `tests/` exercises the library on concrete inputs.
