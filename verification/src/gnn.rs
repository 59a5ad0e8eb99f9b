//! Graph convolutional network (GCN) forward pass: shape validation, per-layer
//! buffer sizes and launches, and the normalization-coefficient pass.
//!
//! Layer `i` maps features of width `feat_dims[i]` to width `feat_dims[i + 1]`:
//! aggregation over the normalized adjacency, then a linear transform, with
//! ReLU on every layer but the last; a softmax over the final layer follows.
use vstd::prelude::*;
use crate::launch::{byte_len, block_dispatch, block_launch, capped_dispatch, capped_launch,
    plane_dispatch, plane_launch, Dispatch};
use crate::pagerank::{csr_rows, rows_of};

verus! {

/// Threads per threadgroup for the normalization-coefficient kernel.
pub const NORM_GROUP: u64 = 256;

/// Side of the thread tiles of the aggregation and transform kernels.
pub const TILE_SIDE: u64 = 16;

/// Threads per threadgroup of the softmax kernel (one SIMD group per row).
pub const SOFTMAX_GROUP: u64 = 32;

/// Why a forward pass was refused.
#[derive(Clone, Copy, Debug, PartialEq, Eq, Structural)]
pub enum GnnError {
    /// The layer weights, layer biases and feature dimensions disagree: there
    /// must be at least one layer, one bias per weight matrix, and one more
    /// feature dimension than layers.
    InconsistentLayers,
}

/// Activation applied after a layer's linear transform.
#[derive(Clone, Copy, Debug, PartialEq, Eq, Structural)]
pub enum Activation {
    Relu,
    Identity,
}

/// The shapes of a network with `num_weights` weight matrices, `num_biases`
/// bias vectors and `num_dims` feature dimensions are consistent.
pub open spec fn layers_consistent(num_weights: usize, num_biases: usize, num_dims: usize) -> bool {
    num_weights != 0 && num_weights == num_biases && num_dims == num_weights + 1
}

/// Checks the layer shapes; on success returns the number of layers.
pub fn check_layers(num_weights: usize, num_biases: usize, num_dims: usize) -> (r: Result<usize, GnnError>)
    ensures
        layers_consistent(num_weights, num_biases, num_dims) <==> r.is_ok(),
        r.is_ok() ==> r == Ok::<usize, GnnError>(num_weights),
        num_weights >= 1 && num_biases == num_weights && num_dims == num_weights + 1
            ==> r == Ok::<usize, GnnError>(num_weights),
        num_weights == 0 || num_biases != num_weights || num_dims != num_weights + 1
            ==> r == Err::<usize, GnnError>(GnnError::InconsistentLayers),
        r.is_err() ==> r == Err::<usize, GnnError>(GnnError::InconsistentLayers),
{
    if num_weights == 0 || num_weights != num_biases || num_dims == 0 || num_dims - 1 != num_weights {
        Err(GnnError::InconsistentLayers)
    } else {
        Ok(num_weights)
    }
}

/// Everything the host decides for one layer.
#[derive(Clone, Copy, Debug, PartialEq, Eq, Structural)]
pub struct LayerPlan {
    pub f_in: u32,
    pub f_out: u32,
    pub activation: Activation,
    /// Size of the aggregated features `[N x f_in]`.
    pub aggregate_bytes: u64,
    /// Size of the layer output `[N x f_out]`.
    pub output_bytes: u64,
    pub weight_bytes: u64,
    pub bias_bytes: u64,
    /// Launch of the aggregation kernel over `N x f_in`.
    pub aggregate_dispatch: Dispatch,
    /// Launch of the transform kernel over `N x f_out`.
    pub transform_dispatch: Dispatch,
}

/// The plan of layer `i` of `num_layers`.
pub open spec fn layer_spec(
    num_nodes: u32,
    dims: Seq<u32>,
    weight_lens: Seq<usize>,
    bias_lens: Seq<usize>,
    i: int,
    num_layers: int,
) -> LayerPlan {
    LayerPlan {
        f_in: dims[i],
        f_out: dims[i + 1],
        activation: if i == num_layers - 1 { Activation::Identity } else { Activation::Relu },
        aggregate_bytes: (num_nodes * dims[i] * 4) as u64,
        output_bytes: (num_nodes * dims[i + 1] * 4) as u64,
        weight_bytes: (weight_lens[i] * 4) as u64,
        bias_bytes: (bias_lens[i] * 4) as u64,
        aggregate_dispatch: plane_launch(num_nodes, dims[i], TILE_SIDE),
        transform_dispatch: plane_launch(num_nodes, dims[i + 1], TILE_SIDE),
    }
}

/// Everything the host decides before encoding a forward pass.
pub struct ForwardPlan {
    pub row_ptr_bytes: u64,
    pub col_idx_bytes: u64,
    pub edge_vals_bytes: u64,
    pub features_bytes: u64,
    /// One plan per layer, in order.
    pub layers: Vec<LayerPlan>,
    /// Width of the final layer (the number of classes).
    pub classes: u32,
    /// Launch of the softmax: one threadgroup per node.
    pub softmax_dispatch: Dispatch,
    /// Length of the flattened `[N x classes]` output.
    pub result_len: usize,
}

/// The sizes the forward pass computes fit the machine.
pub open spec fn forward_fits(
    num_nodes: u32,
    dims: Seq<u32>,
    weight_lens: Seq<usize>,
    bias_lens: Seq<usize>,
    row_ptr_len: usize,
    col_idx_len: usize,
    edge_vals_len: usize,
    features_len: usize,
) -> bool {
    &&& forall|i: int| 0 <= i < dims.len() ==> num_nodes * #[trigger] dims[i] * 4 <= usize::MAX
    &&& forall|i: int| 0 <= i < weight_lens.len() ==> #[trigger] weight_lens[i] * 4 <= usize::MAX
    &&& forall|i: int| 0 <= i < bias_lens.len() ==> #[trigger] bias_lens[i] * 4 <= usize::MAX
    &&& row_ptr_len * 4 <= usize::MAX
    &&& col_idx_len * 4 <= usize::MAX
    &&& edge_vals_len * 4 <= usize::MAX
    &&& features_len * 4 <= usize::MAX
}

/// Plans a forward pass of a network whose weight matrices and bias vectors
/// have the given lengths; refuses inconsistent layer shapes.
pub fn plan_forward(
    num_nodes: u32,
    feat_dims: &Vec<u32>,
    weight_lens: &Vec<usize>,
    bias_lens: &Vec<usize>,
    row_ptr_len: usize,
    col_idx_len: usize,
    edge_vals_len: usize,
    features_len: usize,
) -> (r: Result<ForwardPlan, GnnError>)
    requires
        layers_consistent(weight_lens.len(), bias_lens.len(), feat_dims.len()) ==> forward_fits(
            num_nodes,
            feat_dims@,
            weight_lens@,
            bias_lens@,
            row_ptr_len,
            col_idx_len,
            edge_vals_len,
            features_len,
        ),
    ensures
        r.is_ok() <==> layers_consistent(weight_lens.len(), bias_lens.len(), feat_dims.len()),
        r matches Err(e) ==> e == GnnError::InconsistentLayers,
        r matches Ok(plan) ==> {
            let n = weight_lens.len() as int;
            &&& plan.row_ptr_bytes == row_ptr_len * 4
            &&& plan.col_idx_bytes == col_idx_len * 4
            &&& plan.edge_vals_bytes == edge_vals_len * 4
            &&& plan.features_bytes == features_len * 4
            &&& plan.layers@.len() == n
            &&& forall|i: int| 0 <= i < n ==> #[trigger] plan.layers@[i] == layer_spec(
                num_nodes,
                feat_dims@,
                weight_lens@,
                bias_lens@,
                i,
                n,
            )
            &&& forall|i: int| 0 <= i < n ==> ((#[trigger] plan.layers@[i]).activation == Activation::Identity
                <==> i == n - 1)
            &&& forall|i: int| 0 <= i < n - 1 ==> (#[trigger] plan.layers@[i]).activation == Activation::Relu
            &&& forall|i: int| 0 <= i < n - 1 ==> (#[trigger] plan.layers@[i]).f_out == plan.layers@[i + 1].f_in
            &&& plan.layers@[0].f_in == feat_dims@[0]
            &&& plan.layers@[n - 1].f_out == plan.classes
            &&& plan.classes == feat_dims@[n]
            &&& plan.softmax_dispatch == block_launch(num_nodes as u64, SOFTMAX_GROUP)
            &&& plan.result_len == num_nodes * feat_dims@[n]
        },
{
    let num_layers = match check_layers(weight_lens.len(), bias_lens.len(), feat_dims.len()) {
        Ok(n) => n,
        Err(e) => {
            return Err(e);
        },
    };
    let nn = num_nodes as usize;
    let mut layers: Vec<LayerPlan> = Vec::new();
    let mut layer: usize = 0;
    while layer < num_layers
        invariant
            num_layers == weight_lens.len(),
            layers_consistent(weight_lens.len(), bias_lens.len(), feat_dims.len()),
            forward_fits(num_nodes, feat_dims@, weight_lens@, bias_lens@, row_ptr_len, col_idx_len, edge_vals_len, features_len),
            nn == num_nodes,
            layer <= num_layers,
            layers@.len() == layer,
            forall|i: int| 0 <= i < layer ==> #[trigger] layers@[i] == layer_spec(
                num_nodes,
                feat_dims@,
                weight_lens@,
                bias_lens@,
                i,
                num_layers as int,
            ),
        decreases num_layers - layer,
    {
        let f_in = feat_dims[layer];
        let f_out = feat_dims[layer + 1];
        assert(num_nodes * feat_dims@[layer as int] * 4 <= usize::MAX);
        assert(num_nodes * feat_dims@[layer + 1] * 4 <= usize::MAX);
        assert(weight_lens@[layer as int] * 4 <= usize::MAX);
        assert(bias_lens@[layer as int] * 4 <= usize::MAX);
        assert(nn * (f_in as usize) <= usize::MAX) by (nonlinear_arith)
            requires
                nn * f_in * 4 <= usize::MAX,
        ;
        assert(nn * (f_out as usize) <= usize::MAX) by (nonlinear_arith)
            requires
                nn * f_out * 4 <= usize::MAX,
        ;
        let plan = LayerPlan {
            f_in,
            f_out,
            activation: if layer == num_layers - 1 { Activation::Identity } else { Activation::Relu },
            aggregate_bytes: byte_len(nn * f_in as usize),
            output_bytes: byte_len(nn * f_out as usize),
            weight_bytes: byte_len(weight_lens[layer]),
            bias_bytes: byte_len(bias_lens[layer]),
            aggregate_dispatch: plane_dispatch(num_nodes, f_in, TILE_SIDE),
            transform_dispatch: plane_dispatch(num_nodes, f_out, TILE_SIDE),
        };
        layers.push(plan);
        layer = layer + 1;
    }
    let classes = feat_dims[num_layers];
    assert(num_nodes * feat_dims@[num_layers as int] * 4 <= usize::MAX);
    assert(nn * (classes as usize) <= usize::MAX) by (nonlinear_arith)
        requires
            nn * classes * 4 <= usize::MAX,
    ;
    Ok(
        ForwardPlan {
            row_ptr_bytes: byte_len(row_ptr_len),
            col_idx_bytes: byte_len(col_idx_len),
            edge_vals_bytes: byte_len(edge_vals_len),
            features_bytes: byte_len(features_len),
            layers,
            classes,
            softmax_dispatch: block_dispatch(num_nodes as u64, SOFTMAX_GROUP),
            result_len: nn * classes as usize,
        },
    )
}

/// Everything the host decides before computing normalization coefficients.
pub struct NormPlan {
    pub num_nodes: u32,
    pub row_ptr_bytes: u64,
    pub col_idx_bytes: u64,
    /// Size of the coefficient buffer: one value per edge.
    pub edge_vals_bytes: u64,
    /// One thread per node.
    pub dispatch: Dispatch,
    /// Length of the coefficient vector handed back: one per edge.
    pub result_len: usize,
}

/// Plans the computation of the symmetric normalization coefficients
/// `1/sqrt(deg(src) * deg(dst))` of a CSR graph with `row_ptr_len - 1` nodes
/// and `num_edges` edges.
pub fn plan_norm_coeffs(row_ptr_len: usize, num_edges: usize) -> (plan: NormPlan)
    requires
        row_ptr_len >= 1,
        row_ptr_len * 4 <= usize::MAX,
        num_edges * 4 <= usize::MAX,
    ensures
        plan.num_nodes == csr_rows(row_ptr_len),
        plan.row_ptr_bytes == row_ptr_len * 4,
        plan.col_idx_bytes == num_edges * 4,
        plan.edge_vals_bytes == num_edges * 4,
        plan.dispatch == capped_launch(plan.num_nodes as u64, NORM_GROUP),
        plan.result_len == num_edges,
{
    let num_nodes = rows_of(row_ptr_len);
    let edge_bytes = byte_len(num_edges);
    NormPlan {
        num_nodes,
        row_ptr_bytes: byte_len(row_ptr_len),
        col_idx_bytes: edge_bytes,
        edge_vals_bytes: edge_bytes,
        dispatch: capped_dispatch(num_nodes as u64, NORM_GROUP),
        result_len: num_edges,
    }
}

/// A network with at least one layer, one bias per weight matrix and one
/// more feature dimension than layers is accepted.
pub proof fn lemma_consistent_shapes_accepted(num_layers: usize)
    requires
        1 <= num_layers < usize::MAX,
    ensures
        layers_consistent(num_layers, num_layers, (num_layers + 1) as usize),
{
}

/// No layers, a bias count that differs from the weight count, or a
/// dimension count other than layers + 1 is refused.
pub proof fn lemma_inconsistent_shapes_refused(num_weights: usize, num_biases: usize, num_dims: usize)
    requires
        num_weights == 0 || num_biases != num_weights || num_dims != num_weights + 1,
    ensures
        !layers_consistent(num_weights, num_biases, num_dims),
{
}

/// Every hidden layer applies ReLU and only the last applies none; each
/// layer reads the width the previous one writes, starting at the input width.
pub proof fn lemma_relu_on_hidden_layers_only(
    num_nodes: u32,
    dims: Seq<u32>,
    weight_lens: Seq<usize>,
    bias_lens: Seq<usize>,
    i: int,
    num_layers: int,
)
    requires
        0 <= i < num_layers,
    ensures
        layer_spec(num_nodes, dims, weight_lens, bias_lens, i, num_layers).activation == Activation::Identity
            <==> i == num_layers - 1,
        layer_spec(num_nodes, dims, weight_lens, bias_lens, i, num_layers).activation == Activation::Relu
            <==> i < num_layers - 1,
        layer_spec(num_nodes, dims, weight_lens, bias_lens, i, num_layers).f_in == dims[i],
        layer_spec(num_nodes, dims, weight_lens, bias_lens, i, num_layers).f_out == dims[i + 1],
        i + 1 < num_layers ==> layer_spec(num_nodes, dims, weight_lens, bias_lens, i, num_layers).f_out
            == layer_spec(num_nodes, dims, weight_lens, bias_lens, i + 1, num_layers).f_in,
{
}

/// Layer `i` aggregates into `N x dims[i]` values and writes `N x dims[i+1]`,
/// launching one thread per such value, and its weight and bias buffers
/// hold their matrices.
pub proof fn lemma_layer_sizes(
    num_nodes: u32,
    dims: Seq<u32>,
    weight_lens: Seq<usize>,
    bias_lens: Seq<usize>,
    i: int,
    num_layers: int,
)
    requires
        0 <= i < num_layers,
        i + 1 < dims.len(),
        num_nodes * dims[i] * 4 <= u64::MAX,
        num_nodes * dims[i + 1] * 4 <= u64::MAX,
        weight_lens[i] * 4 <= u64::MAX,
        bias_lens[i] * 4 <= u64::MAX,
    ensures
        ({
            let l = layer_spec(num_nodes, dims, weight_lens, bias_lens, i, num_layers);
            &&& l.aggregate_bytes == num_nodes * dims[i] * 4
            &&& l.output_bytes == num_nodes * dims[i + 1] * 4
            &&& l.weight_bytes == weight_lens[i] * 4
            &&& l.bias_bytes == bias_lens[i] * 4
            &&& l.aggregate_dispatch.grid == (crate::launch::GridSize { width: num_nodes as u64, height: dims[i] as u64, depth: 1 })
            &&& l.transform_dispatch.grid == (crate::launch::GridSize { width: num_nodes as u64, height: dims[i + 1] as u64, depth: 1 })
        }),
{
}

} // verus!
