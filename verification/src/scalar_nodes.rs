//! The physical kernel launches that a scalar plan freezes.

use crate::arith::{
    checked_grid_product, checked_tile_grid, checked_u32, checked_u32_product, div_ceil_u32,
};
use crate::digest;
use crate::error::LaunchError;
use crate::kernel::{LaunchConfig, ResolvedKernelLaunch};
use crate::scalar_plan;
use crate::scalar_plan::{scalar_arguments_digest, ScalarDispatchPlan};
use crate::shape;
use crate::shape::{f32_base_is_vector_aligned, F32TriadOperands, F32TriadRequest};
use vstd::prelude::*;
use vstd::string::StringSliceAdditionalSpecFns;

verus! {

/// Dynamic shared memory of the 64x64 forward kernels.
pub const SCALAR_NN_M64N64_DYNAMIC_SHARED_BYTES: u32 = 17_408;

/// Dynamic shared memory of the 128x128 input-gradient kernel.
pub const SCALAR_BIG_NT_DYNAMIC_SHARED_BYTES: u32 = 33_376;

/// Dynamic shared memory of the 128x128 forward and weight-gradient kernels.
pub const SCALAR_BIG_DYNAMIC_SHARED_BYTES: u32 = 34_816;

/// Threads of the 16x16 weight-gradient kernel.
pub const SCALAR_TN_M16N16_THREADS: u32 = 64;

/// Dynamic shared memory of the 16x16 weight-gradient kernel.
pub const SCALAR_TN_M16N16_DYNAMIC_SHARED_BYTES: u32 = 4_096;

/// Threads of the 2x16 input-gradient kernel.
pub const SCALAR_NT_M2N16_THREADS: u32 = 64;

/// Dynamic shared memory of the 2x16 input-gradient kernel.
pub const SCALAR_NT_M2N16_DYNAMIC_SHARED_BYTES: u32 = 17_984;

/// One kernel of a plan: its symbol, output tile, pipeline and geometry.
#[derive(Clone, Copy, Debug, PartialEq, Eq)]
pub struct NodeGeometry {
    pub symbol: &'static str,
    pub tile: (u32, u32),
    pub bk: u32,
    pub stages: u8,
    pub config: LaunchConfig,
}

/// One frozen kernel launch of a plan.
#[derive(Clone, Copy, Debug, PartialEq, Eq)]
pub struct ScalarNodeSpec {
    pub symbol: &'static str,
    pub tile: (u32, u32),
    pub bk: u32,
    pub stages: u8,
    pub launch: ResolvedKernelLaunch,
}

/// A kernel over a one-dimensional grid.
#[verifier::allow_in_spec]
pub fn linear_node(
    symbol: &'static str,
    tile: (u32, u32),
    bk_stages: (u32, u8),
    grid: u32,
    block: u32,
    shared_mem_bytes: u32,
) -> NodeGeometry
    returns
        (NodeGeometry {
            symbol,
            tile,
            bk: bk_stages.0,
            stages: bk_stages.1,
            config: LaunchConfig::linear(grid, block, shared_mem_bytes),
        }),
{
    NodeGeometry {
        symbol,
        tile,
        bk: bk_stages.0,
        stages: bk_stages.1,
        config: LaunchConfig::linear(grid, block, shared_mem_bytes),
    }
}

/// A kernel over a grid with more than one extent.
#[verifier::allow_in_spec]
pub fn grid_node(
    symbol: &'static str,
    tile: (u32, u32),
    bk_stages: (u32, u8),
    grid_dim: (u32, u32, u32),
    block_dim: (u32, u32, u32),
    shared_mem_bytes: u32,
) -> NodeGeometry
    returns
        (NodeGeometry {
            symbol,
            tile,
            bk: bk_stages.0,
            stages: bk_stages.1,
            config: (LaunchConfig { grid_dim, block_dim, shared_mem_bytes }),
        }),
{
    NodeGeometry {
        symbol,
        tile,
        bk: bk_stages.0,
        stages: bk_stages.1,
        config: LaunchConfig { grid_dim, block_dim, shared_mem_bytes },
    }
}

/// The transpose of a `rows x columns` weight matrix in 32x32 tiles.
#[verifier::allow_in_spec]
pub fn transpose_node(columns: u32, rows: u32) -> NodeGeometry
    returns
        grid_node(
            "gemm_bi_transpose_f32_2d",
            (32, 32),
            (1, 1),
            (div_ceil_u32(columns, 32), div_ceil_u32(rows, 32), 1),
            (32, 32, 1),
            0,
        ),
{
    grid_node(
        "gemm_bi_transpose_f32_2d",
        (32, 32),
        (1, 1),
        (div_ceil_u32(columns, 32), div_ceil_u32(rows, 32), 1),
        (32, 32, 1),
        0,
    )
}

/// The reducer that folds split-K partials, one thread per output.
#[verifier::allow_in_spec]
pub fn splitk_reduce_node(outputs: u32) -> NodeGeometry
    returns
        linear_node("gemm_bi_splitk_reduce", (1, 1), (1, 1), div_ceil_u32(outputs, 256), 256, 0),
{
    linear_node("gemm_bi_splitk_reduce", (1, 1), (1, 1), div_ceil_u32(outputs, 256), 256, 0)
}

/// The reducer that folds split-M partials, one thread per output.
#[verifier::allow_in_spec]
pub fn splitm_reduce_node(outputs: u32) -> NodeGeometry
    returns
        linear_node("gemm_bi_splitm_reduce", (1, 1), (1, 1), div_ceil_u32(outputs, 256), 256, 0),
{
    linear_node("gemm_bi_splitm_reduce", (1, 1), (1, 1), div_ceil_u32(outputs, 256), 256, 0)
}

/// The dot products of one output column behind the aligned prefix.
#[verifier::allow_in_spec]
pub fn tail_column_node(rows: u32) -> NodeGeometry
    returns
        linear_node("gemm_bi_dx_col_gemv", (1, 1), (1, 1), div_ceil_u32(rows, 128), 128, 0),
{
    linear_node("gemm_bi_dx_col_gemv", (1, 1), (1, 1), div_ceil_u32(rows, 128), 128, 0)
}

/// Weight-gradient plans whose kernel depends on operand alignment.
pub open spec fn has_aligned_tn_symbol(plan: ScalarDispatchPlan) -> bool {
    plan is TnNarrowSplitM || plan is TnSplitM || plan is TnFinal
}

/// The kernel of a weight-gradient plan: vector loads where every pointer
/// that the kernel loads from allows them.
pub open spec fn tn_kernel_symbol(
    plan: ScalarDispatchPlan,
    operands: F32TriadOperands,
) -> &'static str {
    let inputs = shape::vector_aligned(operands.a) && shape::vector_aligned(operands.b);
    match plan {
        ScalarDispatchPlan::TnNarrowSplitM { .. } => if inputs {
            "gemm_bi_tn_narrow_splitm_partial_aligned"
        } else {
            "gemm_bi_tn_narrow_splitm_partial"
        },
        ScalarDispatchPlan::TnSplitM { .. } => if inputs {
            "gemm_bi_tn_splitm_partial_aligned"
        } else {
            "gemm_bi_tn_splitm_partial"
        },
        ScalarDispatchPlan::TnFinal { slim: true } => "gemm_bi_tn_slim",
        _ => if inputs && shape::vector_aligned(operands.output) {
            "gemm_bi_tn_aligned"
        } else {
            "gemm_bi_tn"
        },
    }
}

/// The kernel of a weight-gradient plan under the alignment of its operands.
pub fn scalar_tn_kernel_symbol(
    plan: ScalarDispatchPlan,
    operands: F32TriadOperands,
) -> (symbol: &'static str)
    requires
        has_aligned_tn_symbol(plan),
    ensures
        symbol == tn_kernel_symbol(plan, operands),
{
    let inputs = f32_base_is_vector_aligned(operands.a) && f32_base_is_vector_aligned(operands.b);
    match plan {
        ScalarDispatchPlan::TnNarrowSplitM { .. } => if inputs {
            "gemm_bi_tn_narrow_splitm_partial_aligned"
        } else {
            "gemm_bi_tn_narrow_splitm_partial"
        },
        ScalarDispatchPlan::TnSplitM { .. } => if inputs {
            "gemm_bi_tn_splitm_partial_aligned"
        } else {
            "gemm_bi_tn_splitm_partial"
        },
        ScalarDispatchPlan::TnFinal { slim: true } => "gemm_bi_tn_slim",
        _ => if inputs && f32_base_is_vector_aligned(operands.output) {
            "gemm_bi_tn_aligned"
        } else {
            "gemm_bi_tn"
        },
    }
}

/// The result of a plan with one kernel.
pub open spec fn one_node(
    grid: Result<u32, LaunchError>,
    node: spec_fn(u32) -> NodeGeometry,
) -> Result<Seq<NodeGeometry>, LaunchError> {
    match grid {
        Ok(grid) => Ok(seq![node(grid)]),
        Err(error) => Err(error),
    }
}

/// A partial kernel and the reducer behind it.
pub open spec fn partial_and_reduce(
    partial: Result<NodeGeometry, LaunchError>,
    outputs: Result<u32, LaunchError>,
    reduce: spec_fn(u32) -> NodeGeometry,
) -> Result<Seq<NodeGeometry>, LaunchError> {
    match partial {
        Err(error) => Err(error),
        Ok(partial) => match outputs {
            Err(error) => Err(error),
            Ok(outputs) => Ok(seq![partial, reduce(outputs)]),
        },
    }
}

/// The split-K partial kernel in 32-wide chunks over 32x64 output tiles.
pub open spec fn splitk32_partial(
    symbol: &'static str,
    rows: u32,
    columns: u32,
    chunks: u32,
) -> Result<NodeGeometry, LaunchError> {
    match checked_grid_product(div_ceil_u32(rows, 32), div_ceil_u32(columns, 64), chunks) {
        Ok(grid) => Ok(linear_node(symbol, (32, 64), (32, 1), grid, 128, 0)),
        Err(error) => Err(error),
    }
}

/// The split-K partial kernel over 128x64 output tiles.
pub open spec fn splitk_slim_partial(
    rows: u32,
    columns: u32,
    chunks: u32,
) -> Result<NodeGeometry, LaunchError> {
    match checked_tile_grid(rows, 128, columns, 64) {
        Ok(grid) => Ok(
            grid_node(
                "gemm_bi_nn_splitk_slim_partial",
                (128, 64),
                (32, 1),
                (grid, 1, chunks),
                (128, 1, 1),
                0,
            ),
        ),
        Err(error) => Err(error),
    }
}

/// A transpose, a partial kernel and the reducer behind them.
pub open spec fn transposed_splitk(
    transpose: NodeGeometry,
    partial: Result<NodeGeometry, LaunchError>,
    outputs: Result<u32, LaunchError>,
) -> Result<Seq<NodeGeometry>, LaunchError> {
    match partial {
        Err(error) => Err(error),
        Ok(partial) => match outputs {
            Err(error) => Err(error),
            Ok(outputs) => Ok(seq![transpose, partial, splitk_reduce_node(outputs)]),
        },
    }
}

/// The data-parallel kernel of a final bucket: one CTA per output tile.
pub open spec fn final_node(
    symbol: &'static str,
    slim: bool,
    big_shared: u32,
    rows: u32,
    columns: u32,
) -> Result<Seq<NodeGeometry>, LaunchError> {
    let tile_columns: u32 = if slim { 64 } else { 128 };
    match checked_tile_grid(rows, 128, columns, tile_columns) {
        Err(error) => Err(error),
        Ok(grid) => Ok(
            seq![
                linear_node(
                    symbol,
                    (128, tile_columns),
                    if slim { (32, 1) } else { (16, 2) },
                    grid,
                    if slim { 128 } else { 256 },
                    if slim { 0 } else { big_shared },
                ),
            ],
        ),
    }
}

/// The kernels of a plan on the extents `(m, k, n)`.
pub open spec fn node_geometry(
    operands: F32TriadOperands,
    plan: ScalarDispatchPlan,
    m: u32,
    k: u32,
    n: u32,
) -> Result<Seq<NodeGeometry>, LaunchError> {
    match plan {
        ScalarDispatchPlan::NnUltraThin => Ok(
            seq![
                grid_node(
                    "gemm_bi_nn_ultra_thin",
                    (1, 32),
                    (32, 1),
                    (div_ceil_u32(n, 32), m, 1),
                    (256, 1, 1),
                    (k * 4) as u32,
                ),
            ],
        ),
        ScalarDispatchPlan::NnNarrowSmall => one_node(
            checked_tile_grid(m, 16, n, 16),
            |grid: u32| linear_node("gemm_bi_nn_narrow_small", (16, 16), (16, 1), grid, 64, 0),
        ),
        ScalarDispatchPlan::NnNarrow => one_node(
            checked_tile_grid(m, 64, n, 32),
            |grid: u32| linear_node("gemm_bi_nn_narrow", (64, 32), (16, 1), grid, 128, 0),
        ),
        ScalarDispatchPlan::NnGemv => Ok(
            seq![linear_node("gemm_bi_nn_gemv", (4, 1), (32, 1), div_ceil_u32(m, 4), 128, 0)],
        ),
        ScalarDispatchPlan::NnSplitKThinTail { k_main, .. } => match checked_u32(
            k_main,
            "NN K main",
        ) {
            Err(error) => Err(error),
            Ok(k_main) => partial_and_reduce(
                splitk32_partial("gemm_bi_nn_splitk32_partial", m, n, k_main / 32),
                checked_u32_product(m, n, "NN reducer outputs"),
                |outputs: u32| splitk_reduce_node(outputs),
            ),
        },
        ScalarDispatchPlan::NnSplitKThin => partial_and_reduce(
            splitk32_partial("gemm_bi_nn_splitk32_partial", m, n, k / 32),
            checked_u32_product(m, n, "NN reducer outputs"),
            |outputs: u32| splitk_reduce_node(outputs),
        ),
        ScalarDispatchPlan::NnSplitKSlim { chunks } => partial_and_reduce(
            splitk_slim_partial(m, n, chunks),
            checked_u32_product(m, n, "NN slim reducer outputs"),
            |outputs: u32| splitk_reduce_node(outputs),
        ),
        ScalarDispatchPlan::NnM32N64SplitK32Qualified => Ok(
            seq![
                linear_node(
                    "gemm_bi_nn_splitk32_m32n64_exact_v1",
                    (32, 64),
                    (32, 1),
                    2_048,
                    128,
                    0,
                ),
                linear_node("gemm_bi_splitk_reduce", (1, 1), (1, 1), 64, 256, 0),
            ],
        ),
        ScalarDispatchPlan::NnM64N64Qualified => one_node(
            checked_tile_grid(m, 64, n, 64),
            |grid: u32|
                linear_node(
                    "gemm_bi_nn_m64n64_bk16_s2_v1",
                    (64, 64),
                    (16, 2),
                    grid,
                    128,
                    SCALAR_NN_M64N64_DYNAMIC_SHARED_BYTES,
                ),
        ),
        ScalarDispatchPlan::NnFinal { slim } => final_node(
            if slim { "gemm_bi_nn_slim" } else { "gemm_bi_nn" },
            slim,
            SCALAR_BIG_DYNAMIC_SHARED_BYTES,
            m,
            n,
        ),
        ScalarDispatchPlan::TnGemv => Ok(
            seq![linear_node("gemm_bi_tn_gemv", (4, 1), (32, 1), div_ceil_u32(k, 4), 128, 0)],
        ),
        ScalarDispatchPlan::TnNarrow => one_node(
            checked_tile_grid(k, 64, n, 32),
            |grid: u32| linear_node("gemm_bi_tn_narrow", (64, 32), (16, 1), grid, 128, 0),
        ),
        ScalarDispatchPlan::TnNarrowSplitM { chunks, .. } => partial_and_reduce(
            match checked_u32(chunks, "TN narrow split-M chunks") {
                Err(error) => Err(error),
                Ok(chunks) => Ok(
                    grid_node(
                        tn_kernel_symbol(plan, operands),
                        (64, 32),
                        (16, 1),
                        (div_ceil_u32(k, 64), div_ceil_u32(n, 32), chunks),
                        (128, 1, 1),
                        0,
                    ),
                ),
            },
            checked_u32_product(k, n, "TN narrow reducer outputs"),
            |outputs: u32| splitm_reduce_node(outputs),
        ),
        ScalarDispatchPlan::TnM16N16SplitM16Qualified => one_node(
            checked_tile_grid(k, 16, n, 16),
            |grid: u32|
                linear_node(
                    "gemm_bi_tn_m16n16_bk16_s2_splitm16_v1",
                    (16, 16),
                    (16, 2),
                    grid,
                    SCALAR_TN_M16N16_THREADS,
                    SCALAR_TN_M16N16_DYNAMIC_SHARED_BYTES,
                ),
        ),
        ScalarDispatchPlan::TnSplitM { chunks, .. } => partial_and_reduce(
            match checked_tile_grid(k, 128, n, 128) {
                Err(error) => Err(error),
                Ok(grid) => match checked_u32(chunks, "TN split-M chunks") {
                    Err(error) => Err(error),
                    Ok(chunks) => Ok(
                        grid_node(
                            tn_kernel_symbol(plan, operands),
                            (128, 128),
                            (16, 1),
                            (grid, 1, chunks),
                            (256, 1, 1),
                            0,
                        ),
                    ),
                },
            },
            checked_u32_product(k, n, "TN reducer outputs"),
            |outputs: u32| splitm_reduce_node(outputs),
        ),
        ScalarDispatchPlan::TnFinal { slim } => final_node(
            tn_kernel_symbol(plan, operands),
            slim,
            SCALAR_BIG_DYNAMIC_SHARED_BYTES,
            k,
            n,
        ),
        ScalarDispatchPlan::NtNarrow
        | ScalarDispatchPlan::NtSmallBatchWide
        | ScalarDispatchPlan::NtMidBatchWide => one_node(
            checked_tile_grid(m, 64, k, 32),
            |grid: u32| linear_node("gemm_bi_nt_narrow", (64, 32), (16, 1), grid, 128, 0),
        ),
        ScalarDispatchPlan::NtGemv => one_node(
            checked_u32_product(m, k, "NT GEMV outputs"),
            |outputs: u32|
                linear_node("gemm_bi_nt_gemv", (1, 1), (1, 1), div_ceil_u32(outputs, 256), 256, 0),
        ),
        ScalarDispatchPlan::NtM2N16SplitK32Qualified => Ok(
            seq![
                linear_node(
                    "gemm_bi_nt_m2n16_bk64_splitk32_v1",
                    (2, 16),
                    (64, 2),
                    256,
                    SCALAR_NT_M2N16_THREADS,
                    SCALAR_NT_M2N16_DYNAMIC_SHARED_BYTES,
                ),
            ],
        ),
        ScalarDispatchPlan::NtD768TransposeM64N64Qualified
        | ScalarDispatchPlan::NtD768OutTransposeM64N64Qualified
        | ScalarDispatchPlan::NtLargeDeepTransposeM64N64Qualified
        | ScalarDispatchPlan::NtPrismVectorQualified
        | ScalarDispatchPlan::NtD128OutTransposeM64N64Qualified => match checked_tile_grid(
            m,
            64,
            k,
            64,
        ) {
            Err(error) => Err(error),
            Ok(grid) => Ok(
                seq![
                    grid_node(
                        "gemm_bi_transpose_f32_32x16_d768_v1",
                        (32, 32),
                        (1, 1),
                        (div_ceil_u32(n, 32), div_ceil_u32(k, 32), 1),
                        (32, 16, 1),
                        0,
                    ),
                    linear_node(
                        if plan is NtPrismVectorQualified {
                            "gemm_bi_nn_prism_m64n64_bk16_s2_v1"
                        } else {
                            "gemm_bi_nn_m64n64_bk16_s2_v1"
                        },
                        (64, 64),
                        (16, 2),
                        grid,
                        128,
                        SCALAR_NN_M64N64_DYNAMIC_SHARED_BYTES,
                    ),
                ],
            ),
        },
        ScalarDispatchPlan::NtSplitKTail { k_main, k_tail } => match checked_u32(
            k_main,
            "NT K main",
        ) {
            Err(error) => Err(error),
            Ok(k_main) => match transposed_splitk(
                transpose_node(n, k_main),
                splitk32_partial("gemm_bi_nn_splitk32_partial", m, k_main, n / 32),
                checked_u32_product(m, k_main, "NT K-tail reducer outputs"),
            ) {
                Err(error) => Err(error),
                Ok(main) => Ok(main + Seq::new(k_tail as nat, |i: int| tail_column_node(m))),
            },
        },
        ScalarDispatchPlan::NtSplitKMain { n_main, .. } => match checked_u32(n_main, "NT N main") {
            Err(error) => Err(error),
            Ok(n_main) => transposed_splitk(
                transpose_node(n, k),
                splitk32_partial("gemm_bi_nn_splitk32_partial", m, k, n_main / 32),
                checked_u32_product(m, k, "NT reducer outputs"),
            ),
        },
        ScalarDispatchPlan::NtSplitKSlim { chunks } => transposed_splitk(
            transpose_node(n, k),
            splitk_slim_partial(m, k, chunks),
            checked_u32_product(m, k, "NT slim reducer outputs"),
        ),
        ScalarDispatchPlan::NtFinal { slim } => final_node(
            if slim { "gemm_bi_nt_slim" } else { "gemm_bi_nt" },
            slim,
            SCALAR_BIG_NT_DYNAMIC_SHARED_BYTES,
            m,
            k,
        ),
    }
}

/// Whether a computed node list is the expected one.
pub open spec fn geometry_matches(
    result: Result<Vec<NodeGeometry>, LaunchError>,
    expected: Result<Seq<NodeGeometry>, LaunchError>,
) -> bool {
    match result {
        Ok(nodes) => expected == Ok::<Seq<NodeGeometry>, LaunchError>(nodes@),
        Err(error) => expected == Err::<Seq<NodeGeometry>, LaunchError>(error),
    }
}

fn nodes1(first: NodeGeometry) -> (nodes: Vec<NodeGeometry>)
    ensures
        nodes@ == seq![first],
{
    let mut nodes: Vec<NodeGeometry> = Vec::new();
    nodes.push(first);
    assert(nodes@ =~= seq![first]);
    nodes
}

fn nodes2(first: NodeGeometry, second: NodeGeometry) -> (nodes: Vec<NodeGeometry>)
    ensures
        nodes@ == seq![first, second],
{
    let mut nodes = nodes1(first);
    nodes.push(second);
    assert(nodes@ =~= seq![first, second]);
    nodes
}

fn nodes3(first: NodeGeometry, second: NodeGeometry, third: NodeGeometry) -> (nodes: Vec<
    NodeGeometry,
>)
    ensures
        nodes@ == seq![first, second, third],
{
    let mut nodes = nodes2(first, second);
    nodes.push(third);
    assert(nodes@ =~= seq![first, second, third]);
    nodes
}

fn build_splitk32_partial(
    symbol: &'static str,
    rows: u32,
    columns: u32,
    chunks: u32,
) -> (result: Result<NodeGeometry, LaunchError>)
    ensures
        result == splitk32_partial(symbol, rows, columns, chunks),
{
    let grid: u32 = checked_grid_product(
        div_ceil_u32(rows, 32),
        div_ceil_u32(columns, 64),
        chunks,
    )?;
    Ok(linear_node(symbol, (32, 64), (32, 1), grid, 128, 0))
}

fn build_splitk_slim_partial(rows: u32, columns: u32, chunks: u32) -> (result: Result<
    NodeGeometry,
    LaunchError,
>)
    ensures
        result == splitk_slim_partial(rows, columns, chunks),
{
    let grid: u32 = checked_tile_grid(rows, 128, columns, 64)?;
    Ok(
        grid_node(
            "gemm_bi_nn_splitk_slim_partial",
            (128, 64),
            (32, 1),
            (grid, 1, chunks),
            (128, 1, 1),
            0,
        ),
    )
}

fn build_splitk(
    partial: Result<NodeGeometry, LaunchError>,
    outputs: Result<u32, LaunchError>,
) -> (result: Result<Vec<NodeGeometry>, LaunchError>)
    ensures
        geometry_matches(
            result,
            partial_and_reduce(partial, outputs, |outputs: u32| splitk_reduce_node(outputs)),
        ),
{
    let partial = partial?;
    let outputs: u32 = outputs?;
    Ok(nodes2(partial, splitk_reduce_node(outputs)))
}

fn build_splitm(
    partial: Result<NodeGeometry, LaunchError>,
    outputs: Result<u32, LaunchError>,
) -> (result: Result<Vec<NodeGeometry>, LaunchError>)
    ensures
        geometry_matches(
            result,
            partial_and_reduce(partial, outputs, |outputs: u32| splitm_reduce_node(outputs)),
        ),
{
    let partial = partial?;
    let outputs: u32 = outputs?;
    Ok(nodes2(partial, splitm_reduce_node(outputs)))
}

fn build_transposed_splitk(
    transpose: NodeGeometry,
    partial: Result<NodeGeometry, LaunchError>,
    outputs: Result<u32, LaunchError>,
) -> (result: Result<Vec<NodeGeometry>, LaunchError>)
    ensures
        geometry_matches(result, transposed_splitk(transpose, partial, outputs)),
{
    let partial = partial?;
    let outputs: u32 = outputs?;
    Ok(nodes3(transpose, partial, splitk_reduce_node(outputs)))
}

fn build_final(
    symbol: &'static str,
    slim: bool,
    big_shared: u32,
    rows: u32,
    columns: u32,
) -> (result: Result<Vec<NodeGeometry>, LaunchError>)
    ensures
        geometry_matches(result, final_node(symbol, slim, big_shared, rows, columns)),
{
    let tile_columns: u32 = if slim { 64 } else { 128 };
    let grid: u32 = checked_tile_grid(rows, 128, columns, tile_columns)?;
    let bk_stages: (u32, u8) = if slim { (32, 1) } else { (16, 2) };
    let threads: u32 = if slim { 128 } else { 256 };
    let shared: u32 = if slim { 0 } else { big_shared };
    Ok(nodes1(linear_node(symbol, (128, tile_columns), bk_stages, grid, threads, shared)))
}

fn build_tail_columns(main: Vec<NodeGeometry>, columns: usize, rows: u32) -> (nodes: Vec<
    NodeGeometry,
>)
    requires
        main@.len() + columns <= usize::MAX,
    ensures
        nodes@ == main@ + Seq::new(columns as nat, |i: int| tail_column_node(rows)),
{
    let ghost start = main@;
    let mut nodes = main;
    let mut done: usize = 0;
    assert(nodes@ =~= start + Seq::new(0, |i: int| tail_column_node(rows)));
    while done < columns
        invariant
            done <= columns,
            nodes@ == start + Seq::new(done as nat, |i: int| tail_column_node(rows)),
        decreases columns - done,
    {
        nodes.push(tail_column_node(rows));
        done = done + 1;
        assert(nodes@ =~= start + Seq::new(done as nat, |i: int| tail_column_node(rows)));
    }
    nodes
}

/// The kernels of a plan on the extents `(m, k, n)`.
pub fn scalar_node_geometry(
    operands: F32TriadOperands,
    plan: ScalarDispatchPlan,
    m: u32,
    k: u32,
    n: u32,
) -> (result: Result<Vec<NodeGeometry>, LaunchError>)
    requires
        plan is NnUltraThin ==> k * 4 <= u32::MAX,
        scalar_plan::node_count(plan) <= usize::MAX,
    ensures
        geometry_matches(result, node_geometry(operands, plan, m, k, n)),
{
    match plan {
        ScalarDispatchPlan::NnUltraThin => Ok(
            nodes1(
                grid_node(
                    "gemm_bi_nn_ultra_thin",
                    (1, 32),
                    (32, 1),
                    (div_ceil_u32(n, 32), m, 1),
                    (256, 1, 1),
                    k * 4,
                ),
            ),
        ),
        ScalarDispatchPlan::NnNarrowSmall => {
            let grid: u32 = checked_tile_grid(m, 16, n, 16)?;
            Ok(nodes1(linear_node("gemm_bi_nn_narrow_small", (16, 16), (16, 1), grid, 64, 0)))
        },
        ScalarDispatchPlan::NnNarrow => {
            let grid: u32 = checked_tile_grid(m, 64, n, 32)?;
            Ok(nodes1(linear_node("gemm_bi_nn_narrow", (64, 32), (16, 1), grid, 128, 0)))
        },
        ScalarDispatchPlan::NnGemv => Ok(
            nodes1(linear_node("gemm_bi_nn_gemv", (4, 1), (32, 1), div_ceil_u32(m, 4), 128, 0)),
        ),
        ScalarDispatchPlan::NnSplitKThinTail { k_main, .. } => {
            let k_main: u32 = checked_u32(k_main, "NN K main")?;
            build_splitk(
                build_splitk32_partial("gemm_bi_nn_splitk32_partial", m, n, k_main / 32),
                checked_u32_product(m, n, "NN reducer outputs"),
            )
        },
        ScalarDispatchPlan::NnSplitKThin => build_splitk(
            build_splitk32_partial("gemm_bi_nn_splitk32_partial", m, n, k / 32),
            checked_u32_product(m, n, "NN reducer outputs"),
        ),
        ScalarDispatchPlan::NnSplitKSlim { chunks } => build_splitk(
            build_splitk_slim_partial(m, n, chunks),
            checked_u32_product(m, n, "NN slim reducer outputs"),
        ),
        ScalarDispatchPlan::NnM32N64SplitK32Qualified => Ok(
            nodes2(
                linear_node(
                    "gemm_bi_nn_splitk32_m32n64_exact_v1",
                    (32, 64),
                    (32, 1),
                    2_048,
                    128,
                    0,
                ),
                linear_node("gemm_bi_splitk_reduce", (1, 1), (1, 1), 64, 256, 0),
            ),
        ),
        ScalarDispatchPlan::NnM64N64Qualified => {
            let grid: u32 = checked_tile_grid(m, 64, n, 64)?;
            Ok(
                nodes1(
                    linear_node(
                        "gemm_bi_nn_m64n64_bk16_s2_v1",
                        (64, 64),
                        (16, 2),
                        grid,
                        128,
                        SCALAR_NN_M64N64_DYNAMIC_SHARED_BYTES,
                    ),
                ),
            )
        },
        ScalarDispatchPlan::NnFinal { slim } => build_final(
            if slim { "gemm_bi_nn_slim" } else { "gemm_bi_nn" },
            slim,
            SCALAR_BIG_DYNAMIC_SHARED_BYTES,
            m,
            n,
        ),
        ScalarDispatchPlan::TnGemv => Ok(
            nodes1(linear_node("gemm_bi_tn_gemv", (4, 1), (32, 1), div_ceil_u32(k, 4), 128, 0)),
        ),
        ScalarDispatchPlan::TnNarrow => {
            let grid: u32 = checked_tile_grid(k, 64, n, 32)?;
            Ok(nodes1(linear_node("gemm_bi_tn_narrow", (64, 32), (16, 1), grid, 128, 0)))
        },
        ScalarDispatchPlan::TnNarrowSplitM { chunks, .. } => {
            let chunks: u32 = checked_u32(chunks, "TN narrow split-M chunks")?;
            let partial = grid_node(
                scalar_tn_kernel_symbol(plan, operands),
                (64, 32),
                (16, 1),
                (div_ceil_u32(k, 64), div_ceil_u32(n, 32), chunks),
                (128, 1, 1),
                0,
            );
            build_splitm(Ok(partial), checked_u32_product(k, n, "TN narrow reducer outputs"))
        },
        ScalarDispatchPlan::TnM16N16SplitM16Qualified => {
            let grid: u32 = checked_tile_grid(k, 16, n, 16)?;
            Ok(
                nodes1(
                    linear_node(
                        "gemm_bi_tn_m16n16_bk16_s2_splitm16_v1",
                        (16, 16),
                        (16, 2),
                        grid,
                        SCALAR_TN_M16N16_THREADS,
                        SCALAR_TN_M16N16_DYNAMIC_SHARED_BYTES,
                    ),
                ),
            )
        },
        ScalarDispatchPlan::TnSplitM { chunks, .. } => {
            let grid: u32 = checked_tile_grid(k, 128, n, 128)?;
            let chunks: u32 = checked_u32(chunks, "TN split-M chunks")?;
            let partial = grid_node(
                scalar_tn_kernel_symbol(plan, operands),
                (128, 128),
                (16, 1),
                (grid, 1, chunks),
                (256, 1, 1),
                0,
            );
            build_splitm(Ok(partial), checked_u32_product(k, n, "TN reducer outputs"))
        },
        ScalarDispatchPlan::TnFinal { slim } => build_final(
            scalar_tn_kernel_symbol(plan, operands),
            slim,
            SCALAR_BIG_DYNAMIC_SHARED_BYTES,
            k,
            n,
        ),
        ScalarDispatchPlan::NtNarrow
        | ScalarDispatchPlan::NtSmallBatchWide
        | ScalarDispatchPlan::NtMidBatchWide => {
            let grid: u32 = checked_tile_grid(m, 64, k, 32)?;
            Ok(nodes1(linear_node("gemm_bi_nt_narrow", (64, 32), (16, 1), grid, 128, 0)))
        },
        ScalarDispatchPlan::NtGemv => {
            let outputs: u32 = checked_u32_product(m, k, "NT GEMV outputs")?;
            Ok(
                nodes1(
                    linear_node(
                        "gemm_bi_nt_gemv",
                        (1, 1),
                        (1, 1),
                        div_ceil_u32(outputs, 256),
                        256,
                        0,
                    ),
                ),
            )
        },
        ScalarDispatchPlan::NtM2N16SplitK32Qualified => Ok(
            nodes1(
                linear_node(
                    "gemm_bi_nt_m2n16_bk64_splitk32_v1",
                    (2, 16),
                    (64, 2),
                    256,
                    SCALAR_NT_M2N16_THREADS,
                    SCALAR_NT_M2N16_DYNAMIC_SHARED_BYTES,
                ),
            ),
        ),
        ScalarDispatchPlan::NtD768TransposeM64N64Qualified
        | ScalarDispatchPlan::NtD768OutTransposeM64N64Qualified
        | ScalarDispatchPlan::NtLargeDeepTransposeM64N64Qualified
        | ScalarDispatchPlan::NtPrismVectorQualified
        | ScalarDispatchPlan::NtD128OutTransposeM64N64Qualified => {
            let symbol = if plan == ScalarDispatchPlan::NtPrismVectorQualified {
                "gemm_bi_nn_prism_m64n64_bk16_s2_v1"
            } else {
                "gemm_bi_nn_m64n64_bk16_s2_v1"
            };
            let grid: u32 = checked_tile_grid(m, 64, k, 64)?;
            Ok(
                nodes2(
                    grid_node(
                        "gemm_bi_transpose_f32_32x16_d768_v1",
                        (32, 32),
                        (1, 1),
                        (div_ceil_u32(n, 32), div_ceil_u32(k, 32), 1),
                        (32, 16, 1),
                        0,
                    ),
                    linear_node(
                        symbol,
                        (64, 64),
                        (16, 2),
                        grid,
                        128,
                        SCALAR_NN_M64N64_DYNAMIC_SHARED_BYTES,
                    ),
                ),
            )
        },
        ScalarDispatchPlan::NtSplitKTail { k_main, k_tail } => {
            let k_main: u32 = checked_u32(k_main, "NT K main")?;
            let main = build_transposed_splitk(
                transpose_node(n, k_main),
                build_splitk32_partial("gemm_bi_nn_splitk32_partial", m, k_main, n / 32),
                checked_u32_product(m, k_main, "NT K-tail reducer outputs"),
            )?;
            Ok(build_tail_columns(main, k_tail, m))
        },
        ScalarDispatchPlan::NtSplitKMain { n_main, .. } => {
            let n_main: u32 = checked_u32(n_main, "NT N main")?;
            build_transposed_splitk(
                transpose_node(n, k),
                build_splitk32_partial("gemm_bi_nn_splitk32_partial", m, k, n_main / 32),
                checked_u32_product(m, k, "NT reducer outputs"),
            )
        },
        ScalarDispatchPlan::NtSplitKSlim { chunks } => build_transposed_splitk(
            transpose_node(n, k),
            build_splitk_slim_partial(m, k, chunks),
            checked_u32_product(m, k, "NT slim reducer outputs"),
        ),
        ScalarDispatchPlan::NtFinal { slim } => build_final(
            if slim { "gemm_bi_nt_slim" } else { "gemm_bi_nt" },
            slim,
            SCALAR_BIG_NT_DYNAMIC_SHARED_BYTES,
            m,
            k,
        ),
    }
}

/// Every plan lists exactly as many kernels as its node count says.
pub proof fn node_geometry_len(
    operands: F32TriadOperands,
    plan: ScalarDispatchPlan,
    m: u32,
    k: u32,
    n: u32,
)
    ensures
        node_geometry(operands, plan, m, k, n) matches Ok(nodes) ==> nodes.len()
            == scalar_plan::node_count(plan),
{
}

/// The byte offsets of every launch of a plan are 64-bit values.
pub open spec fn offsets_fit(request: F32TriadRequest, plan: ScalarDispatchPlan) -> bool {
    let k = request.shape.k;
    let n = request.shape.n;
    match plan {
        ScalarDispatchPlan::NnSplitKThinTail { k_main, .. } => {
            &&& k_main * 4 <= u64::MAX
            &&& k_main * n * 4 <= u64::MAX
        },
        ScalarDispatchPlan::NtSplitKTail { k_main, k_tail } => k_tail > 0 ==> {
            &&& k_main + 2 + k_tail <= usize::MAX
            &&& (k_main + k_tail - 1) * n * 4 <= u64::MAX
        },
        ScalarDispatchPlan::NtSplitKMain { n_main, n_tail } => n_tail > 0 ==> {
            &&& n_main * 4 <= u64::MAX
            &&& n_main * k * 4 <= u64::MAX
        },
        _ => true,
    }
}

/// The sums and products that freezing a plan computes stay in range. Each
/// condition is owed only where nothing is refused before it.
pub open spec fn nodes_defined(
    request: F32TriadRequest,
    operands: F32TriadOperands,
    plan: ScalarDispatchPlan,
) -> bool {
    let m = request.shape.m;
    let k = request.shape.k;
    let n = request.shape.n;
    m <= u32::MAX && k <= u32::MAX && n <= u32::MAX ==> {
        &&& scalar_plan::node_count(plan) <= usize::MAX
        &&& plan is NnUltraThin ==> k * 4 <= u32::MAX
        &&& node_geometry(operands, plan, m as u32, k as u32, n as u32) is Ok ==> offsets_fit(
            request,
            plan,
        )
    }
}

fn product_fits(count: usize, extent: u32) -> (fits: bool)
    ensures
        fits == (count * extent * 4 <= u64::MAX),
{
    assert(count * extent <= 0xffff_ffff_ffff_ffff * 0xffff_ffff) by (nonlinear_arith)
        requires
            0 <= count <= 0xffff_ffff_ffff_ffff,
            0 <= extent <= 0xffff_ffff,
    ;
    (count as u128) * (extent as u128) * 4 <= u64::MAX as u128
}

fn offsets_are_addressable(plan: ScalarDispatchPlan, k: u32, n: u32) -> (fit: bool)
    ensures
        forall|request: F32TriadRequest|
            request.shape.k == k && request.shape.n == n ==> fit == #[trigger] offsets_fit(
                request,
                plan,
            ),
{
    match plan {
        ScalarDispatchPlan::NnSplitKThinTail { k_main, .. } => product_fits(k_main, 1)
            && product_fits(k_main, n),
        ScalarDispatchPlan::NtSplitKTail { k_main, k_tail } => {
            if k_tail == 0 {
                return true;
            }
            match k_main.checked_add(k_tail) {
                None => false,
                Some(columns) => columns <= usize::MAX - 2 && product_fits(columns - 1, n),
            }
        },
        ScalarDispatchPlan::NtSplitKMain { n_main, n_tail } => n_tail == 0 || product_fits(
            n_main,
            1,
        ) && product_fits(n_main, k),
        _ => true,
    }
}

/// Whether the sums and products that freezing a plan computes stay in
/// range.
pub fn scalar_nodes_defined(
    request: F32TriadRequest,
    operands: F32TriadOperands,
    plan: ScalarDispatchPlan,
) -> (defined: bool)
    ensures
        defined == nodes_defined(request, operands, plan),
{
    let shape = request.shape;
    let (m, k, n): (u32, u32, u32) = match (
        checked_u32(shape.m, "scalar M"),
        checked_u32(shape.k, "scalar K"),
        checked_u32(shape.n, "scalar N"),
    ) {
        (Ok(m), Ok(k), Ok(n)) => (m, k, n),
        _ => {
            return true;
        },
    };
    match plan {
        ScalarDispatchPlan::NtSplitKTail { k_tail, .. } => {
            if k_tail > usize::MAX - 3 {
                return false;
            }
        },
        ScalarDispatchPlan::NnUltraThin => {
            if k > u32::MAX / 4 {
                return false;
            }
        },
        _ => {},
    }
    match scalar_node_geometry(operands, plan, m, k, n) {
        Err(_) => true,
        Ok(_) => offsets_are_addressable(plan, k, n),
    }
}

/// A kernel of a plan with the digest of its arguments.
pub open spec fn frozen_node(
    request: F32TriadRequest,
    operands: F32TriadOperands,
    plan: ScalarDispatchPlan,
    index: int,
    geometry: NodeGeometry,
) -> ScalarNodeSpec {
    ScalarNodeSpec {
        symbol: geometry.symbol,
        tile: geometry.tile,
        bk: geometry.bk,
        stages: geometry.stages,
        launch: ResolvedKernelLaunch {
            grid_dim: geometry.config.grid_dim,
            block_dim: geometry.config.block_dim,
            shared_mem_bytes: geometry.config.shared_mem_bytes,
            arguments_digest: digest::sha256(
                scalar_plan::scalar_argument_transcript(
                    request,
                    operands,
                    plan,
                    index,
                    geometry.symbol.spec_bytes(),
                ),
            ),
        },
    }
}

/// The frozen launches of a plan, in order.
pub open spec fn physical_nodes(
    request: F32TriadRequest,
    operands: F32TriadOperands,
    plan: ScalarDispatchPlan,
) -> Result<Seq<ScalarNodeSpec>, LaunchError> {
    match checked_u32(request.shape.m, "scalar M") {
        Err(error) => Err(error),
        Ok(m) => match checked_u32(request.shape.k, "scalar K") {
            Err(error) => Err(error),
            Ok(k) => match checked_u32(request.shape.n, "scalar N") {
                Err(error) => Err(error),
                Ok(n) => match node_geometry(operands, plan, m, k, n) {
                    Err(error) => Err(error),
                    Ok(nodes) => Ok(
                        Seq::new(
                            nodes.len(),
                            |i: int| frozen_node(request, operands, plan, i, nodes[i]),
                        ),
                    ),
                },
            },
        },
    }
}

proof fn frozen_layouts_fit(
    request: F32TriadRequest,
    operands: F32TriadOperands,
    plan: ScalarDispatchPlan,
    m: u32,
    k: u32,
    n: u32,
    index: int,
)
    requires
        nodes_defined(request, operands, plan),
        request.shape.m == m,
        request.shape.k == k,
        request.shape.n == n,
        node_geometry(operands, plan, m, k, n) is Ok,
        0 <= index < scalar_plan::node_count(plan),
    ensures
        scalar_plan::layout_fits(request, plan, index),
{
    match plan {
        ScalarDispatchPlan::NnSplitKThinTail { k_main, .. } => {
            assert(k_main * n <= k_main * n * 4) by (nonlinear_arith)
                requires
                    k_main >= 0,
                    n >= 0,
            ;
        },
        ScalarDispatchPlan::NtSplitKTail { k_main, k_tail } => {
            if index >= 3 {
                let column = k_main + index - 3;
                let bound = k_main + k_tail - 1;
                assert(column * n * 4 <= bound * n * 4) by (nonlinear_arith)
                    requires
                        0 <= column <= bound,
                        n >= 0,
                ;
                assert(column * n <= column * n * 4) by (nonlinear_arith)
                    requires
                        column >= 0,
                        n >= 0,
                ;
            }
        },
        ScalarDispatchPlan::NtSplitKMain { n_main, .. } => {
            assert(n_main * k <= n_main * k * 4) by (nonlinear_arith)
                requires
                    n_main >= 0,
                    k >= 0,
            ;
        },
        _ => {},
    }
}

/// Freezes the launches of a plan: kernel, tile, pipeline, geometry and the
/// digest of the arguments of each.
pub fn scalar_physical_nodes(
    request: F32TriadRequest,
    operands: F32TriadOperands,
    plan: ScalarDispatchPlan,
) -> (result: Result<Vec<ScalarNodeSpec>, LaunchError>)
    requires
        nodes_defined(request, operands, plan),
    ensures
        match result {
            Ok(nodes) => physical_nodes(request, operands, plan) == Ok::<
                Seq<ScalarNodeSpec>,
                LaunchError,
            >(nodes@),
            Err(error) => physical_nodes(request, operands, plan) == Err::<
                Seq<ScalarNodeSpec>,
                LaunchError,
            >(error),
        },
{
    let m: u32 = checked_u32(request.shape.m, "scalar M")?;
    let k: u32 = checked_u32(request.shape.k, "scalar K")?;
    let n: u32 = checked_u32(request.shape.n, "scalar N")?;
    let geometry = scalar_node_geometry(operands, plan, m, k, n)?;
    proof {
        node_geometry_len(operands, plan, m, k, n);
    }
    let mut nodes: Vec<ScalarNodeSpec> = Vec::new();
    let mut index: usize = 0;
    while index < geometry.len()
        invariant
            index <= geometry@.len(),
            nodes_defined(request, operands, plan),
            request.shape.m == m,
            request.shape.k == k,
            request.shape.n == n,
            node_geometry(operands, plan, m, k, n) == Ok::<Seq<NodeGeometry>, LaunchError>(
                geometry@,
            ),
            geometry@.len() == scalar_plan::node_count(plan),
            nodes@ == Seq::new(
                index as nat,
                |i: int| frozen_node(request, operands, plan, i, geometry@[i]),
            ),
        decreases geometry@.len() - index,
    {
        proof {
            frozen_layouts_fit(request, operands, plan, m, k, n, index as int);
        }
        let node = geometry[index];
        nodes.push(
            ScalarNodeSpec {
                symbol: node.symbol,
                tile: node.tile,
                bk: node.bk,
                stages: node.stages,
                launch: ResolvedKernelLaunch {
                    grid_dim: node.config.grid_dim,
                    block_dim: node.config.block_dim,
                    shared_mem_bytes: node.config.shared_mem_bytes,
                    arguments_digest: scalar_arguments_digest(
                        request,
                        operands,
                        plan,
                        index,
                        node.symbol,
                    ),
                },
            },
        );
        index = index + 1;
        assert(nodes@ =~= Seq::new(
            index as nat,
            |i: int| frozen_node(request, operands, plan, i, geometry@[i]),
        ));
    }
    Ok(nodes)
}

} // verus!
