//! Weight gradient `dW[K,N] += X^T[K,M] @ dY[M,N]` on the scalar kernels.

use crate::arith::{checked_i32, checked_tile_grid, div_ceil_u32};
use crate::error::LaunchError;
use crate::kernel;
use crate::kernel::{KernelArg, KernelLaunch, LaunchConfig, LaunchProgram, LaunchStep, Program};
use crate::scalar_forward;
use crate::scalar_launch;
use crate::scalar_launch::{launch, reduce_config, PreparedScalar, ScalarWorkspace};
use crate::scalar_nodes;
use crate::scalar_nodes::{
    scalar_tn_kernel_symbol, SCALAR_BIG_DYNAMIC_SHARED_BYTES,
    SCALAR_TN_M16N16_DYNAMIC_SHARED_BYTES, SCALAR_TN_M16N16_THREADS,
};
use crate::scalar_plan::ScalarDispatchPlan;
use crate::shape::{
    F32TriadOperands, F32TriadRequest, F32TriadShape, GemmDims, ResolvedGemmOp, F32_ONE_BITS,
};
use vstd::prelude::*;

verus! {

/// The checked extents and packed request of a gradient product.
pub open spec fn backward_request(op: ResolvedGemmOp, dims: (usize, usize, usize)) -> Result<
    (GemmDims, F32TriadRequest),
    LaunchError,
> {
    let row = if op is Tn { dims.1 } else { dims.2 };
    if op is Nn {
        Err(LaunchError::Rejected("backward scalar launch plan requires TN or NT"))
    } else {
        match GemmDims::resolve(dims, row, row) {
            Err(error) => Err(error),
            Ok(checked) => Ok(
                (checked, (F32TriadRequest { op, shape: F32TriadShape::contiguous(op, dims) })),
            ),
        }
    }
}

/// The checked extents and packed request of a gradient product.
pub fn scalar_backward_request(op: ResolvedGemmOp, dims: (usize, usize, usize)) -> (result: Result<
    (GemmDims, F32TriadRequest),
    LaunchError,
>)
    ensures
        result == backward_request(op, dims),
{
    let checked = match op {
        ResolvedGemmOp::Tn => GemmDims::tn(dims)?,
        ResolvedGemmOp::Nt => GemmDims::nt(dims)?,
        ResolvedGemmOp::Nn => {
            return Err(LaunchError::Rejected("backward scalar launch plan requires TN or NT"));
        },
    };
    Ok((checked, F32TriadRequest { op, shape: F32TriadShape::contiguous(op, dims) }))
}

/// The checked extents, packed request and dispatched plan of a gradient
/// product. The extents are checked before the dispatcher's answer counts.
pub fn scalar_backward_launch_plan(
    op: ResolvedGemmOp,
    dims: (usize, usize, usize),
    dispatched: Result<ScalarDispatchPlan, LaunchError>,
) -> (result: Result<(GemmDims, F32TriadRequest, ScalarDispatchPlan), LaunchError>)
    ensures
        result == (match backward_request(op, dims) {
            Err(error) => Err::<(GemmDims, F32TriadRequest, ScalarDispatchPlan), LaunchError>(
                error,
            ),
            Ok((checked, request)) => match dispatched {
                Err(error) => Err::<(GemmDims, F32TriadRequest, ScalarDispatchPlan), LaunchError>(
                    error,
                ),
                Ok(plan) => Ok::<(GemmDims, F32TriadRequest, ScalarDispatchPlan), LaunchError>(
                    (checked, request, plan),
                ),
            },
        }),
{
    let (checked, request) = scalar_backward_request(op, dims)?;
    let plan = dispatched?;
    Ok((checked, request, plan))
}

/// A weight-gradient product with everything that its launches depend on.
#[derive(Clone, Copy, Debug, PartialEq, Eq, Structural)]
pub struct DwCall {
    pub dims: GemmDims,
    pub operands: F32TriadOperands,
    pub split: u64,
}

/// The arguments of the weight-gradient kernels.
pub open spec fn tn_args(call: DwCall) -> Seq<KernelArg> {
    seq![
        KernelArg::Pointer(call.operands.output),
        KernelArg::Pointer(call.operands.a),
        KernelArg::Pointer(call.operands.b),
        KernelArg::Float(call.operands.alpha),
        KernelArg::Int(call.dims.m as i32),
        KernelArg::Int(call.dims.k as i32),
        KernelArg::Int(call.dims.n as i32),
    ]
}

fn build_tn_args(call: DwCall) -> (args: Vec<KernelArg>)
    requires
        call.dims.wf(),
    ensures
        args@ == tn_args(call),
{
    let args = vec![
        KernelArg::Pointer(call.operands.output),
        KernelArg::Pointer(call.operands.a),
        KernelArg::Pointer(call.operands.b),
        KernelArg::Float(call.operands.alpha),
        KernelArg::Int(call.dims.m as i32),
        KernelArg::Int(call.dims.k as i32),
        KernelArg::Int(call.dims.n as i32),
    ];
    assert(args@ =~= tn_args(call));
    args
}

/// A weight-gradient kernel with one CTA per output tile.
pub open spec fn tn_step(
    call: DwCall,
    symbol: &'static str,
    grid: Result<u32, LaunchError>,
    block: u32,
    shared_mem_bytes: u32,
) -> Result<LaunchStep, LaunchError> {
    match grid {
        Err(error) => Err(error),
        Ok(grid) => Ok(
            scalar_launch::step(
                symbol,
                LaunchConfig::linear(grid, block, shared_mem_bytes),
                tn_args(call),
            ),
        ),
    }
}

fn build_tn_step(
    call: DwCall,
    symbol: &'static str,
    grid: Result<u32, LaunchError>,
    block: u32,
    shared_mem_bytes: u32,
) -> (result: Result<KernelLaunch, LaunchError>)
    requires
        call.dims.wf(),
    ensures
        kernel::step_of(result) == tn_step(call, symbol, grid, block, shared_mem_bytes),
{
    let grid: u32 = grid?;
    Ok(launch(symbol, LaunchConfig::linear(grid, block, shared_mem_bytes), build_tn_args(call)))
}

/// The GEMV kernel of a single output column.
pub open spec fn tn_gemv_step(call: DwCall) -> LaunchStep {
    scalar_launch::step(
        "gemm_bi_tn_gemv",
        LaunchConfig::linear(div_ceil_u32(call.dims.k as u32, 4), 128, 0),
        seq![
            KernelArg::Pointer(call.operands.output),
            KernelArg::Pointer(call.operands.a),
            KernelArg::Pointer(call.operands.b),
            KernelArg::Float(call.operands.alpha),
            KernelArg::Int(call.dims.m as i32),
            KernelArg::Int(call.dims.k as i32),
            KernelArg::Int(call.dims.k as i32),
            KernelArg::Int(1),
        ],
    )
}

fn build_tn_gemv_step(call: DwCall) -> (built: KernelLaunch)
    requires
        call.dims.wf(),
    ensures
        built@ == tn_gemv_step(call),
{
    let args = vec![
        KernelArg::Pointer(call.operands.output),
        KernelArg::Pointer(call.operands.a),
        KernelArg::Pointer(call.operands.b),
        KernelArg::Float(call.operands.alpha),
        KernelArg::Int(call.dims.m as i32),
        KernelArg::Int(call.dims.k as i32),
        KernelArg::Int(call.dims.k as i32),
        KernelArg::Int(1),
    ];
    let built = launch(
        "gemm_bi_tn_gemv",
        LaunchConfig::linear(div_ceil_u32(call.dims.k as u32, 4), 128, 0),
        args,
    );
    assert(built@.args =~= tn_gemv_step(call).args);
    built
}

/// The grid of the M partitions of a weight gradient.
pub open spec fn splitm_grid(call: DwCall, plan: ScalarDispatchPlan) -> Result<
    (u32, u32),
    LaunchError,
> {
    let k = call.dims.k as u32;
    let n = call.dims.n as u32;
    if plan is TnNarrowSplitM {
        Ok((div_ceil_u32(k, 64), div_ceil_u32(n, 32)))
    } else {
        match checked_tile_grid(k, 128, n, 128) {
            Err(error) => Err(error),
            Ok(grid) => Ok((grid, 1)),
        }
    }
}

/// The partial kernel over the M partitions of a weight gradient.
pub open spec fn splitm_partial_step(
    call: DwCall,
    plan: ScalarDispatchPlan,
    m_chunk: usize,
    chunks: usize,
    chunk_name: &'static str,
    partition_name: &'static str,
) -> Result<LaunchStep, LaunchError> {
    match splitm_grid(call, plan) {
        Err(error) => Err(error),
        Ok(grid) => match checked_i32(m_chunk, chunk_name) {
            Err(error) => Err(error),
            Ok(m_chunk) => match checked_i32(chunks, partition_name) {
                Err(error) => Err(error),
                Ok(_) => Ok(
                    scalar_launch::step(
                        scalar_nodes::tn_kernel_symbol(plan, call.operands),
                        (LaunchConfig {
                            grid_dim: (grid.0, grid.1, chunks as u32),
                            block_dim: (if plan is TnNarrowSplitM { 128 } else { 256 }, 1, 1),
                            shared_mem_bytes: 0,
                        }),
                        seq![
                            KernelArg::Pointer(call.split),
                            KernelArg::Pointer(call.operands.a),
                            KernelArg::Pointer(call.operands.b),
                            KernelArg::Int(call.dims.m as i32),
                            KernelArg::Int(call.dims.k as i32),
                            KernelArg::Int(call.dims.n as i32),
                            KernelArg::Int(m_chunk),
                        ],
                    ),
                ),
            },
        },
    }
}

fn build_splitm_partial_step(
    call: DwCall,
    plan: ScalarDispatchPlan,
    m_chunk: usize,
    chunks: usize,
    chunk_name: &'static str,
    partition_name: &'static str,
) -> (result: Result<KernelLaunch, LaunchError>)
    requires
        call.dims.wf(),
        plan is TnNarrowSplitM || plan is TnSplitM,
    ensures
        kernel::step_of(result) == splitm_partial_step(
            call,
            plan,
            m_chunk,
            chunks,
            chunk_name,
            partition_name,
        ),
        result is Ok ==> chunks <= i32::MAX,
{
    let k: u32 = call.dims.k as u32;
    let n: u32 = call.dims.n as u32;
    let (grid_x, grid_y, block): (u32, u32, u32) = match plan {
        ScalarDispatchPlan::TnNarrowSplitM { .. } => (div_ceil_u32(k, 64), div_ceil_u32(n, 32), 128),
        _ => (checked_tile_grid(k, 128, n, 128)?, 1, 256),
    };
    let m_chunk: i32 = checked_i32(m_chunk, chunk_name)?;
    let partitions: i32 = checked_i32(chunks, partition_name)?;
    let config = LaunchConfig {
        grid_dim: (grid_x, grid_y, partitions as u32),
        block_dim: (block, 1, 1),
        shared_mem_bytes: 0,
    };
    let args = vec![
        KernelArg::Pointer(call.split),
        KernelArg::Pointer(call.operands.a),
        KernelArg::Pointer(call.operands.b),
        KernelArg::Int(call.dims.m as i32),
        KernelArg::Int(call.dims.k as i32),
        KernelArg::Int(call.dims.n as i32),
        KernelArg::Int(m_chunk),
    ];
    let built = launch(scalar_tn_kernel_symbol(plan, call.operands), config, args);
    proof {
        assert(built@.args =~= seq![
            KernelArg::Pointer(call.split),
            KernelArg::Pointer(call.operands.a),
            KernelArg::Pointer(call.operands.b),
            KernelArg::Int(call.dims.m as i32),
            KernelArg::Int(call.dims.k as i32),
            KernelArg::Int(call.dims.n as i32),
            KernelArg::Int(m_chunk),
        ]);
    }
    Ok(built)
}

/// The reducer that accumulates the M partitions into the weight gradient.
pub open spec fn splitm_reduce_step(call: DwCall, chunks: usize) -> LaunchStep {
    scalar_launch::step(
        "gemm_bi_splitm_reduce",
        reduce_config((call.dims.k * call.dims.n) as u32),
        seq![
            KernelArg::Pointer(call.operands.output),
            KernelArg::Pointer(call.split),
            KernelArg::Float(call.operands.alpha),
            KernelArg::Int(call.dims.k as i32),
            KernelArg::Int(call.dims.n as i32),
            KernelArg::Int(chunks as i32),
        ],
    )
}

fn build_splitm_reduce_step(call: DwCall, chunks: usize) -> (built: KernelLaunch)
    requires
        call.dims.wf(),
        chunks <= i32::MAX,
    ensures
        built@ == splitm_reduce_step(call, chunks),
{
    let outputs: u32 = call.dims.k as u32 * call.dims.n as u32;
    let args = vec![
        KernelArg::Pointer(call.operands.output),
        KernelArg::Pointer(call.split),
        KernelArg::Float(call.operands.alpha),
        KernelArg::Int(call.dims.k as i32),
        KernelArg::Int(call.dims.n as i32),
        KernelArg::Int(chunks as i32),
    ];
    let built = launch("gemm_bi_splitm_reduce", reduce_config(outputs), args);
    assert(built@.args =~= splitm_reduce_step(call, chunks).args);
    built
}

/// The launches of a weight-gradient plan, in order.
pub open spec fn dw_program(call: DwCall, plan: ScalarDispatchPlan) -> Program {
    let k = call.dims.k as u32;
    let n = call.dims.n as u32;
    match plan {
        ScalarDispatchPlan::TnGemv => Program::start().then_launch(Ok(tn_gemv_step(call))),
        ScalarDispatchPlan::TnNarrow => Program::start().then_launch(
            tn_step(call, "gemm_bi_tn_narrow", checked_tile_grid(k, 64, n, 32), 128, 0),
        ),
        ScalarDispatchPlan::TnNarrowSplitM { m_chunk, chunks } => Program::start().then_launch(
            splitm_partial_step(
                call,
                plan,
                m_chunk,
                chunks,
                "TN narrow split-M chunk",
                "TN narrow split-M partitions",
            ),
        ).then_launch(Ok(splitm_reduce_step(call, chunks))),
        ScalarDispatchPlan::TnM16N16SplitM16Qualified => Program::start().then_launch(
            tn_step(
                call,
                "gemm_bi_tn_m16n16_bk16_s2_splitm16_v1",
                checked_tile_grid(k, 16, n, 16),
                SCALAR_TN_M16N16_THREADS,
                SCALAR_TN_M16N16_DYNAMIC_SHARED_BYTES,
            ),
        ),
        ScalarDispatchPlan::TnSplitM { m_chunk, chunks } => Program::start().then_launch(
            splitm_partial_step(
                call,
                plan,
                m_chunk,
                chunks,
                "TN split-M chunk",
                "TN split-M partitions",
            ),
        ).then_launch(Ok(splitm_reduce_step(call, chunks))),
        ScalarDispatchPlan::TnFinal { slim: true } => Program::start().then_launch(
            tn_step(
                call,
                scalar_nodes::tn_kernel_symbol(plan, call.operands),
                checked_tile_grid(k, 128, n, 64),
                128,
                0,
            ),
        ),
        _ => Program::start().then_launch(
            tn_step(
                call,
                scalar_nodes::tn_kernel_symbol(plan, call.operands),
                checked_tile_grid(k, 128, n, 128),
                256,
                SCALAR_BIG_DYNAMIC_SHARED_BYTES,
            ),
        ),
    }
}

fn build_dw_program(call: DwCall, plan: ScalarDispatchPlan) -> (program: LaunchProgram)
    requires
        call.dims.wf(),
        plan.op() is Tn,
    ensures
        program@ == dw_program(call, plan),
{
    let k: u32 = call.dims.k as u32;
    let n: u32 = call.dims.n as u32;
    let start = LaunchProgram::start();
    match plan {
        ScalarDispatchPlan::TnGemv => start.then_launch(Ok(build_tn_gemv_step(call))),
        ScalarDispatchPlan::TnNarrow => {
            let grid = checked_tile_grid(k, 64, n, 32);
            start.then_launch(build_tn_step(call, "gemm_bi_tn_narrow", grid, 128, 0))
        },
        ScalarDispatchPlan::TnNarrowSplitM { m_chunk, chunks } => {
            let partial = build_splitm_partial_step(
                call,
                plan,
                m_chunk,
                chunks,
                "TN narrow split-M chunk",
                "TN narrow split-M partitions",
            );
            if partial.is_err() {
                return start.then_launch(partial);
            }
            start.then_launch(partial).then_launch(Ok(build_splitm_reduce_step(call, chunks)))
        },
        ScalarDispatchPlan::TnM16N16SplitM16Qualified => {
            let grid = checked_tile_grid(k, 16, n, 16);
            start.then_launch(
                build_tn_step(
                    call,
                    "gemm_bi_tn_m16n16_bk16_s2_splitm16_v1",
                    grid,
                    SCALAR_TN_M16N16_THREADS,
                    SCALAR_TN_M16N16_DYNAMIC_SHARED_BYTES,
                ),
            )
        },
        ScalarDispatchPlan::TnSplitM { m_chunk, chunks } => {
            let partial = build_splitm_partial_step(
                call,
                plan,
                m_chunk,
                chunks,
                "TN split-M chunk",
                "TN split-M partitions",
            );
            if partial.is_err() {
                return start.then_launch(partial);
            }
            start.then_launch(partial).then_launch(Ok(build_splitm_reduce_step(call, chunks)))
        },
        ScalarDispatchPlan::TnFinal { slim: true } => {
            let symbol = scalar_tn_kernel_symbol(plan, call.operands);
            let grid = checked_tile_grid(k, 128, n, 64);
            start.then_launch(build_tn_step(call, symbol, grid, 128, 0))
        },
        _ => {
            let symbol = scalar_tn_kernel_symbol(plan, call.operands);
            let grid = checked_tile_grid(k, 128, n, 128);
            start.then_launch(
                build_tn_step(call, symbol, grid, 256, SCALAR_BIG_DYNAMIC_SHARED_BYTES),
            )
        },
    }
}

/// The call that a weight-gradient product makes. It always accumulates.
pub open spec fn dw_call(
    checked: GemmDims,
    dw_ptr: u64,
    dy: u64,
    x_saved: u64,
    prepared: Option<PreparedScalar>,
    workspace: ScalarWorkspace,
) -> DwCall {
    DwCall {
        dims: checked,
        operands: F32TriadOperands {
            output: dw_ptr,
            a: x_saved,
            b: dy,
            bias: None,
            alpha: match prepared {
                Some(prepared) => prepared.operands.alpha,
                None => F32_ONE_BITS,
            },
            beta: F32_ONE_BITS,
        },
        split: workspace.split,
    }
}

/// The launches of a weight-gradient product.
///
/// The extents are checked first. A prepared launch must hold the very
/// operands that are launched; its plan is then used as it is. Otherwise the
/// selected plan is used, or the selection's refusal is passed on.
pub open spec fn backward_dw_program(
    dw_ptr: u64,
    dy: u64,
    x_saved: u64,
    dims: (usize, usize, usize),
    prepared: Option<PreparedScalar>,
    selected: Result<ScalarDispatchPlan, LaunchError>,
    workspace: ScalarWorkspace,
) -> Program {
    match backward_request(ResolvedGemmOp::Tn, dims) {
        Err(error) => Program::refused(error),
        Ok((checked, _)) => {
            let call = dw_call(checked, dw_ptr, dy, x_saved, prepared, workspace);
            match scalar_forward::used_plan(prepared, selected) {
                Err(error) => Program::refused(error),
                Ok(plan) => if prepared matches Some(prepared) && prepared.operands
                    != call.operands {
                    Program::refused(
                        LaunchError::Rejected(
                            "prepared TN operands differ from the physical launch arguments",
                        ),
                    )
                } else {
                    dw_program(call, plan)
                },
            }
        },
    }
}

/// Weight gradient, with the plan of a prepared launch where there is one.
pub fn gemm_bi_backward_dw_with_control(
    dw_ptr: u64,
    dy: u64,
    x_saved: u64,
    dims: (usize, usize, usize),
    prepared: Option<PreparedScalar>,
    selected: Result<ScalarDispatchPlan, LaunchError>,
    workspace: ScalarWorkspace,
) -> (program: LaunchProgram)
    requires
        scalar_forward::used_plan(prepared, selected) matches Ok(plan) ==> plan.op() is Tn,
    ensures
        program@ == backward_dw_program(dw_ptr, dy, x_saved, dims, prepared, selected, workspace),
{
    let checked = match scalar_backward_request(ResolvedGemmOp::Tn, dims) {
        Err(error) => {
            return LaunchProgram::refused(error);
        },
        Ok((checked, _)) => checked,
    };
    let alpha: u32 = match prepared {
        Some(prepared) => prepared.operands.alpha,
        None => F32_ONE_BITS,
    };
    let operands = F32TriadOperands {
        output: dw_ptr,
        a: x_saved,
        b: dy,
        bias: None,
        alpha,
        beta: F32_ONE_BITS,
    };
    let plan = match prepared {
        Some(prepared) => {
            if prepared.operands != operands {
                return LaunchProgram::refused(
                    LaunchError::Rejected(
                        "prepared TN operands differ from the physical launch arguments",
                    ),
                );
            }
            prepared.plan
        },
        None => match selected {
            Ok(plan) => plan,
            Err(error) => {
                return LaunchProgram::refused(error);
            },
        },
    };
    build_dw_program(DwCall { dims: checked, operands, split: workspace.split }, plan)
}

/// Weight gradient `dW[K,N] += X^T[K,M] @ dY[M,N]`.
pub fn gemm_bi_backward_dw(
    dw_ptr: u64,
    dy: u64,
    x_saved: u64,
    dims: (usize, usize, usize),
    selected: Result<ScalarDispatchPlan, LaunchError>,
    workspace: ScalarWorkspace,
) -> (program: LaunchProgram)
    requires
        selected matches Ok(plan) ==> plan.op() is Tn,
    ensures
        program@ == backward_dw_program(dw_ptr, dy, x_saved, dims, None, selected, workspace),
{
    gemm_bi_backward_dw_with_control(dw_ptr, dy, x_saved, dims, None, selected, workspace)
}

} // verus!
