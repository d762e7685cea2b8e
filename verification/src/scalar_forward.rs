//! Forward product `Y[M,N] = X[M,K] @ W[K,N] + bias[N]` on the scalar kernels.

use crate::arith::{
    checked_grid_product, checked_i32, checked_tile_grid, checked_u32_product, div_ceil_u32,
};
use crate::error::LaunchError;
use crate::kernel;
use crate::kernel::{
    KernelArg, KernelLaunch, LaunchConfig, LaunchProgram, LaunchStep, Program,
};
use crate::params::SgbNnM64N64Params;
use crate::scalar_launch;
use crate::scalar_launch::{
    build_splitk_reduce_args, f32_element_address, launch, reduce_config, without_tail,
    PreparedScalar, ReduceTail, ScalarWorkspace,
};
use crate::scalar_nodes::{
    SCALAR_BIG_DYNAMIC_SHARED_BYTES, SCALAR_NN_M64N64_DYNAMIC_SHARED_BYTES,
};
use crate::scalar_plan::ScalarDispatchPlan;
use crate::shape::{validate_bias_preseed, F32TriadOperands, GemmDims, F32_ONE_BITS, F32_ZERO_BITS};
use vstd::prelude::*;

verus! {

/// Operands of a forward product whose X rows are `lda` elements apart. A
/// zero bias pointer means no bias.
#[derive(Clone, Copy, Debug, PartialEq, Eq, Structural)]
pub struct GemmBiFwdSubOperands {
    pub x_ptr: u64,
    pub lda: usize,
    pub w_ptr: u64,
    pub bias_ptr: u64,
}

/// A forward product with everything that its launches are computed from.
#[derive(Clone, Copy, Debug, PartialEq, Eq, Structural)]
pub struct ForwardCall {
    pub dims: GemmDims,
    pub output: u64,
    pub operands: GemmBiFwdSubOperands,
    pub alpha: u32,
    pub beta: u32,
    pub split: u64,
}

/// The twelve arguments of the dense forward kernels.
pub open spec fn nn_args(call: ForwardCall) -> Seq<KernelArg> {
    seq![
        KernelArg::Pointer(call.output),
        KernelArg::Pointer(call.operands.x_ptr),
        KernelArg::Pointer(call.operands.w_ptr),
        KernelArg::Pointer(call.operands.bias_ptr),
        KernelArg::Float(call.alpha),
        KernelArg::Float(call.beta),
        KernelArg::Int(call.dims.m as i32),
        KernelArg::Int(call.dims.n as i32),
        KernelArg::Int(call.dims.k as i32),
        KernelArg::Int(call.dims.lda as i32),
        KernelArg::Int(call.dims.n as i32),
        KernelArg::Int(call.dims.n as i32),
    ]
}

fn build_nn_args(call: ForwardCall) -> (args: Vec<KernelArg>)
    requires
        call.dims.wf(),
    ensures
        args@ == nn_args(call),
{
    let args = vec![
        KernelArg::Pointer(call.output),
        KernelArg::Pointer(call.operands.x_ptr),
        KernelArg::Pointer(call.operands.w_ptr),
        KernelArg::Pointer(call.operands.bias_ptr),
        KernelArg::Float(call.alpha),
        KernelArg::Float(call.beta),
        KernelArg::Int(call.dims.m as i32),
        KernelArg::Int(call.dims.n as i32),
        KernelArg::Int(call.dims.k as i32),
        KernelArg::Int(call.dims.lda as i32),
        KernelArg::Int(call.dims.n as i32),
        KernelArg::Int(call.dims.n as i32),
    ];
    assert(args@ =~= nn_args(call));
    args
}

/// A dense forward kernel over a one-dimensional grid.
pub open spec fn nn_step(
    call: ForwardCall,
    symbol: &'static str,
    grid: Result<u32, LaunchError>,
    block: u32,
    shared_mem_bytes: u32,
    args: Seq<KernelArg>,
) -> Result<LaunchStep, LaunchError> {
    match grid {
        Err(error) => Err(error),
        Ok(grid) => Ok(
            scalar_launch::step(symbol, LaunchConfig::linear(grid, block, shared_mem_bytes), args),
        ),
    }
}

/// One thread block per row of 32 columns; the X row is staged in shared
/// memory.
pub open spec fn ultra_thin_step(call: ForwardCall) -> Result<LaunchStep, LaunchError> {
    match checked_u32_product(call.dims.k as u32, 4, "ultra-thin shared memory") {
        Err(error) => Err(error),
        Ok(shared_mem_bytes) => Ok(
            scalar_launch::step(
                "gemm_bi_nn_ultra_thin",
                (LaunchConfig {
                    grid_dim: (div_ceil_u32(call.dims.n as u32, 32), call.dims.m as u32, 1),
                    block_dim: (256, 1, 1),
                    shared_mem_bytes,
                }),
                nn_args(call),
            ),
        ),
    }
}

/// The arguments of the GEMV kernel, whose output rows are one apart.
pub open spec fn nn_gemv_args(call: ForwardCall) -> Seq<KernelArg> {
    seq![
        KernelArg::Pointer(call.output),
        KernelArg::Pointer(call.operands.x_ptr),
        KernelArg::Pointer(call.operands.w_ptr),
        KernelArg::Pointer(call.operands.bias_ptr),
        KernelArg::Float(call.alpha),
        KernelArg::Float(call.beta),
        KernelArg::Int(call.dims.m as i32),
        KernelArg::Int(call.dims.k as i32),
        KernelArg::Int(call.dims.lda as i32),
        KernelArg::Int(1),
    ]
}

/// The split-K partial kernel over the 32-wide chunks of a K prefix.
pub open spec fn splitk_partial_step(
    call: ForwardCall,
    symbol: &'static str,
    k_main: usize,
    what: &'static str,
) -> Result<LaunchStep, LaunchError> {
    match checked_i32((k_main / 32) as usize, what) {
        Err(error) => Err(error),
        Ok(chunks) => match checked_grid_product(
            div_ceil_u32(call.dims.m as u32, 32),
            div_ceil_u32(call.dims.n as u32, 64),
            (k_main / 32) as u32,
        ) {
            Err(error) => Err(error),
            Ok(grid) => Ok(
                scalar_launch::step(
                    symbol,
                    LaunchConfig::linear(grid, 128, 0),
                    seq![
                        KernelArg::Pointer(call.split),
                        KernelArg::Pointer(call.operands.x_ptr),
                        KernelArg::Pointer(call.operands.w_ptr),
                        KernelArg::Int(call.dims.m as i32),
                        KernelArg::Int(call.dims.n as i32),
                        KernelArg::Int(chunks),
                        KernelArg::Int(call.dims.lda as i32),
                    ],
                ),
            ),
        },
    }
}

/// The reducer of a forward split-K plan.
pub open spec fn forward_reduce_step(
    call: ForwardCall,
    chunks: i32,
    tail: ReduceTail,
) -> LaunchStep {
    scalar_launch::step(
        "gemm_bi_splitk_reduce",
        reduce_config((call.dims.m * call.dims.n) as u32),
        scalar_launch::splitk_reduce_args(
            call.output,
            call.split,
            call.operands.bias_ptr,
            call.alpha,
            call.dims.m as i32,
            call.dims.n as i32,
            chunks,
            tail,
        ),
    )
}

/// The tail of X behind column `k_main` and of W behind row `k_main`.
pub open spec fn forward_tail(
    call: ForwardCall,
    k_main: usize,
    k_tail: usize,
) -> Result<ReduceTail, LaunchError> {
    match checked_i32(k_tail, "NN K-tail count") {
        Err(error) => Err(error),
        Ok(count) => match scalar_launch::element_address(call.operands.x_ptr, k_main, "X tail") {
            Err(error) => Err(error),
            Ok(x) => if k_main * call.dims.n > usize::MAX {
                Err(LaunchError::InvalidDimensions("W tail element offset overflows usize"))
            } else {
                match scalar_launch::element_address(
                    call.operands.w_ptr,
                    (k_main * call.dims.n) as usize,
                    "W tail",
                ) {
                    Err(error) => Err(error),
                    Ok(w) => Ok(
                        ReduceTail { x, w, x_stride: call.dims.lda as i32, out_stride: 0, count },
                    ),
                }
            },
        },
    }
}

/// The reducer of a forward split-K plan with a K tail.
pub open spec fn forward_tail_step(
    call: ForwardCall,
    k_main: usize,
    k_tail: usize,
) -> Result<LaunchStep, LaunchError> {
    match forward_tail(call, k_main, k_tail) {
        Err(error) => Err(error),
        Ok(tail) => Ok(forward_reduce_step(call, (k_main / 32) as i32, tail)),
    }
}

/// The partial kernel in 64-wide K chunks over 128x64 output tiles.
pub open spec fn splitk_slim_step(call: ForwardCall, chunks: u32) -> Result<
    LaunchStep,
    LaunchError,
> {
    match checked_tile_grid(call.dims.m as u32, 128, call.dims.n as u32, 64) {
        Err(error) => Err(error),
        Ok(grid) => Ok(
            scalar_launch::step(
                "gemm_bi_nn_splitk_slim_partial",
                (LaunchConfig {
                    grid_dim: (grid, 1, chunks),
                    block_dim: (128, 1, 1),
                    shared_mem_bytes: 0,
                }),
                seq![
                    KernelArg::Pointer(call.split),
                    KernelArg::Pointer(call.operands.x_ptr),
                    KernelArg::Pointer(call.operands.w_ptr),
                    KernelArg::Int(call.dims.m as i32),
                    KernelArg::Int(call.dims.n as i32),
                    KernelArg::Int(call.dims.k as i32),
                    KernelArg::Int(call.dims.lda as i32),
                    KernelArg::Int(call.dims.n as i32),
                    KernelArg::Int(64),
                ],
            ),
        ),
    }
}

/// The by-value parameters of the 64x64 forward kernel.
pub open spec fn m64n64_params(call: ForwardCall) -> SgbNnM64N64Params {
    SgbNnM64N64Params {
        alpha: call.alpha,
        beta: call.beta,
        m: call.dims.m as i32,
        n: call.dims.n as i32,
        k: call.dims.k as i32,
        lda: call.dims.lda as i32,
        ldb: call.dims.n as i32,
        ldc: call.dims.n as i32,
    }
}

/// The launches of a forward plan, in order.
pub open spec fn forward_program(call: ForwardCall, plan: ScalarDispatchPlan) -> Program {
    let m = call.dims.m as u32;
    let n = call.dims.n as u32;
    match plan {
        ScalarDispatchPlan::NnUltraThin => Program::start().then_launch(ultra_thin_step(call)),
        ScalarDispatchPlan::NnNarrowSmall => Program::start().then_launch(
            nn_step(
                call,
                "gemm_bi_nn_narrow_small",
                checked_tile_grid(m, 16, n, 16),
                64,
                0,
                nn_args(call).push(KernelArg::Int(0)),
            ),
        ),
        ScalarDispatchPlan::NnNarrow => Program::start().then_launch(
            nn_step(
                call,
                "gemm_bi_nn_narrow",
                checked_tile_grid(m, 64, n, 32),
                128,
                0,
                nn_args(call).push(KernelArg::Int(0)),
            ),
        ),
        ScalarDispatchPlan::NnGemv => Program::start().then_launch(
            nn_step(call, "gemm_bi_nn_gemv", Ok(div_ceil_u32(m, 4)), 128, 0, nn_gemv_args(call)),
        ),
        ScalarDispatchPlan::NnSplitKThinTail { k_main, k_tail } => Program::start().then_launch(
            splitk_partial_step(call, "gemm_bi_nn_splitk32_partial", k_main, "NN K-tail chunks"),
        ).then_launch(forward_tail_step(call, k_main, k_tail)),
        ScalarDispatchPlan::NnSplitKThin => Program::start().then_launch(
            splitk_partial_step(
                call,
                "gemm_bi_nn_splitk32_partial",
                call.dims.k,
                "NN split-K chunks",
            ),
        ).then_launch(
            Ok(
                forward_reduce_step(call, (call.dims.k / 32) as i32, scalar_launch::no_tail()),
            ),
        ),
        ScalarDispatchPlan::NnM32N64SplitK32Qualified => Program::start().then_launch(
            splitk_partial_step(
                call,
                "gemm_bi_nn_splitk32_m32n64_exact_v1",
                call.dims.k,
                "NN split-K chunks",
            ),
        ).then_launch(
            Ok(
                forward_reduce_step(call, (call.dims.k / 32) as i32, scalar_launch::no_tail()),
            ),
        ),
        ScalarDispatchPlan::NnSplitKSlim { chunks } => Program::start().then_launch(
            splitk_slim_step(call, chunks),
        ).then_launch(
            match checked_i32(chunks as usize, "NN slim split-K chunks") {
                Err(error) => Err(error),
                Ok(chunks) => Ok(forward_reduce_step(call, chunks, scalar_launch::no_tail())),
            },
        ),
        ScalarDispatchPlan::NnM64N64Qualified => Program::start().then_launch(
            nn_step(
                call,
                "gemm_bi_nn_m64n64_bk16_s2_v1",
                checked_tile_grid(m, 64, n, 64),
                128,
                SCALAR_NN_M64N64_DYNAMIC_SHARED_BYTES,
                seq![
                    KernelArg::Pointer(call.output),
                    KernelArg::Pointer(call.operands.x_ptr),
                    KernelArg::Pointer(call.operands.w_ptr),
                    KernelArg::Pointer(call.operands.bias_ptr),
                    KernelArg::M64N64(m64n64_params(call)),
                ],
            ),
        ),
        ScalarDispatchPlan::NnFinal { slim: true } => Program::start().then_launch(
            nn_step(
                call,
                "gemm_bi_nn_slim",
                checked_tile_grid(m, 128, n, 64),
                128,
                0,
                nn_args(call),
            ),
        ),
        _ => Program::start().then_launch(
            nn_step(
                call,
                "gemm_bi_nn",
                checked_tile_grid(m, 128, n, 128),
                256,
                SCALAR_BIG_DYNAMIC_SHARED_BYTES,
                nn_args(call),
            ),
        ),
    }
}

fn build_nn_step(
    call: ForwardCall,
    symbol: &'static str,
    grid: Result<u32, LaunchError>,
    block: u32,
    shared_mem_bytes: u32,
    args: Vec<KernelArg>,
) -> (result: Result<KernelLaunch, LaunchError>)
    ensures
        kernel::step_of(result) == nn_step(call, symbol, grid, block, shared_mem_bytes, args@),
{
    let grid: u32 = grid?;
    Ok(launch(symbol, LaunchConfig::linear(grid, block, shared_mem_bytes), args))
}

fn build_ultra_thin_step(call: ForwardCall) -> (result: Result<KernelLaunch, LaunchError>)
    requires
        call.dims.wf(),
    ensures
        kernel::step_of(result) == ultra_thin_step(call),
{
    let shared_mem_bytes: u32 = checked_u32_product(
        call.dims.k as u32,
        4,
        "ultra-thin shared memory",
    )?;
    let config = LaunchConfig {
        grid_dim: (div_ceil_u32(call.dims.n as u32, 32), call.dims.m as u32, 1),
        block_dim: (256, 1, 1),
        shared_mem_bytes,
    };
    Ok(launch("gemm_bi_nn_ultra_thin", config, build_nn_args(call)))
}

fn build_nn_gemv_args(call: ForwardCall) -> (args: Vec<KernelArg>)
    requires
        call.dims.wf(),
    ensures
        args@ == nn_gemv_args(call),
{
    let args = vec![
        KernelArg::Pointer(call.output),
        KernelArg::Pointer(call.operands.x_ptr),
        KernelArg::Pointer(call.operands.w_ptr),
        KernelArg::Pointer(call.operands.bias_ptr),
        KernelArg::Float(call.alpha),
        KernelArg::Float(call.beta),
        KernelArg::Int(call.dims.m as i32),
        KernelArg::Int(call.dims.k as i32),
        KernelArg::Int(call.dims.lda as i32),
        KernelArg::Int(1),
    ];
    assert(args@ =~= nn_gemv_args(call));
    args
}

fn build_splitk_partial_step(
    call: ForwardCall,
    symbol: &'static str,
    k_main: usize,
    what: &'static str,
) -> (result: Result<KernelLaunch, LaunchError>)
    requires
        call.dims.wf(),
    ensures
        kernel::step_of(result) == splitk_partial_step(call, symbol, k_main, what),
{
    let chunks: i32 = checked_i32(k_main / 32, what)?;
    let grid: u32 = checked_grid_product(
        div_ceil_u32(call.dims.m as u32, 32),
        div_ceil_u32(call.dims.n as u32, 64),
        (k_main / 32) as u32,
    )?;
    let args = vec![
        KernelArg::Pointer(call.split),
        KernelArg::Pointer(call.operands.x_ptr),
        KernelArg::Pointer(call.operands.w_ptr),
        KernelArg::Int(call.dims.m as i32),
        KernelArg::Int(call.dims.n as i32),
        KernelArg::Int(chunks),
        KernelArg::Int(call.dims.lda as i32),
    ];
    let built = launch(symbol, LaunchConfig::linear(grid, 128, 0), args);
    proof {
        let expected = splitk_partial_step(call, symbol, k_main, what);
        assert(expected is Ok);
        assert(built@.args =~= expected->Ok_0.args);
    }
    Ok(built)
}

fn build_forward_reduce(call: ForwardCall, chunks: i32, tail: ReduceTail) -> (built: KernelLaunch)
    requires
        call.dims.wf(),
    ensures
        built@ == forward_reduce_step(call, chunks, tail),
{
    let outputs: u32 = call.dims.m as u32 * call.dims.n as u32;
    launch(
        "gemm_bi_splitk_reduce",
        reduce_config(outputs),
        build_splitk_reduce_args(
            call.output,
            call.split,
            call.operands.bias_ptr,
            call.alpha,
            call.dims.m as i32,
            call.dims.n as i32,
            chunks,
            tail,
        ),
    )
}

fn build_forward_tail(call: ForwardCall, k_main: usize, k_tail: usize) -> (result: Result<
    ReduceTail,
    LaunchError,
>)
    requires
        call.dims.wf(),
    ensures
        result == forward_tail(call, k_main, k_tail),
{
    let count: i32 = checked_i32(k_tail, "NN K-tail count")?;
    let x: u64 = f32_element_address(call.operands.x_ptr, k_main, "X tail")?;
    match k_main.checked_mul(call.dims.n) {
        None => Err(LaunchError::InvalidDimensions("W tail element offset overflows usize")),
        Some(elements) => {
            let w: u64 = f32_element_address(call.operands.w_ptr, elements, "W tail")?;
            Ok(ReduceTail { x, w, x_stride: call.dims.lda as i32, out_stride: 0, count })
        },
    }
}

fn build_forward_tail_step(call: ForwardCall, k_main: usize, k_tail: usize) -> (result: Result<
    KernelLaunch,
    LaunchError,
>)
    requires
        call.dims.wf(),
        k_main / 32 <= i32::MAX,
    ensures
        kernel::step_of(result) == forward_tail_step(call, k_main, k_tail),
{
    let tail = build_forward_tail(call, k_main, k_tail)?;
    Ok(build_forward_reduce(call, (k_main / 32) as i32, tail))
}

fn build_splitk_slim_step(call: ForwardCall, chunks: u32) -> (result: Result<
    KernelLaunch,
    LaunchError,
>)
    requires
        call.dims.wf(),
    ensures
        kernel::step_of(result) == splitk_slim_step(call, chunks),
{
    let grid: u32 = checked_tile_grid(call.dims.m as u32, 128, call.dims.n as u32, 64)?;
    let args = vec![
        KernelArg::Pointer(call.split),
        KernelArg::Pointer(call.operands.x_ptr),
        KernelArg::Pointer(call.operands.w_ptr),
        KernelArg::Int(call.dims.m as i32),
        KernelArg::Int(call.dims.n as i32),
        KernelArg::Int(call.dims.k as i32),
        KernelArg::Int(call.dims.lda as i32),
        KernelArg::Int(call.dims.n as i32),
        KernelArg::Int(64),
    ];
    let config = LaunchConfig {
        grid_dim: (grid, 1, chunks),
        block_dim: (128, 1, 1),
        shared_mem_bytes: 0,
    };
    let built = launch("gemm_bi_nn_splitk_slim_partial", config, args);
    proof {
        let expected = splitk_slim_step(call, chunks);
        assert(expected is Ok);
        assert(built@.args =~= expected->Ok_0.args);
    }
    Ok(built)
}

fn build_m64n64_args(call: ForwardCall) -> (args: Vec<KernelArg>)
    requires
        call.dims.wf(),
    ensures
        args@ == seq![
            KernelArg::Pointer(call.output),
            KernelArg::Pointer(call.operands.x_ptr),
            KernelArg::Pointer(call.operands.w_ptr),
            KernelArg::Pointer(call.operands.bias_ptr),
            KernelArg::M64N64(m64n64_params(call)),
        ],
{
    let params = SgbNnM64N64Params {
        alpha: call.alpha,
        beta: call.beta,
        m: call.dims.m as i32,
        n: call.dims.n as i32,
        k: call.dims.k as i32,
        lda: call.dims.lda as i32,
        ldb: call.dims.n as i32,
        ldc: call.dims.n as i32,
    };
    vec![
        KernelArg::Pointer(call.output),
        KernelArg::Pointer(call.operands.x_ptr),
        KernelArg::Pointer(call.operands.w_ptr),
        KernelArg::Pointer(call.operands.bias_ptr),
        KernelArg::M64N64(params),
    ]
}

fn build_forward_program(call: ForwardCall, plan: ScalarDispatchPlan) -> (program: LaunchProgram)
    requires
        call.dims.wf(),
        plan.op() is Nn,
    ensures
        program@ == forward_program(call, plan),
{
    let m: u32 = call.dims.m as u32;
    let n: u32 = call.dims.n as u32;
    let start = LaunchProgram::start();
    match plan {
        ScalarDispatchPlan::NnUltraThin => start.then_launch(build_ultra_thin_step(call)),
        ScalarDispatchPlan::NnNarrowSmall => {
            let mut args = build_nn_args(call);
            args.push(KernelArg::Int(0));
            let grid = checked_tile_grid(m, 16, n, 16);
            start.then_launch(build_nn_step(call, "gemm_bi_nn_narrow_small", grid, 64, 0, args))
        },
        ScalarDispatchPlan::NnNarrow => {
            let mut args = build_nn_args(call);
            args.push(KernelArg::Int(0));
            let grid = checked_tile_grid(m, 64, n, 32);
            start.then_launch(build_nn_step(call, "gemm_bi_nn_narrow", grid, 128, 0, args))
        },
        ScalarDispatchPlan::NnGemv => {
            let args = build_nn_gemv_args(call);
            let grid = Ok(div_ceil_u32(m, 4));
            start.then_launch(build_nn_step(call, "gemm_bi_nn_gemv", grid, 128, 0, args))
        },
        ScalarDispatchPlan::NnSplitKThinTail { k_main, k_tail } => {
            let partial = build_splitk_partial_step(
                call,
                "gemm_bi_nn_splitk32_partial",
                k_main,
                "NN K-tail chunks",
            );
            if partial.is_err() {
                return start.then_launch(partial);
            }
            start.then_launch(partial).then_launch(build_forward_tail_step(call, k_main, k_tail))
        },
        ScalarDispatchPlan::NnSplitKThin => {
            let partial = build_splitk_partial_step(
                call,
                "gemm_bi_nn_splitk32_partial",
                call.dims.k,
                "NN split-K chunks",
            );
            let chunks: i32 = (call.dims.k / 32) as i32;
            start.then_launch(partial).then_launch(
                Ok(build_forward_reduce(call, chunks, without_tail())),
            )
        },
        ScalarDispatchPlan::NnM32N64SplitK32Qualified => {
            let partial = build_splitk_partial_step(
                call,
                "gemm_bi_nn_splitk32_m32n64_exact_v1",
                call.dims.k,
                "NN split-K chunks",
            );
            let chunks: i32 = (call.dims.k / 32) as i32;
            start.then_launch(partial).then_launch(
                Ok(build_forward_reduce(call, chunks, without_tail())),
            )
        },
        ScalarDispatchPlan::NnSplitKSlim { chunks } => {
            let partial = build_splitk_slim_step(call, chunks);
            let reduce = match checked_i32(chunks as usize, "NN slim split-K chunks") {
                Err(error) => Err(error),
                Ok(count) => Ok(build_forward_reduce(call, count, without_tail())),
            };
            start.then_launch(partial).then_launch(reduce)
        },
        ScalarDispatchPlan::NnM64N64Qualified => {
            let args = build_m64n64_args(call);
            let grid = checked_tile_grid(m, 64, n, 64);
            start.then_launch(
                build_nn_step(
                    call,
                    "gemm_bi_nn_m64n64_bk16_s2_v1",
                    grid,
                    128,
                    SCALAR_NN_M64N64_DYNAMIC_SHARED_BYTES,
                    args,
                ),
            )
        },
        ScalarDispatchPlan::NnFinal { slim: true } => {
            let args = build_nn_args(call);
            let grid = checked_tile_grid(m, 128, n, 64);
            start.then_launch(build_nn_step(call, "gemm_bi_nn_slim", grid, 128, 0, args))
        },
        _ => {
            let args = build_nn_args(call);
            let grid = checked_tile_grid(m, 128, n, 128);
            start.then_launch(
                build_nn_step(
                    call,
                    "gemm_bi_nn",
                    grid,
                    256,
                    SCALAR_BIG_DYNAMIC_SHARED_BYTES,
                    args,
                ),
            )
        },
    }
}

/// The operands of a forward product in their common form.
pub open spec fn forward_operands(
    output: u64,
    operands: GemmBiFwdSubOperands,
    alpha: u32,
    beta: u32,
) -> F32TriadOperands {
    F32TriadOperands {
        output,
        a: operands.x_ptr,
        b: operands.w_ptr,
        bias: if operands.bias_ptr != 0 {
            Some(operands.bias_ptr)
        } else {
            None
        },
        alpha,
        beta,
    }
}

/// The call that a forward product makes: unscaled, unless a prepared launch
/// froze other factors.
pub open spec fn forward_call(
    dims: GemmDims,
    output: u64,
    operands: GemmBiFwdSubOperands,
    prepared: Option<PreparedScalar>,
    workspace: ScalarWorkspace,
) -> ForwardCall {
    ForwardCall {
        dims,
        output,
        operands,
        alpha: match prepared {
            Some(prepared) => prepared.operands.alpha,
            None => F32_ONE_BITS,
        },
        beta: match prepared {
            Some(prepared) => prepared.operands.beta,
            None => F32_ZERO_BITS,
        },
        split: workspace.split,
    }
}

/// The launches of a forward product over strided X rows.
///
/// The extents are checked first. A prepared launch must hold the very
/// operands that are launched; its plan is then used as it is. Otherwise the
/// selected plan is used, or the selection's refusal is passed on.
pub open spec fn forward_sub_program(
    output: u64,
    operands: GemmBiFwdSubOperands,
    dims: (usize, usize, usize),
    prepared: Option<PreparedScalar>,
    selected: Result<ScalarDispatchPlan, LaunchError>,
    workspace: ScalarWorkspace,
) -> Program {
    match GemmDims::resolve(dims, operands.lda, dims.1) {
        Err(error) => Program::refused(error),
        Ok(checked) => {
            let call = forward_call(checked, output, operands, prepared, workspace);
            let actual = forward_operands(output, operands, call.alpha, call.beta);
            if prepared matches Some(prepared) && prepared.operands != actual {
                Program::refused(
                    LaunchError::Rejected("scalar operands changed after f32 Triad preparation"),
                )
            } else {
                match used_plan(prepared, selected) {
                    Err(error) => Program::refused(error),
                    Ok(plan) => match validate_bias_preseed(call.alpha, operands.bias_ptr) {
                        Err(error) => Program::refused(error),
                        Ok(_) => forward_program(call, plan),
                    },
                }
            }
        },
    }
}

/// The frozen plan of a prepared launch, or the selected one.
pub open spec fn used_plan(
    prepared: Option<PreparedScalar>,
    selected: Result<ScalarDispatchPlan, LaunchError>,
) -> Result<ScalarDispatchPlan, LaunchError> {
    match prepared {
        Some(prepared) => Ok(prepared.plan),
        None => selected,
    }
}

/// Forward product over strided X rows, with the plan of a prepared launch
/// where there is one.
pub fn gemm_bi_forward_sub_with_control(
    output: u64,
    operands: GemmBiFwdSubOperands,
    dims: (usize, usize, usize),
    prepared: Option<PreparedScalar>,
    selected: Result<ScalarDispatchPlan, LaunchError>,
    workspace: ScalarWorkspace,
) -> (program: LaunchProgram)
    requires
        used_plan(prepared, selected) matches Ok(plan) ==> plan.op() is Nn,
    ensures
        program@ == forward_sub_program(output, operands, dims, prepared, selected, workspace),
{
    let checked = match GemmDims::nn(dims, operands.lda) {
        Err(error) => {
            return LaunchProgram::refused(error);
        },
        Ok(checked) => checked,
    };
    let (alpha, beta): (u32, u32) = match prepared {
        Some(prepared) => (prepared.operands.alpha, prepared.operands.beta),
        None => (F32_ONE_BITS, F32_ZERO_BITS),
    };
    if let Some(prepared) = prepared {
        let actual = F32TriadOperands {
            output,
            a: operands.x_ptr,
            b: operands.w_ptr,
            bias: if operands.bias_ptr != 0 {
                Some(operands.bias_ptr)
            } else {
                None
            },
            alpha,
            beta,
        };
        if prepared.operands != actual {
            return LaunchProgram::refused(
                LaunchError::Rejected("scalar operands changed after f32 Triad preparation"),
            );
        }
    }
    let plan = match prepared {
        Some(prepared) => prepared.plan,
        None => match selected {
            Ok(plan) => plan,
            Err(error) => {
                return LaunchProgram::refused(error);
            },
        },
    };
    if let Err(error) = validate_bias_preseed(alpha, operands.bias_ptr) {
        return LaunchProgram::refused(error);
    }
    let call = ForwardCall {
        dims: checked,
        output,
        operands,
        alpha,
        beta,
        split: workspace.split,
    };
    build_forward_program(call, plan)
}

/// Forward product over strided X rows: `x_ptr` is the first element of an
/// `[M, K]` sub-matrix whose rows are `lda >= K` elements apart.
pub fn gemm_bi_forward_sub(
    output: u64,
    operands: GemmBiFwdSubOperands,
    dims: (usize, usize, usize),
    selected: Result<ScalarDispatchPlan, LaunchError>,
    workspace: ScalarWorkspace,
) -> (program: LaunchProgram)
    requires
        selected matches Ok(plan) ==> plan.op() is Nn,
    ensures
        program@ == forward_sub_program(output, operands, dims, None, selected, workspace),
{
    gemm_bi_forward_sub_with_control(output, operands, dims, None, selected, workspace)
}

/// Forward product over densely packed X rows.
pub fn gemm_bi_forward(
    output: u64,
    x_ptr: u64,
    w_ptr: u64,
    bias_ptr: u64,
    dims: (usize, usize, usize),
    selected: Result<ScalarDispatchPlan, LaunchError>,
    workspace: ScalarWorkspace,
) -> (program: LaunchProgram)
    requires
        selected matches Ok(plan) ==> plan.op() is Nn,
    ensures
        program@ == forward_sub_program(
            output,
            (GemmBiFwdSubOperands { x_ptr, lda: dims.1, w_ptr, bias_ptr }),
            dims,
            None,
            selected,
            workspace,
        ),
{
    let operands = GemmBiFwdSubOperands { x_ptr, lda: dims.1, w_ptr, bias_ptr };
    gemm_bi_forward_sub(output, operands, dims, selected, workspace)
}

} // verus!
