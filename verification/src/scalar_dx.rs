//! Input gradient `dX[M,K] = dY[M,N] @ W^T[N,K]` on the scalar kernels.

use crate::arith::{
    checked_grid_product, checked_i32, checked_tile_grid, checked_u32, div_ceil_u32,
};
use crate::error::LaunchError;
use crate::kernel;
use crate::kernel::{
    KernelArg, KernelLaunch, LaunchConfig, LaunchProgram, LaunchStep, Program,
};
use crate::params::SgbNnM64N64Params;
use crate::scalar_dw;
use crate::scalar_dw::scalar_backward_request;
use crate::scalar_forward;
use crate::scalar_launch;
use crate::scalar_launch::{
    build_splitk_reduce_args, f32_element_address, launch, reduce_config, without_tail,
    PreparedScalar, ReduceTail, ScalarWorkspace,
};
use crate::scalar_nodes::{
    SCALAR_BIG_NT_DYNAMIC_SHARED_BYTES, SCALAR_NN_M64N64_DYNAMIC_SHARED_BYTES,
    SCALAR_NT_M2N16_DYNAMIC_SHARED_BYTES, SCALAR_NT_M2N16_THREADS,
};
use crate::scalar_plan;
use crate::scalar_plan::{
    scalar_transpose_scratch_elements, ScalarDispatchPlan, SCALAR_TRANSPOSE_SCRATCH_CAP_ELEMENTS,
};
use crate::shape::{
    F32TriadOperands, F32TriadRequest, GemmDims, ResolvedGemmOp, F32_ONE_BITS, F32_ZERO_BITS,
};
use vstd::prelude::*;

verus! {

/// An input-gradient product with everything that its launches depend on.
#[derive(Clone, Copy, Debug, PartialEq, Eq, Structural)]
pub struct DxCall {
    pub dims: GemmDims,
    pub request: F32TriadRequest,
    pub operands: F32TriadOperands,
    pub workspace: ScalarWorkspace,
}

/// The arguments of the input-gradient kernels.
pub open spec fn nt_args(call: DxCall) -> Seq<KernelArg> {
    seq![
        KernelArg::Pointer(call.operands.output),
        KernelArg::Pointer(call.operands.a),
        KernelArg::Pointer(call.operands.b),
        KernelArg::Float(call.operands.alpha),
        KernelArg::Int(call.dims.m as i32),
        KernelArg::Int(call.dims.n as i32),
        KernelArg::Int(call.dims.k as i32),
    ]
}

fn build_nt_args(call: DxCall) -> (args: Vec<KernelArg>)
    requires
        call.dims.wf(),
    ensures
        args@ == nt_args(call),
{
    let args = vec![
        KernelArg::Pointer(call.operands.output),
        KernelArg::Pointer(call.operands.a),
        KernelArg::Pointer(call.operands.b),
        KernelArg::Float(call.operands.alpha),
        KernelArg::Int(call.dims.m as i32),
        KernelArg::Int(call.dims.n as i32),
        KernelArg::Int(call.dims.k as i32),
    ];
    assert(args@ =~= nt_args(call));
    args
}

/// An input-gradient kernel with one CTA per output tile.
pub open spec fn nt_step(
    call: DxCall,
    symbol: &'static str,
    grid: Result<u32, LaunchError>,
    block: u32,
    shared_mem_bytes: u32,
) -> Result<LaunchStep, LaunchError> {
    match grid {
        Err(error) => Err(error),
        Ok(grid) => Ok(
            scalar_launch::step(
                symbol,
                LaunchConfig::linear(grid, block, shared_mem_bytes),
                nt_args(call),
            ),
        ),
    }
}

fn build_nt_step(
    call: DxCall,
    symbol: &'static str,
    grid: Result<u32, LaunchError>,
    block: u32,
    shared_mem_bytes: u32,
) -> (result: Result<KernelLaunch, LaunchError>)
    requires
        call.dims.wf(),
    ensures
        kernel::step_of(result) == nt_step(call, symbol, grid, block, shared_mem_bytes),
{
    let grid: u32 = grid?;
    Ok(launch(symbol, LaunchConfig::linear(grid, block, shared_mem_bytes), build_nt_args(call)))
}

/// The outer product of a single reduction column.
pub open spec fn nt_gemv_step(call: DxCall) -> LaunchStep {
    scalar_launch::step(
        "gemm_bi_nt_gemv",
        reduce_config((call.dims.m * call.dims.k) as u32),
        seq![
            KernelArg::Pointer(call.operands.output),
            KernelArg::Pointer(call.operands.a),
            KernelArg::Pointer(call.operands.b),
            KernelArg::Float(call.operands.alpha),
            KernelArg::Int(call.dims.m as i32),
            KernelArg::Int(call.dims.k as i32),
            KernelArg::Int(call.dims.k as i32),
            KernelArg::Int(1),
        ],
    )
}

fn build_nt_gemv_step(call: DxCall) -> (built: KernelLaunch)
    requires
        call.dims.wf(),
    ensures
        built@ == nt_gemv_step(call),
{
    let outputs: u32 = call.dims.m as u32 * call.dims.k as u32;
    let args = vec![
        KernelArg::Pointer(call.operands.output),
        KernelArg::Pointer(call.operands.a),
        KernelArg::Pointer(call.operands.b),
        KernelArg::Float(call.operands.alpha),
        KernelArg::Int(call.dims.m as i32),
        KernelArg::Int(call.dims.k as i32),
        KernelArg::Int(call.dims.k as i32),
        KernelArg::Int(1),
    ];
    let built = launch("gemm_bi_nt_gemv", reduce_config(outputs), args);
    assert(built@.args =~= nt_gemv_step(call).args);
    built
}

/// The transpose of the first `rows` weight rows into the workspace.
pub open spec fn transpose_step(
    call: DxCall,
    symbol: &'static str,
    rows: usize,
    block_rows: u32,
) -> LaunchStep {
    scalar_launch::step(
        symbol,
        (LaunchConfig {
            grid_dim: (div_ceil_u32(call.dims.n as u32, 32), div_ceil_u32(rows as u32, 32), 1),
            block_dim: (32, block_rows, 1),
            shared_mem_bytes: 0,
        }),
        seq![
            KernelArg::Pointer(call.workspace.transpose),
            KernelArg::Pointer(call.operands.b),
            KernelArg::Int(rows as i32),
            KernelArg::Int(call.dims.n as i32),
        ],
    )
}

fn build_transpose_step(
    call: DxCall,
    symbol: &'static str,
    rows: usize,
    block_rows: u32,
) -> (built: KernelLaunch)
    requires
        call.dims.wf(),
        rows <= i32::MAX,
    ensures
        built@ == transpose_step(call, symbol, rows, block_rows),
{
    let config = LaunchConfig {
        grid_dim: (div_ceil_u32(call.dims.n as u32, 32), div_ceil_u32(rows as u32, 32), 1),
        block_dim: (32, block_rows, 1),
        shared_mem_bytes: 0,
    };
    let args = vec![
        KernelArg::Pointer(call.workspace.transpose),
        KernelArg::Pointer(call.operands.b),
        KernelArg::Int(rows as i32),
        KernelArg::Int(call.dims.n as i32),
    ];
    let built = launch(symbol, config, args);
    assert(built@.args =~= transpose_step(call, symbol, rows, block_rows).args);
    built
}

/// The transposed weights of a qualified plan fit a workspace of exactly the
/// frozen capacity.
pub open spec fn qualified_transpose_fault(call: DxCall, plan: ScalarDispatchPlan) -> Option<
    LaunchError,
> {
    match scalar_plan::transpose_scratch_elements(call.request, plan) {
        Err(error) => Some(error),
        Ok(required) => if call.workspace.transpose_len != SCALAR_TRANSPOSE_SCRATCH_CAP_ELEMENTS {
            Some(
                LaunchError::TransposeScratchCapacity(
                    "qualified scalar NT transpose scratch",
                    call.workspace.transpose_len,
                    required->0,
                ),
            )
        } else {
            None
        },
    }
}

/// The 64x64 forward kernel on the transposed weights.
pub open spec fn transposed_m64_step(call: DxCall, plan: ScalarDispatchPlan) -> Result<
    LaunchStep,
    LaunchError,
> {
    match checked_tile_grid(call.dims.m as u32, 64, call.dims.k as u32, 64) {
        Err(error) => Err(error),
        Ok(grid) => Ok(
            scalar_launch::step(
                if plan is NtPrismVectorQualified {
                    "gemm_bi_nn_prism_m64n64_bk16_s2_v1"
                } else {
                    "gemm_bi_nn_m64n64_bk16_s2_v1"
                },
                LaunchConfig::linear(grid, 128, SCALAR_NN_M64N64_DYNAMIC_SHARED_BYTES),
                seq![
                    KernelArg::Pointer(call.operands.output),
                    KernelArg::Pointer(call.operands.a),
                    KernelArg::Pointer(call.workspace.transpose),
                    KernelArg::Pointer(0),
                    KernelArg::M64N64(transposed_m64_params(call)),
                ],
            ),
        ),
    }
}

/// The forward parameters of a product with transposed weights.
pub open spec fn transposed_m64_params(call: DxCall) -> SgbNnM64N64Params {
    SgbNnM64N64Params {
        alpha: call.operands.alpha,
        beta: F32_ZERO_BITS,
        m: call.dims.m as i32,
        n: call.dims.k as i32,
        k: call.dims.n as i32,
        lda: call.dims.n as i32,
        ldb: call.dims.k as i32,
        ldc: call.dims.k as i32,
    }
}

fn build_transposed_m64_step(call: DxCall, plan: ScalarDispatchPlan) -> (result: Result<
    KernelLaunch,
    LaunchError,
>)
    requires
        call.dims.wf(),
    ensures
        kernel::step_of(result) == transposed_m64_step(call, plan),
{
    let grid: u32 = checked_tile_grid(call.dims.m as u32, 64, call.dims.k as u32, 64)?;
    let symbol = if plan == ScalarDispatchPlan::NtPrismVectorQualified {
        "gemm_bi_nn_prism_m64n64_bk16_s2_v1"
    } else {
        "gemm_bi_nn_m64n64_bk16_s2_v1"
    };
    let params = SgbNnM64N64Params {
        alpha: call.operands.alpha,
        beta: F32_ZERO_BITS,
        m: call.dims.m as i32,
        n: call.dims.k as i32,
        k: call.dims.n as i32,
        lda: call.dims.n as i32,
        ldb: call.dims.k as i32,
        ldc: call.dims.k as i32,
    };
    let args = vec![
        KernelArg::Pointer(call.operands.output),
        KernelArg::Pointer(call.operands.a),
        KernelArg::Pointer(call.workspace.transpose),
        KernelArg::Pointer(0),
        KernelArg::M64N64(params),
    ];
    let built = launch(
        symbol,
        LaunchConfig::linear(grid, 128, SCALAR_NN_M64N64_DYNAMIC_SHARED_BYTES),
        args,
    );
    proof {
        let expected = transposed_m64_step(call, plan);
        assert(built@.args =~= expected->Ok_0.args);
    }
    Ok(built)
}

/// The split-K partial kernel on transposed weights: `columns` output
/// columns, summed over `chunks` 32-wide slices of dY.
pub open spec fn nt_partial_step(
    call: DxCall,
    columns: usize,
    chunks: usize,
    what: &'static str,
) -> Result<LaunchStep, LaunchError> {
    match checked_i32(chunks, what) {
        Err(error) => Err(error),
        Ok(count) => match checked_grid_product(
            div_ceil_u32(call.dims.m as u32, 32),
            div_ceil_u32(columns as u32, 64),
            chunks as u32,
        ) {
            Err(error) => Err(error),
            Ok(grid) => Ok(
                scalar_launch::step(
                    "gemm_bi_nn_splitk32_partial",
                    LaunchConfig::linear(grid, 128, 0),
                    seq![
                        KernelArg::Pointer(call.workspace.split),
                        KernelArg::Pointer(call.operands.a),
                        KernelArg::Pointer(call.workspace.transpose),
                        KernelArg::Int(call.dims.m as i32),
                        KernelArg::Int(columns as i32),
                        KernelArg::Int(count),
                        KernelArg::Int(call.dims.n as i32),
                    ],
                ),
            ),
        },
    }
}

fn build_nt_partial_step(call: DxCall, columns: usize, chunks: usize, what: &'static str) -> (result:
    Result<KernelLaunch, LaunchError>)
    requires
        call.dims.wf(),
        columns <= i32::MAX,
    ensures
        kernel::step_of(result) == nt_partial_step(call, columns, chunks, what),
        result is Ok ==> chunks <= i32::MAX,
{
    let count: i32 = checked_i32(chunks, what)?;
    let grid: u32 = checked_grid_product(
        div_ceil_u32(call.dims.m as u32, 32),
        div_ceil_u32(columns as u32, 64),
        chunks as u32,
    )?;
    let args = vec![
        KernelArg::Pointer(call.workspace.split),
        KernelArg::Pointer(call.operands.a),
        KernelArg::Pointer(call.workspace.transpose),
        KernelArg::Int(call.dims.m as i32),
        KernelArg::Int(columns as i32),
        KernelArg::Int(count),
        KernelArg::Int(call.dims.n as i32),
    ];
    let built = launch(
        "gemm_bi_nn_splitk32_partial",
        LaunchConfig::linear(grid, 128, 0),
        args,
    );
    proof {
        let expected = nt_partial_step(call, columns, chunks, what);
        assert(built@.args =~= expected->Ok_0.args);
    }
    Ok(built)
}

/// The reducer of an input-gradient split-K plan.
pub open spec fn nt_reduce_step(
    call: DxCall,
    outputs: u32,
    columns: usize,
    chunks: i32,
    tail: ReduceTail,
) -> LaunchStep {
    scalar_launch::step(
        "gemm_bi_splitk_reduce",
        reduce_config(outputs),
        scalar_launch::splitk_reduce_args(
            call.operands.output,
            call.workspace.split,
            0,
            call.operands.alpha,
            call.dims.m as i32,
            columns as i32,
            chunks,
            tail,
        ),
    )
}

fn build_nt_reduce_step(
    call: DxCall,
    outputs: u32,
    columns: usize,
    chunks: i32,
    tail: ReduceTail,
) -> (built: KernelLaunch)
    requires
        call.dims.wf(),
        columns <= i32::MAX,
    ensures
        built@ == nt_reduce_step(call, outputs, columns, chunks, tail),
{
    launch(
        "gemm_bi_splitk_reduce",
        reduce_config(outputs),
        build_splitk_reduce_args(
            call.operands.output,
            call.workspace.split,
            0,
            call.operands.alpha,
            call.dims.m as i32,
            columns as i32,
            chunks,
            tail,
        ),
    )
}

/// The reducer of the 32-aligned column prefix of a K-tail plan. Its output
/// rows stay `K` elements apart.
pub open spec fn k_tail_reduce_step(call: DxCall, k_main: usize) -> Result<
    LaunchStep,
    LaunchError,
> {
    if call.dims.m * k_main > usize::MAX {
        Err(LaunchError::InvalidDimensions("NT K-tail output total overflows usize"))
    } else {
        match checked_u32((call.dims.m * k_main) as usize, "NT K-tail output total") {
            Err(error) => Err(error),
            Ok(outputs) => Ok(
                nt_reduce_step(
                    call,
                    outputs,
                    k_main,
                    (call.dims.n / 32) as i32,
                    (ReduceTail { out_stride: call.dims.k as i32, ..scalar_launch::no_tail() }),
                ),
            ),
        }
    }
}

fn build_k_tail_reduce_step(call: DxCall, k_main: usize) -> (result: Result<
    KernelLaunch,
    LaunchError,
>)
    requires
        call.dims.wf(),
        k_main <= i32::MAX,
    ensures
        kernel::step_of(result) == k_tail_reduce_step(call, k_main),
{
    match call.dims.m.checked_mul(k_main) {
        None => Err(LaunchError::InvalidDimensions("NT K-tail output total overflows usize")),
        Some(total) => {
            let outputs: u32 = checked_u32(total, "NT K-tail output total")?;
            let chunks: i32 = (call.dims.n / 32) as i32;
            let tail = ReduceTail {
                x: 0,
                w: 0,
                x_stride: 0,
                out_stride: call.dims.k as i32,
                count: 0,
            };
            Ok(build_nt_reduce_step(call, outputs, k_main, chunks, tail))
        },
    }
}

/// The dot products of one output column with its weight row.
pub open spec fn tail_column_step(call: DxCall, column: int) -> Result<LaunchStep, LaunchError> {
    if column * call.dims.n > usize::MAX {
        Err(LaunchError::InvalidDimensions("W tail row offset overflows usize"))
    } else {
        match scalar_launch::element_address(
            call.operands.b,
            (column * call.dims.n) as usize,
            "W tail row",
        ) {
            Err(error) => Err(error),
            Ok(row) => match checked_i32(column as usize, "NT K-tail column") {
                Err(error) => Err(error),
                Ok(index) => Ok(
                    scalar_launch::step(
                        "gemm_bi_dx_col_gemv",
                        LaunchConfig::linear(div_ceil_u32(call.dims.m as u32, 128), 128, 0),
                        seq![
                            KernelArg::Pointer(call.operands.output),
                            KernelArg::Pointer(call.operands.a),
                            KernelArg::Pointer(row),
                            KernelArg::Int(call.dims.m as i32),
                            KernelArg::Int(call.dims.n as i32),
                            KernelArg::Int(index),
                            KernelArg::Int(call.dims.k as i32),
                        ],
                    ),
                ),
            },
        }
    }
}

fn build_tail_column_step(call: DxCall, column: usize) -> (result: Result<
    KernelLaunch,
    LaunchError,
>)
    requires
        call.dims.wf(),
    ensures
        kernel::step_of(result) == tail_column_step(call, column as int),
        result is Ok ==> column <= i32::MAX,
{
    let elements: usize = match column.checked_mul(call.dims.n) {
        None => {
            return Err(LaunchError::InvalidDimensions("W tail row offset overflows usize"));
        },
        Some(elements) => elements,
    };
    let row: u64 = f32_element_address(call.operands.b, elements, "W tail row")?;
    let index: i32 = checked_i32(column, "NT K-tail column")?;
    let args = vec![
        KernelArg::Pointer(call.operands.output),
        KernelArg::Pointer(call.operands.a),
        KernelArg::Pointer(row),
        KernelArg::Int(call.dims.m as i32),
        KernelArg::Int(call.dims.n as i32),
        KernelArg::Int(index),
        KernelArg::Int(call.dims.k as i32),
    ];
    let built = launch(
        "gemm_bi_dx_col_gemv",
        LaunchConfig::linear(div_ceil_u32(call.dims.m as u32, 128), 128, 0),
        args,
    );
    proof {
        let expected = tail_column_step(call, column as int);
        assert(built@.args =~= expected->Ok_0.args);
    }
    Ok(built)
}

/// Continues a program with `count` single-column launches.
pub open spec fn then_tail_columns(
    program: Program,
    call: DxCall,
    first: int,
    count: nat,
) -> Program
    decreases count,
{
    if count == 0 {
        program
    } else {
        then_tail_columns(program, call, first, (count - 1) as nat).then_launch(
            tail_column_step(call, first + count - 1),
        )
    }
}

proof fn ended_program_stays(program: Program, call: DxCall, first: int, count: nat)
    requires
        program.outcome is Err,
    ensures
        then_tail_columns(program, call, first, count) == program,
    decreases count,
{
    if count > 0 {
        ended_program_stays(program, call, first, (count - 1) as nat);
    }
}

proof fn ended_program_keeps(
    program: Program,
    call: DxCall,
    first: int,
    done: nat,
    count: nat,
)
    requires
        done <= count,
        then_tail_columns(program, call, first, done).outcome is Err,
    ensures
        then_tail_columns(program, call, first, count) == then_tail_columns(
            program,
            call,
            first,
            done,
        ),
    decreases count - done,
{
    if done < count {
        ended_program_keeps(program, call, first, done, (count - 1) as nat);
    }
}

fn build_tail_columns(program: LaunchProgram, call: DxCall, first: usize, count: usize) -> (result:
    LaunchProgram)
    requires
        call.dims.wf(),
        first <= i32::MAX,
    ensures
        result@ == then_tail_columns(program@, call, first as int, count as nat),
{
    if program.outcome.is_err() {
        proof {
            ended_program_stays(program@, call, first as int, count as nat);
        }
        return program;
    }
    let ghost start = program@;
    let mut current = program;
    let mut done: usize = 0;
    while done < count
        invariant
            done <= count,
            call.dims.wf(),
            first <= i32::MAX,
            start == program@,
            current@ == then_tail_columns(start, call, first as int, done as nat),
            done > 0 ==> first + done - 1 <= i32::MAX,
        decreases count - done,
    {
        let column = build_tail_column_step(call, first + done);
        let refused = column.is_err();
        current = current.then_launch(column);
        done = done + 1;
        if refused {
            proof {
                ended_program_keeps(start, call, first as int, done as nat, count as nat);
            }
            return current;
        }
    }
    current
}

/// The tail of dY behind column `n_main` and of the transposed weights
/// behind row `n_main`; nothing where there is no tail.
pub open spec fn nt_tail(call: DxCall, n_main: usize, n_tail: usize) -> Result<
    ReduceTail,
    LaunchError,
> {
    match checked_i32(n_tail, "NT reduction tail") {
        Err(error) => Err(error),
        Ok(count) => if n_tail == 0 {
            Ok(ReduceTail { x: 0, w: 0, x_stride: call.dims.n as i32, out_stride: 0, count })
        } else {
            match scalar_launch::element_address(call.operands.a, n_main, "dY tail") {
                Err(error) => Err(error),
                Ok(x) => if n_main * call.dims.k > usize::MAX {
                    Err(LaunchError::InvalidDimensions("transposed W tail offset overflows usize"))
                } else {
                    match scalar_launch::element_address(
                        call.workspace.transpose,
                        (n_main * call.dims.k) as usize,
                        "transposed W tail",
                    ) {
                        Err(error) => Err(error),
                        Ok(w) => Ok(
                            ReduceTail {
                                x,
                                w,
                                x_stride: call.dims.n as i32,
                                out_stride: 0,
                                count,
                            },
                        ),
                    }
                },
            }
        },
    }
}

fn build_nt_tail(call: DxCall, n_main: usize, n_tail: usize) -> (result: Result<
    ReduceTail,
    LaunchError,
>)
    requires
        call.dims.wf(),
    ensures
        result == nt_tail(call, n_main, n_tail),
{
    let count: i32 = checked_i32(n_tail, "NT reduction tail")?;
    let x_stride: i32 = call.dims.n as i32;
    if n_tail == 0 {
        return Ok(ReduceTail { x: 0, w: 0, x_stride, out_stride: 0, count });
    }
    let x: u64 = f32_element_address(call.operands.a, n_main, "dY tail")?;
    match n_main.checked_mul(call.dims.k) {
        None => Err(LaunchError::InvalidDimensions("transposed W tail offset overflows usize")),
        Some(elements) => {
            let w: u64 = f32_element_address(
                call.workspace.transpose,
                elements,
                "transposed W tail",
            )?;
            Ok(ReduceTail { x, w, x_stride, out_stride: 0, count })
        },
    }
}

/// The reducer of an N-tail plan.
pub open spec fn n_tail_reduce_step(call: DxCall, n_main: usize, n_tail: usize) -> Result<
    LaunchStep,
    LaunchError,
> {
    match nt_tail(call, n_main, n_tail) {
        Err(error) => Err(error),
        Ok(tail) => Ok(
            nt_reduce_step(
                call,
                (call.dims.m * call.dims.k) as u32,
                call.dims.k,
                (n_main / 32) as i32,
                tail,
            ),
        ),
    }
}

/// The partial kernel in 64-wide chunks of dY on transposed weights.
pub open spec fn nt_slim_step(call: DxCall, grid: u32, chunks: u32) -> LaunchStep {
    scalar_launch::step(
        "gemm_bi_nn_splitk_slim_partial",
        (LaunchConfig {
            grid_dim: (grid, 1, chunks),
            block_dim: (128, 1, 1),
            shared_mem_bytes: 0,
        }),
        seq![
            KernelArg::Pointer(call.workspace.split),
            KernelArg::Pointer(call.operands.a),
            KernelArg::Pointer(call.workspace.transpose),
            KernelArg::Int(call.dims.m as i32),
            KernelArg::Int(call.dims.k as i32),
            KernelArg::Int(call.dims.n as i32),
            KernelArg::Int(call.dims.n as i32),
            KernelArg::Int(call.dims.k as i32),
            KernelArg::Int(64),
        ],
    )
}

fn build_nt_slim_step(call: DxCall, grid: u32, chunks: u32) -> (built: KernelLaunch)
    requires
        call.dims.wf(),
    ensures
        built@ == nt_slim_step(call, grid, chunks),
{
    let config = LaunchConfig {
        grid_dim: (grid, 1, chunks),
        block_dim: (128, 1, 1),
        shared_mem_bytes: 0,
    };
    let args = vec![
        KernelArg::Pointer(call.workspace.split),
        KernelArg::Pointer(call.operands.a),
        KernelArg::Pointer(call.workspace.transpose),
        KernelArg::Int(call.dims.m as i32),
        KernelArg::Int(call.dims.k as i32),
        KernelArg::Int(call.dims.n as i32),
        KernelArg::Int(call.dims.n as i32),
        KernelArg::Int(call.dims.k as i32),
        KernelArg::Int(64),
    ];
    let built = launch("gemm_bi_nn_splitk_slim_partial", config, args);
    assert(built@.args =~= nt_slim_step(call, grid, chunks).args);
    built
}

/// The launches of an input-gradient plan, in order.
pub open spec fn dx_program(call: DxCall, plan: ScalarDispatchPlan) -> Program {
    let m = call.dims.m as u32;
    let k = call.dims.k as u32;
    match plan {
        ScalarDispatchPlan::NtM2N16SplitK32Qualified => Program::start().then_launch(
            nt_step(
                call,
                "gemm_bi_nt_m2n16_bk64_splitk32_v1",
                Ok(256),
                SCALAR_NT_M2N16_THREADS,
                SCALAR_NT_M2N16_DYNAMIC_SHARED_BYTES,
            ),
        ),
        ScalarDispatchPlan::NtD768TransposeM64N64Qualified
        | ScalarDispatchPlan::NtD768OutTransposeM64N64Qualified
        | ScalarDispatchPlan::NtLargeDeepTransposeM64N64Qualified
        | ScalarDispatchPlan::NtPrismVectorQualified
        | ScalarDispatchPlan::NtD128OutTransposeM64N64Qualified => match qualified_transpose_fault(
            call,
            plan,
        ) {
            Some(error) => Program::refused(error),
            None => Program::start().then_launch(
                Ok(
                    transpose_step(
                        call,
                        "gemm_bi_transpose_f32_32x16_d768_v1",
                        call.dims.k,
                        16,
                    ),
                ),
            ).then_launch(transposed_m64_step(call, plan)),
        },
        ScalarDispatchPlan::NtNarrow
        | ScalarDispatchPlan::NtSmallBatchWide
        | ScalarDispatchPlan::NtMidBatchWide => Program::start().then_launch(
            nt_step(call, "gemm_bi_nt_narrow", checked_tile_grid(m, 64, k, 32), 128, 0),
        ),
        ScalarDispatchPlan::NtGemv => Program::start().then_launch(Ok(nt_gemv_step(call))),
        ScalarDispatchPlan::NtSplitKTail { k_main, k_tail } => match checked_i32(
            k_main,
            "NT K-tail rows",
        ) {
            Err(error) => Program::refused(error),
            Ok(_) => then_tail_columns(
                Program::start().then_launch(
                    Ok(transpose_step(call, "gemm_bi_transpose_f32_2d", k_main, 32)),
                ).then_launch(
                    nt_partial_step(
                        call,
                        k_main,
                        (call.dims.n / 32) as usize,
                        "NT K-tail chunks",
                    ),
                ).then_launch(k_tail_reduce_step(call, k_main)),
                call,
                k_main as int,
                k_tail as nat,
            ),
        },
        ScalarDispatchPlan::NtSplitKMain { n_main, n_tail } => Program::start().then_launch(
            Ok(transpose_step(call, "gemm_bi_transpose_f32_2d", call.dims.k, 32)),
        ).then_launch(
            nt_partial_step(call, call.dims.k, (n_main / 32) as usize, "NT split-K chunks"),
        ).then_launch(n_tail_reduce_step(call, n_main, n_tail)),
        ScalarDispatchPlan::NtSplitKSlim { chunks } => match checked_tile_grid(m, 128, k, 64) {
            Err(error) => Program::refused(error),
            Ok(grid) => Program::start().then_launch(
                Ok(transpose_step(call, "gemm_bi_transpose_f32_2d", call.dims.k, 32)),
            ).then_launch(Ok(nt_slim_step(call, grid, chunks))).then_launch(
                match checked_i32(chunks as usize, "NT slim split-K chunks") {
                    Err(error) => Err(error),
                    Ok(count) => Ok(
                        nt_reduce_step(
                            call,
                            (call.dims.m * call.dims.k) as u32,
                            call.dims.k,
                            count,
                            scalar_launch::no_tail(),
                        ),
                    ),
                },
            ),
        },
        ScalarDispatchPlan::NtFinal { slim: true } => Program::start().then_launch(
            nt_step(call, "gemm_bi_nt_slim", checked_tile_grid(m, 128, k, 64), 128, 0),
        ),
        _ => Program::start().then_launch(
            nt_step(
                call,
                "gemm_bi_nt",
                checked_tile_grid(m, 128, k, 128),
                256,
                SCALAR_BIG_NT_DYNAMIC_SHARED_BYTES,
            ),
        ),
    }
}

fn build_qualified_transpose(call: DxCall, plan: ScalarDispatchPlan) -> (program: LaunchProgram)
    requires
        call.dims.wf(),
        plan.is_transpose_m64n64(),
    ensures
        program@ == dx_program(call, plan),
{
    let required: usize = match scalar_transpose_scratch_elements(call.request, plan) {
        Err(error) => {
            return LaunchProgram::refused(error);
        },
        Ok(Some(required)) => required,
        Ok(None) => 0,
    };
    if call.workspace.transpose_len != SCALAR_TRANSPOSE_SCRATCH_CAP_ELEMENTS {
        return LaunchProgram::refused(
            LaunchError::TransposeScratchCapacity(
                "qualified scalar NT transpose scratch",
                call.workspace.transpose_len,
                required,
            ),
        );
    }
    let transpose = build_transpose_step(
        call,
        "gemm_bi_transpose_f32_32x16_d768_v1",
        call.dims.k,
        16,
    );
    LaunchProgram::start().then_launch(Ok(transpose)).then_launch(
        build_transposed_m64_step(call, plan),
    )
}

fn build_k_tail(call: DxCall, k_main: usize, k_tail: usize) -> (program: LaunchProgram)
    requires
        call.dims.wf(),
    ensures
        program@ == dx_program(call, ScalarDispatchPlan::NtSplitKTail { k_main, k_tail }),
{
    match checked_i32(k_main, "NT K-tail rows") {
        Err(error) => {
            return LaunchProgram::refused(error);
        },
        Ok(_) => {},
    }
    let transpose = build_transpose_step(call, "gemm_bi_transpose_f32_2d", k_main, 32);
    let partial = build_nt_partial_step(call, k_main, call.dims.n / 32, "NT K-tail chunks");
    let main = LaunchProgram::start().then_launch(Ok(transpose)).then_launch(partial).then_launch(
        build_k_tail_reduce_step(call, k_main),
    );
    build_tail_columns(main, call, k_main, k_tail)
}

fn build_n_tail(call: DxCall, n_main: usize, n_tail: usize) -> (program: LaunchProgram)
    requires
        call.dims.wf(),
    ensures
        program@ == dx_program(call, ScalarDispatchPlan::NtSplitKMain { n_main, n_tail }),
{
    let transpose = build_transpose_step(call, "gemm_bi_transpose_f32_2d", call.dims.k, 32);
    let partial = build_nt_partial_step(call, call.dims.k, n_main / 32, "NT split-K chunks");
    if partial.is_err() {
        return LaunchProgram::start().then_launch(Ok(transpose)).then_launch(partial);
    }
    let outputs: u32 = call.dims.m as u32 * call.dims.k as u32;
    let reduce = match build_nt_tail(call, n_main, n_tail) {
        Err(error) => Err(error),
        Ok(tail) => Ok(
            build_nt_reduce_step(call, outputs, call.dims.k, (n_main / 32) as i32, tail),
        ),
    };
    LaunchProgram::start().then_launch(Ok(transpose)).then_launch(partial).then_launch(reduce)
}

fn build_nt_slim(call: DxCall, chunks: u32) -> (program: LaunchProgram)
    requires
        call.dims.wf(),
    ensures
        program@ == dx_program(call, ScalarDispatchPlan::NtSplitKSlim { chunks }),
{
    let grid: u32 = match checked_tile_grid(call.dims.m as u32, 128, call.dims.k as u32, 64) {
        Err(error) => {
            return LaunchProgram::refused(error);
        },
        Ok(grid) => grid,
    };
    let transpose = build_transpose_step(call, "gemm_bi_transpose_f32_2d", call.dims.k, 32);
    let outputs: u32 = call.dims.m as u32 * call.dims.k as u32;
    let reduce = match checked_i32(chunks as usize, "NT slim split-K chunks") {
        Err(error) => Err(error),
        Ok(count) => Ok(build_nt_reduce_step(call, outputs, call.dims.k, count, without_tail())),
    };
    LaunchProgram::start().then_launch(Ok(transpose)).then_launch(
        Ok(build_nt_slim_step(call, grid, chunks)),
    ).then_launch(reduce)
}

fn build_dx_program(call: DxCall, plan: ScalarDispatchPlan) -> (program: LaunchProgram)
    requires
        call.dims.wf(),
        plan.op() is Nt,
    ensures
        program@ == dx_program(call, plan),
{
    let m: u32 = call.dims.m as u32;
    let k: u32 = call.dims.k as u32;
    let start = LaunchProgram::start();
    match plan {
        ScalarDispatchPlan::NtM2N16SplitK32Qualified => start.then_launch(
            build_nt_step(
                call,
                "gemm_bi_nt_m2n16_bk64_splitk32_v1",
                Ok(256),
                SCALAR_NT_M2N16_THREADS,
                SCALAR_NT_M2N16_DYNAMIC_SHARED_BYTES,
            ),
        ),
        ScalarDispatchPlan::NtD768TransposeM64N64Qualified
        | ScalarDispatchPlan::NtD768OutTransposeM64N64Qualified
        | ScalarDispatchPlan::NtLargeDeepTransposeM64N64Qualified
        | ScalarDispatchPlan::NtPrismVectorQualified
        | ScalarDispatchPlan::NtD128OutTransposeM64N64Qualified => build_qualified_transpose(
            call,
            plan,
        ),
        ScalarDispatchPlan::NtNarrow
        | ScalarDispatchPlan::NtSmallBatchWide
        | ScalarDispatchPlan::NtMidBatchWide => {
            let grid = checked_tile_grid(m, 64, k, 32);
            start.then_launch(build_nt_step(call, "gemm_bi_nt_narrow", grid, 128, 0))
        },
        ScalarDispatchPlan::NtGemv => start.then_launch(Ok(build_nt_gemv_step(call))),
        ScalarDispatchPlan::NtSplitKTail { k_main, k_tail } => build_k_tail(call, k_main, k_tail),
        ScalarDispatchPlan::NtSplitKMain { n_main, n_tail } => build_n_tail(call, n_main, n_tail),
        ScalarDispatchPlan::NtSplitKSlim { chunks } => build_nt_slim(call, chunks),
        ScalarDispatchPlan::NtFinal { slim: true } => {
            let grid = checked_tile_grid(m, 128, k, 64);
            start.then_launch(build_nt_step(call, "gemm_bi_nt_slim", grid, 128, 0))
        },
        _ => {
            let grid = checked_tile_grid(m, 128, k, 128);
            start.then_launch(
                build_nt_step(call, "gemm_bi_nt", grid, 256, SCALAR_BIG_NT_DYNAMIC_SHARED_BYTES),
            )
        },
    }
}

/// The operands that an input-gradient product launches. It overwrites.
pub open spec fn dx_operands(
    dx: u64,
    dy: u64,
    w_ptr: u64,
    prepared: Option<PreparedScalar>,
) -> F32TriadOperands {
    F32TriadOperands {
        output: dx,
        a: dy,
        b: w_ptr,
        bias: None,
        alpha: match prepared {
            Some(prepared) => prepared.operands.alpha,
            None => F32_ONE_BITS,
        },
        beta: F32_ZERO_BITS,
    }
}

/// The launches of an input-gradient product.
///
/// The extents are checked first. A prepared launch must hold the very
/// operands that are launched; its plan is then used as it is. Otherwise the
/// selected plan is used, or the selection's refusal is passed on.
pub open spec fn backward_dx_program(
    dx: u64,
    dy: u64,
    w_ptr: u64,
    dims: (usize, usize, usize),
    prepared: Option<PreparedScalar>,
    selected: Result<ScalarDispatchPlan, LaunchError>,
    workspace: ScalarWorkspace,
) -> Program {
    match scalar_dw::backward_request(ResolvedGemmOp::Nt, dims) {
        Err(error) => Program::refused(error),
        Ok((checked, request)) => {
            let operands = dx_operands(dx, dy, w_ptr, prepared);
            match scalar_forward::used_plan(prepared, selected) {
                Err(error) => Program::refused(error),
                Ok(plan) => if prepared matches Some(prepared) && prepared.operands != operands {
                    Program::refused(
                        LaunchError::Rejected(
                            "prepared NT operands differ from the physical launch arguments",
                        ),
                    )
                } else {
                    dx_program((DxCall { dims: checked, request, operands, workspace }), plan)
                },
            }
        },
    }
}

/// Input gradient, with the plan of a prepared launch where there is one.
pub fn gemm_bi_backward_dx_with_control(
    dx: u64,
    dy: u64,
    w_ptr: u64,
    dims: (usize, usize, usize),
    prepared: Option<PreparedScalar>,
    selected: Result<ScalarDispatchPlan, LaunchError>,
    workspace: ScalarWorkspace,
) -> (program: LaunchProgram)
    requires
        scalar_forward::used_plan(prepared, selected) matches Ok(plan) ==> plan.op() is Nt,
    ensures
        program@ == backward_dx_program(dx, dy, w_ptr, dims, prepared, selected, workspace),
{
    let (checked, request) = match scalar_backward_request(ResolvedGemmOp::Nt, dims) {
        Err(error) => {
            return LaunchProgram::refused(error);
        },
        Ok(found) => found,
    };
    let alpha: u32 = match prepared {
        Some(prepared) => prepared.operands.alpha,
        None => F32_ONE_BITS,
    };
    let operands = F32TriadOperands {
        output: dx,
        a: dy,
        b: w_ptr,
        bias: None,
        alpha,
        beta: F32_ZERO_BITS,
    };
    let plan = match prepared {
        Some(prepared) => {
            if prepared.operands != operands {
                return LaunchProgram::refused(
                    LaunchError::Rejected(
                        "prepared NT operands differ from the physical launch arguments",
                    ),
                );
            }
            prepared.plan
        },
        None => match selected {
            Ok(plan) => plan,
            Err(error) => {
                return LaunchProgram::refused(error);
            },
        },
    };
    build_dx_program(DxCall { dims: checked, request, operands, workspace }, plan)
}

/// Input gradient `dX[M,K] = dY[M,N] @ W^T[N,K]`.
pub fn gemm_bi_backward_dx(
    dx: u64,
    dy: u64,
    w_ptr: u64,
    dims: (usize, usize, usize),
    selected: Result<ScalarDispatchPlan, LaunchError>,
    workspace: ScalarWorkspace,
) -> (program: LaunchProgram)
    requires
        selected matches Ok(plan) ==> plan.op() is Nt,
    ensures
        program@ == backward_dx_program(dx, dy, w_ptr, dims, None, selected, workspace),
{
    gemm_bi_backward_dx_with_control(dx, dy, w_ptr, dims, None, selected, workspace)
}

} // verus!
