//! When a scalar product completes, and what it has launched then.

use crate::arith;
use crate::error::LaunchError;
use crate::kernel::{LaunchStep, Program};
use crate::scalar_dw;
use crate::scalar_dw::DwCall;
use crate::scalar_dx;
use crate::scalar_dx::DxCall;
use crate::scalar_forward;
use crate::scalar_forward::{ForwardCall, GemmBiFwdSubOperands};
use crate::scalar_launch::{PreparedScalar, ScalarWorkspace};
use crate::scalar_laws;
use crate::scalar_nodes;
use crate::scalar_nodes::ScalarNodeSpec;
use crate::scalar_plan;
use crate::scalar_plan::{ScalarDispatchPlan, SCALAR_TRANSPOSE_SCRATCH_CAP_ELEMENTS};
use crate::shape::{
    validate_bias_preseed, F32TriadOperands, F32TriadRequest, F32TriadShape, GemmDims,
    ResolvedGemmOp, F32_ONE_BITS, F32_ZERO_BITS,
};
use vstd::prelude::*;

verus! {

/// The counts that a plan hands to its kernels are signed arguments, and an
/// X row that is staged in shared memory has a 32-bit size.
pub open spec fn counts_fit(plan: ScalarDispatchPlan, dims: GemmDims) -> bool {
    match plan {
        ScalarDispatchPlan::NnUltraThin => dims.k * 4 <= u32::MAX,
        ScalarDispatchPlan::NnSplitKSlim { chunks }
        | ScalarDispatchPlan::NtSplitKSlim { chunks } => chunks <= i32::MAX,
        ScalarDispatchPlan::TnNarrowSplitM { m_chunk, chunks }
        | ScalarDispatchPlan::TnSplitM { m_chunk, chunks } => m_chunk <= i32::MAX && chunks
            <= i32::MAX,
        _ => true,
    }
}

/// The tails that a forward plan reads have 64-bit addresses.
pub open spec fn forward_tail_addressable(call: ForwardCall, plan: ScalarDispatchPlan) -> bool {
    match plan {
        ScalarDispatchPlan::NnSplitKThinTail { k_main, .. } => {
            &&& call.operands.x_ptr + k_main * 4 <= u64::MAX
            &&& call.operands.w_ptr + k_main * call.dims.n * 4 <= u64::MAX
        },
        _ => true,
    }
}

/// The tails that an input-gradient plan reads have 64-bit addresses.
pub open spec fn dx_tail_addressable(call: DxCall, plan: ScalarDispatchPlan) -> bool {
    match plan {
        ScalarDispatchPlan::NtSplitKTail { k_main, k_tail } => k_tail > 0 ==> call.operands.b + (
        k_main + k_tail - 1) * call.dims.n * 4 <= u64::MAX,
        ScalarDispatchPlan::NtSplitKMain { n_main, n_tail } => n_tail > 0 ==> {
            &&& call.operands.a + n_main * 4 <= u64::MAX
            &&& call.workspace.transpose + n_main * call.dims.k * 4 <= u64::MAX
        },
        _ => true,
    }
}

/// The transpose workspace of a qualified plan has its frozen capacity, and
/// the weights fit it.
pub open spec fn transpose_suffices(call: DxCall, plan: ScalarDispatchPlan) -> bool {
    plan.is_transpose_m64n64() ==> {
        &&& scalar_plan::transpose_scratch_elements(call.request, plan) is Ok
        &&& call.workspace.transpose_len == SCALAR_TRANSPOSE_SCRATCH_CAP_ELEMENTS
    }
}

proof fn parts_are_no_larger(part: int, whole: int, other: int)
    requires
        0 <= part <= whole,
        0 <= other,
    ensures
        0 <= part * other <= whole * other,
{
    assert(0 <= part * other <= whole * other) by (nonlinear_arith)
        requires
            0 <= part <= whole,
            0 <= other,
    ;
}

/// A forward product whose plan splits its extents and whose launches are
/// frozen completes exactly where its tails can be addressed. It has then
/// launched the frozen kernels, once each and in order.
#[verifier::spinoff_prover]
#[verifier::rlimit(60)]
pub proof fn frozen_forward_completes(
    call: ForwardCall,
    plan: ScalarDispatchPlan,
    request: F32TriadRequest,
    operands: F32TriadOperands,
    nodes: Seq<ScalarNodeSpec>,
)
    requires
        call.dims.wf(),
        plan.op() is Nn,
        scalar_laws::plan_fits(plan, call.dims),
        counts_fit(plan, call.dims),
        scalar_laws::same_extents(request, call.dims),
        scalar_nodes::physical_nodes(request, operands, plan) == Ok::<
            Seq<ScalarNodeSpec>,
            LaunchError,
        >(nodes),
    ensures
        scalar_forward::forward_program(call, plan).outcome is Ok == forward_tail_addressable(
            call,
            plan,
        ),
        forward_tail_addressable(call, plan) ==> scalar_laws::launches_nodes(
            scalar_forward::forward_program(call, plan),
            nodes,
        ),
{
    match plan {
        ScalarDispatchPlan::NnSplitKThinTail { k_main, .. } => {
            parts_are_no_larger(k_main as int, call.dims.k as int, call.dims.n as int);
        },
        ScalarDispatchPlan::NnM32N64SplitK32Qualified => {
            assert(arith::ceil_div(128, 32) == 4);
            assert(arith::ceil_div(128, 64) == 2);
        },
        _ => {},
    }
    if scalar_forward::forward_program(call, plan).outcome is Ok {
        scalar_laws::forward_launches_its_frozen_nodes(call, plan, request, operands);
    }
}

/// A weight gradient whose launches are frozen completes. It has then
/// launched the frozen kernels, once each and in order.
#[verifier::spinoff_prover]
#[verifier::rlimit(60)]
pub proof fn frozen_dw_completes(
    call: DwCall,
    plan: ScalarDispatchPlan,
    request: F32TriadRequest,
    nodes: Seq<ScalarNodeSpec>,
)
    requires
        call.dims.wf(),
        plan.op() is Tn,
        counts_fit(plan, call.dims),
        scalar_laws::same_extents(request, call.dims),
        scalar_nodes::physical_nodes(request, call.operands, plan) == Ok::<
            Seq<ScalarNodeSpec>,
            LaunchError,
        >(nodes),
    ensures
        scalar_dw::dw_program(call, plan).outcome is Ok,
        scalar_laws::launches_nodes(scalar_dw::dw_program(call, plan), nodes),
{
    scalar_laws::dw_launches_its_frozen_nodes(call, plan, request);
}

proof fn tail_column_completes(call: DxCall, column: int)
    requires
        call.dims.wf(),
        0 <= column < call.dims.k,
    ensures
        scalar_dx::tail_column_step(call, column) is Ok == (call.operands.b + column * call.dims.n
            * 4 <= u64::MAX),
{
    parts_are_no_larger(column, call.dims.k as int, call.dims.n as int);
}

proof fn tail_columns_complete(program: Program, call: DxCall, first: int, count: nat)
    requires
        call.dims.wf(),
        0 <= first,
        first + count <= call.dims.k,
        program.outcome is Ok,
        count > 0 ==> call.operands.b + (first + count - 1) * call.dims.n * 4 <= u64::MAX,
    ensures
        scalar_dx::then_tail_columns(program, call, first, count).outcome is Ok,
    decreases count,
{
    if count > 0 {
        let last = first + count - 1;
        tail_column_completes(call, last);
        if count > 1 {
            parts_are_no_larger(last - 1, last, call.dims.n as int);
        }
        tail_columns_complete(program, call, first, (count - 1) as nat);
    }
}

/// An input gradient whose plan splits its extents and whose launches are
/// frozen completes exactly where its tails can be addressed and its
/// transpose workspace suffices. It has then launched the frozen kernels,
/// once each and in order.
#[verifier::spinoff_prover]
#[verifier::rlimit(60)]
pub proof fn frozen_dx_completes(
    call: DxCall,
    plan: ScalarDispatchPlan,
    nodes: Seq<ScalarNodeSpec>,
)
    requires
        call.dims.wf(),
        plan.op() is Nt,
        scalar_laws::plan_fits(plan, call.dims),
        counts_fit(plan, call.dims),
        scalar_laws::same_extents(call.request, call.dims),
        scalar_nodes::physical_nodes(call.request, call.operands, plan) == Ok::<
            Seq<ScalarNodeSpec>,
            LaunchError,
        >(nodes),
    ensures
        scalar_dx::dx_program(call, plan).outcome is Ok == (dx_tail_addressable(call, plan)
            && transpose_suffices(call, plan)),
        dx_tail_addressable(call, plan) && transpose_suffices(call, plan)
            ==> scalar_laws::launches_nodes(scalar_dx::dx_program(call, plan), nodes),
{
    match plan {
        ScalarDispatchPlan::NtSplitKTail { k_main, k_tail } => {
            parts_are_no_larger(k_main as int, call.dims.k as int, call.dims.m as int);
            assert(call.dims.m * k_main == k_main * call.dims.m) by (nonlinear_arith);
            assert(call.dims.m * call.dims.k == call.dims.k * call.dims.m) by (nonlinear_arith);
            let base = Program::start().then_launch(
                Ok(scalar_dx::transpose_step(call, "gemm_bi_transpose_f32_2d", k_main, 32)),
            ).then_launch(
                scalar_dx::nt_partial_step(
                    call,
                    k_main,
                    (call.dims.n / 32) as usize,
                    "NT K-tail chunks",
                ),
            ).then_launch(scalar_dx::k_tail_reduce_step(call, k_main));
            assert((call.dims.n / 32) as u32 == call.dims.n as u32 / 32);
            assert(base.outcome is Ok);
            let program = scalar_dx::then_tail_columns(base, call, k_main as int, k_tail as nat);
            if dx_tail_addressable(call, plan) {
                tail_columns_complete(base, call, k_main as int, k_tail as nat);
            } else {
                let last = k_main + k_tail - 1;
                tail_column_completes(call, last);
                if program.outcome is Ok {
                    scalar_laws::tail_columns_are_appended_in_order(
                        base,
                        call,
                        k_main as int,
                        k_tail as nat,
                    );
                    assert(Ok::<LaunchStep, LaunchError>(
                        program.launches[base.launches.len() + k_tail - 1],
                    ) == scalar_dx::tail_column_step(call, last));
                }
            }
        },
        ScalarDispatchPlan::NtSplitKMain { n_main, .. } => {
            parts_are_no_larger(n_main as int, call.dims.n as int, call.dims.k as int);
            assert(call.dims.n * call.dims.k == call.dims.k * call.dims.n) by (nonlinear_arith);
        },
        _ => {},
    }
    if scalar_dx::dx_program(call, plan).outcome is Ok {
        scalar_laws::dx_launches_its_frozen_nodes(call, plan);
    }
}

/// A prepared forward product is held against what was prepared before
/// anything is launched. On the very operands it launches the frozen kernels
/// of its plan, once each and in order, wherever a bias may be seeded and
/// its tails can be addressed.
pub proof fn prepared_forward_launches_its_nodes(
    output: u64,
    operands: GemmBiFwdSubOperands,
    dims: (usize, usize, usize),
    prepared: PreparedScalar,
    selected: Result<ScalarDispatchPlan, LaunchError>,
    workspace: ScalarWorkspace,
    request: F32TriadRequest,
    nodes: Seq<ScalarNodeSpec>,
)
    requires
        GemmDims::resolve(dims, operands.lda, dims.1) is Ok,
        prepared.plan.op() is Nn,
        scalar_laws::plan_fits(
            prepared.plan,
            GemmDims { m: dims.0, k: dims.1, n: dims.2, lda: operands.lda },
        ),
        counts_fit(
            prepared.plan,
            GemmDims { m: dims.0, k: dims.1, n: dims.2, lda: operands.lda },
        ),
        request.shape.m == dims.0,
        request.shape.k == dims.1,
        request.shape.n == dims.2,
        scalar_nodes::physical_nodes(request, prepared.operands, prepared.plan) == Ok::<
            Seq<ScalarNodeSpec>,
            LaunchError,
        >(nodes),
    ensures
        ({
            let program = scalar_forward::forward_sub_program(
                output,
                operands,
                dims,
                Some(prepared),
                selected,
                workspace,
            );
            let call = scalar_forward::forward_call(
                GemmDims { m: dims.0, k: dims.1, n: dims.2, lda: operands.lda },
                output,
                operands,
                Some(prepared),
                workspace,
            );
            if prepared.operands != scalar_forward::forward_operands(
                output,
                operands,
                prepared.operands.alpha,
                prepared.operands.beta,
            ) || validate_bias_preseed(prepared.operands.alpha, operands.bias_ptr) is Err {
                program.outcome is Err && program.launches.len() == 0
            } else {
                &&& program.outcome is Ok == forward_tail_addressable(call, prepared.plan)
                &&& program.outcome is Ok ==> scalar_laws::launches_nodes(program, nodes)
            }
        }),
{
    let checked = GemmDims { m: dims.0, k: dims.1, n: dims.2, lda: operands.lda };
    let call = scalar_forward::forward_call(
        checked,
        output,
        operands,
        Some(prepared),
        workspace,
    );
    frozen_forward_completes(call, prepared.plan, request, prepared.operands, nodes);
}

/// A prepared weight gradient is held against what was prepared before
/// anything is launched; it accumulates, without a bias. On the very
/// operands it launches the frozen kernels of its plan, once each and in
/// order.
pub proof fn prepared_dw_launches_its_nodes(
    dw_ptr: u64,
    dy: u64,
    x_saved: u64,
    dims: (usize, usize, usize),
    prepared: PreparedScalar,
    selected: Result<ScalarDispatchPlan, LaunchError>,
    workspace: ScalarWorkspace,
    nodes: Seq<ScalarNodeSpec>,
)
    requires
        GemmDims::resolve(dims, dims.1, dims.1) is Ok,
        prepared.plan.op() is Tn,
        counts_fit(prepared.plan, GemmDims { m: dims.0, k: dims.1, n: dims.2, lda: dims.1 }),
        scalar_nodes::physical_nodes(
            F32TriadRequest {
                op: ResolvedGemmOp::Tn,
                shape: F32TriadShape::contiguous(ResolvedGemmOp::Tn, dims),
            },
            prepared.operands,
            prepared.plan,
        ) == Ok::<Seq<ScalarNodeSpec>, LaunchError>(nodes),
    ensures
        ({
            let program = scalar_dw::backward_dw_program(
                dw_ptr,
                dy,
                x_saved,
                dims,
                Some(prepared),
                selected,
                workspace,
            );
            if prepared.operands != (F32TriadOperands {
                output: dw_ptr,
                a: x_saved,
                b: dy,
                bias: None,
                alpha: prepared.operands.alpha,
                beta: F32_ONE_BITS,
            }) {
                program.outcome is Err && program.launches.len() == 0
            } else {
                program.outcome is Ok && scalar_laws::launches_nodes(program, nodes)
            }
        }),
{
    let checked = GemmDims { m: dims.0, k: dims.1, n: dims.2, lda: dims.1 };
    let call = scalar_dw::dw_call(checked, dw_ptr, dy, x_saved, Some(prepared), workspace);
    if prepared.operands == call.operands {
        let request = F32TriadRequest {
            op: ResolvedGemmOp::Tn,
            shape: F32TriadShape::contiguous(ResolvedGemmOp::Tn, dims),
        };
        frozen_dw_completes(call, prepared.plan, request, nodes);
    }
}

/// A prepared input gradient is held against what was prepared before
/// anything is launched; it overwrites, without a bias. On the very operands
/// it launches the frozen kernels of its plan, once each and in order,
/// wherever its tails can be addressed and its transpose workspace suffices.
pub proof fn prepared_dx_launches_its_nodes(
    dx: u64,
    dy: u64,
    w_ptr: u64,
    dims: (usize, usize, usize),
    prepared: PreparedScalar,
    selected: Result<ScalarDispatchPlan, LaunchError>,
    workspace: ScalarWorkspace,
    nodes: Seq<ScalarNodeSpec>,
)
    requires
        GemmDims::resolve(dims, dims.2, dims.2) is Ok,
        prepared.plan.op() is Nt,
        scalar_laws::plan_fits(
            prepared.plan,
            GemmDims { m: dims.0, k: dims.1, n: dims.2, lda: dims.2 },
        ),
        counts_fit(prepared.plan, GemmDims { m: dims.0, k: dims.1, n: dims.2, lda: dims.2 }),
        scalar_nodes::physical_nodes(
            F32TriadRequest {
                op: ResolvedGemmOp::Nt,
                shape: F32TriadShape::contiguous(ResolvedGemmOp::Nt, dims),
            },
            prepared.operands,
            prepared.plan,
        ) == Ok::<Seq<ScalarNodeSpec>, LaunchError>(nodes),
    ensures
        ({
            let program = scalar_dx::backward_dx_program(
                dx,
                dy,
                w_ptr,
                dims,
                Some(prepared),
                selected,
                workspace,
            );
            let operands = F32TriadOperands {
                output: dx,
                a: dy,
                b: w_ptr,
                bias: None,
                alpha: prepared.operands.alpha,
                beta: F32_ZERO_BITS,
            };
            let call = DxCall {
                dims: GemmDims { m: dims.0, k: dims.1, n: dims.2, lda: dims.2 },
                request: F32TriadRequest {
                    op: ResolvedGemmOp::Nt,
                    shape: F32TriadShape::contiguous(ResolvedGemmOp::Nt, dims),
                },
                operands,
                workspace,
            };
            if prepared.operands != operands {
                program.outcome is Err && program.launches.len() == 0
            } else {
                &&& program.outcome is Ok == (dx_tail_addressable(call, prepared.plan)
                    && transpose_suffices(call, prepared.plan))
                &&& program.outcome is Ok ==> scalar_laws::launches_nodes(program, nodes)
            }
        }),
{
    let request = F32TriadRequest {
        op: ResolvedGemmOp::Nt,
        shape: F32TriadShape::contiguous(ResolvedGemmOp::Nt, dims),
    };
    let call = DxCall {
        dims: GemmDims { m: dims.0, k: dims.1, n: dims.2, lda: dims.2 },
        request,
        operands: scalar_dx::dx_operands(dx, dy, w_ptr, Some(prepared)),
        workspace,
    };
    if prepared.operands == call.operands {
        frozen_dx_completes(call, prepared.plan, nodes);
    }
}

} // verus!
