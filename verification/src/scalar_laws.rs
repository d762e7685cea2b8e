//! What the frozen plans and the launch programs promise of each other.

use crate::arith;
use crate::arith::checked_grid_product;
use crate::error::LaunchError;
use crate::kernel::{KernelArg, LaunchStep, Program};
use crate::params::SgbNnM64N64Params;
use crate::scalar_dw;
use crate::scalar_dw::DwCall;
use crate::scalar_dx;
use crate::scalar_dx::DxCall;
use crate::scalar_forward;
use crate::scalar_forward::{ForwardCall, GemmBiFwdSubOperands};
use crate::scalar_launch::{PreparedScalar, ScalarWorkspace};
use crate::scalar_nodes;
use crate::scalar_nodes::{NodeGeometry, ScalarNodeSpec};
use crate::scalar_plan;
use crate::scalar_plan::ScalarDispatchPlan;
use crate::shape::{F32TriadOperands, F32TriadRequest, GemmDims, F32_ONE_BITS, F32_ZERO_BITS};
use vstd::prelude::*;

verus! {

/// The parameters of a plan divide the extent that they split, and an exact
/// plan is used on its own extents.
pub open spec fn plan_fits(plan: ScalarDispatchPlan, dims: GemmDims) -> bool {
    match plan {
        ScalarDispatchPlan::NnSplitKThinTail { k_main, k_tail } => k_main + k_tail == dims.k,
        ScalarDispatchPlan::NtSplitKTail { k_main, k_tail } => k_main + k_tail == dims.k,
        ScalarDispatchPlan::NtSplitKMain { n_main, n_tail } => n_main + n_tail == dims.n,
        ScalarDispatchPlan::NnM32N64SplitK32Qualified => dims.m == 128 && dims.k == 8_192 && dims.n
            == 128,
        _ => true,
    }
}

/// The request names the extents that were checked.
pub open spec fn same_extents(request: F32TriadRequest, dims: GemmDims) -> bool {
    request.shape.m == dims.m && request.shape.k == dims.k && request.shape.n == dims.n
}

/// A program launches exactly the kernels of a geometry list, in order.
pub open spec fn launches_geometry(program: Program, nodes: Seq<NodeGeometry>) -> bool {
    &&& program.launches.len() == nodes.len()
    &&& forall|i: int|
        0 <= i < nodes.len() ==> (#[trigger] program.launches[i]).symbol == nodes[i].symbol
            && program.launches[i].config == nodes[i].config
}

/// A program launches exactly the frozen kernels, in order.
pub open spec fn launches_nodes(program: Program, nodes: Seq<ScalarNodeSpec>) -> bool {
    &&& program.launches.len() == nodes.len()
    &&& forall|i: int|
        0 <= i < nodes.len() ==> (#[trigger] program.launches[i]).symbol == nodes[i].symbol
            && program.launches[i].config == nodes[i].launch.config()
}

proof fn frozen_nodes_follow_geometry(
    request: F32TriadRequest,
    operands: F32TriadOperands,
    plan: ScalarDispatchPlan,
    dims: GemmDims,
    program: Program,
)
    requires
        dims.wf(),
        same_extents(request, dims),
        scalar_nodes::node_geometry(
            operands,
            plan,
            dims.m as u32,
            dims.k as u32,
            dims.n as u32,
        ) matches Ok(nodes) && launches_geometry(program, nodes),
    ensures
        scalar_nodes::physical_nodes(request, operands, plan) matches Ok(nodes) && launches_nodes(
            program,
            nodes,
        ),
        program.launches.len() == scalar_plan::node_count(plan),
{
    scalar_nodes::node_geometry_len(
        operands,
        plan,
        dims.m as u32,
        dims.k as u32,
        dims.n as u32,
    );
}

/// A forward product that completes launches exactly the kernels that its
/// plan freezes, with the same geometry and in the same order.
#[verifier::spinoff_prover]
#[verifier::rlimit(60)]
pub proof fn forward_launches_its_frozen_nodes(
    call: ForwardCall,
    plan: ScalarDispatchPlan,
    request: F32TriadRequest,
    operands: F32TriadOperands,
)
    requires
        call.dims.wf(),
        plan.op() is Nn,
        plan_fits(plan, call.dims),
        same_extents(request, call.dims),
        scalar_forward::forward_program(call, plan).outcome is Ok,
    ensures
        scalar_nodes::physical_nodes(request, operands, plan) matches Ok(nodes) && launches_nodes(
            scalar_forward::forward_program(call, plan),
            nodes,
        ),
        scalar_forward::forward_program(call, plan).launches.len() == scalar_plan::node_count(plan),
{
    let program = scalar_forward::forward_program(call, plan);
    let m = call.dims.m as u32;
    let k = call.dims.k as u32;
    let n = call.dims.n as u32;
    match plan {
        ScalarDispatchPlan::NnM32N64SplitK32Qualified => {
            assert(arith::ceil_div(128, 32) == 4);
            assert(arith::ceil_div(128, 64) == 2);
            assert(arith::ceil_div(16_384, 256) == 64);
            assert(call.dims.m * call.dims.n == 16_384) by (nonlinear_arith)
                requires
                    call.dims.m == 128,
                    call.dims.n == 128,
            ;
            assert(call.dims.k / 32 == 256);
            assert(checked_grid_product(4, 2, 256) == Ok::<u32, LaunchError>(2_048));
            let nodes = scalar_nodes::node_geometry(operands, plan, m, k, n)->Ok_0;
            assert(program.launches[0].config == nodes[0].config);
            assert(program.launches[1].config == nodes[1].config);
            assert(launches_geometry(program, nodes));
        },
        _ => {},
    }
    frozen_nodes_follow_geometry(request, operands, plan, call.dims, program);
}

/// A weight gradient that completes launches exactly the kernels that its
/// plan freezes, with the same geometry and in the same order.
#[verifier::spinoff_prover]
#[verifier::rlimit(60)]
pub proof fn dw_launches_its_frozen_nodes(
    call: DwCall,
    plan: ScalarDispatchPlan,
    request: F32TriadRequest,
)
    requires
        call.dims.wf(),
        plan.op() is Tn,
        same_extents(request, call.dims),
        scalar_dw::dw_program(call, plan).outcome is Ok,
    ensures
        scalar_nodes::physical_nodes(request, call.operands, plan) matches Ok(nodes)
            && launches_nodes(scalar_dw::dw_program(call, plan), nodes),
        scalar_dw::dw_program(call, plan).launches.len() == scalar_plan::node_count(plan),
{
    let program = scalar_dw::dw_program(call, plan);
    frozen_nodes_follow_geometry(request, call.operands, plan, call.dims, program);
}

/// The single-column launches of a completed program are appended in column
/// order, one for every column.
pub proof fn tail_columns_are_appended_in_order(
    program: Program,
    call: DxCall,
    first: int,
    count: nat,
)
    requires
        scalar_dx::then_tail_columns(program, call, first, count).outcome is Ok,
    ensures
        program.outcome is Ok,
        scalar_dx::then_tail_columns(program, call, first, count).launches.len()
            == program.launches.len() + count,
        forall|i: int|
            0 <= i < program.launches.len() ==> (#[trigger] scalar_dx::then_tail_columns(
                program,
                call,
                first,
                count,
            ).launches[i]) == program.launches[i],
        forall|i: int|
            program.launches.len() <= i < program.launches.len() + count ==> Ok::<
                LaunchStep,
                LaunchError,
            >(
                #[trigger] scalar_dx::then_tail_columns(program, call, first, count).launches[i],
            ) == scalar_dx::tail_column_step(call, first + i - program.launches.len()),
    decreases count,
{
    if count > 0 {
        let before = scalar_dx::then_tail_columns(program, call, first, (count - 1) as nat);
        assert(before.outcome is Ok);
        tail_columns_are_appended_in_order(program, call, first, (count - 1) as nat);
    }
}

/// An input gradient that completes launches exactly the kernels that its
/// plan freezes, with the same geometry and in the same order.
#[verifier::spinoff_prover]
#[verifier::rlimit(60)]
pub proof fn dx_launches_its_frozen_nodes(call: DxCall, plan: ScalarDispatchPlan)
    requires
        call.dims.wf(),
        plan.op() is Nt,
        plan_fits(plan, call.dims),
        same_extents(call.request, call.dims),
        scalar_dx::dx_program(call, plan).outcome is Ok,
    ensures
        scalar_nodes::physical_nodes(call.request, call.operands, plan) matches Ok(nodes)
            && launches_nodes(scalar_dx::dx_program(call, plan), nodes),
        scalar_dx::dx_program(call, plan).launches.len() == scalar_plan::node_count(plan),
{
    let program = scalar_dx::dx_program(call, plan);
    let m = call.dims.m as u32;
    let k = call.dims.k as u32;
    let n = call.dims.n as u32;
    match plan {
        ScalarDispatchPlan::NtSplitKTail { k_main, k_tail } => {
            let base = Program::start().then_launch(
                Ok(scalar_dx::transpose_step(call, "gemm_bi_transpose_f32_2d", k_main, 32)),
            ).then_launch(
                scalar_dx::nt_partial_step(
                    call,
                    k_main,
                    (call.dims.n / 32) as usize,
                    "NT K-tail chunks",
                ),
            ).then_launch(scalar_dx::k_tail_reduce_step(call, k_main));
            tail_columns_are_appended_in_order(base, call, k_main as int, k_tail as nat);
            assert((call.dims.n / 32) as u32 == n / 32);
        },
        _ => {},
    }
    frozen_nodes_follow_geometry(call.request, call.operands, plan, call.dims, program);
}

/// The argument at a position is a null pointer.
pub open spec fn is_null_pointer(args: Seq<KernelArg>, position: int) -> bool {
    0 <= position < args.len() && args[position] == KernelArg::Pointer(0)
}

/// One bit per null pointer among the leading arguments of a launch.
pub open spec fn null_pointers(args: Seq<KernelArg>) -> int {
    (if is_null_pointer(args, 0) { 1int } else { 0 }) + (if is_null_pointer(args, 1) {
        2int
    } else {
        0
    }) + (if is_null_pointer(args, 2) { 4int } else { 0 }) + (if is_null_pointer(args, 3) {
        8int
    } else {
        0
    }) + (if is_null_pointer(args, 4) { 16int } else { 0 })
}

/// The null-pointer mask of every launch of a program is the one that the
/// argument layout of the plan records.
pub open spec fn masks_tracked(
    program: Program,
    request: F32TriadRequest,
    operands: F32TriadOperands,
    plan: ScalarDispatchPlan,
) -> bool {
    forall|i: int|
        0 <= i < program.launches.len() ==> null_pointers((#[trigger] program.launches[i]).args)
            == scalar_plan::argument_layout(request, operands, plan, i).null_pointer_mask
}

/// On usable pointers, the recorded null-pointer mask of every forward
/// launch has exactly the bits of its null pointer arguments.
#[verifier::spinoff_prover]
#[verifier::rlimit(60)]
pub proof fn forward_masks_track_the_pointer_abi(
    call: ForwardCall,
    plan: ScalarDispatchPlan,
    request: F32TriadRequest,
)
    requires
        plan.op() is Nn,
        call.output != 0,
        call.operands.x_ptr != 0,
        call.operands.w_ptr != 0,
        call.split != 0,
    ensures
        masks_tracked(
            scalar_forward::forward_program(call, plan),
            request,
            scalar_forward::forward_operands(call.output, call.operands, call.alpha, call.beta),
            plan,
        ),
{
}

/// On usable pointers, the recorded null-pointer mask of every
/// weight-gradient launch has exactly the bits of its null pointers.
pub proof fn dw_masks_track_the_pointer_abi(
    call: DwCall,
    plan: ScalarDispatchPlan,
    request: F32TriadRequest,
)
    requires
        plan.op() is Tn,
        call.operands.output != 0,
        call.operands.a != 0,
        call.operands.b != 0,
        call.split != 0,
    ensures
        masks_tracked(scalar_dw::dw_program(call, plan), request, call.operands, plan),
{
}

proof fn tail_column_masks(
    program: Program,
    call: DxCall,
    first: int,
    count: nat,
    plan: ScalarDispatchPlan,
)
    requires
        plan is NtSplitKTail,
        call.operands.output != 0,
        call.operands.a != 0,
        call.operands.b != 0,
        program.outcome is Ok ==> program.launches.len() == 3,
        program.launches.len() <= 3,
        masks_tracked(program, call.request, call.operands, plan),
        first >= 0,
    ensures
        masks_tracked(
            scalar_dx::then_tail_columns(program, call, first, count),
            call.request,
            call.operands,
            plan,
        ),
        scalar_dx::then_tail_columns(program, call, first, count).launches.len() >= 3
            || scalar_dx::then_tail_columns(program, call, first, count).outcome is Err,
    decreases count,
{
    if count > 0 {
        tail_column_masks(program, call, first, (count - 1) as nat, plan);
    }
}

/// On usable pointers, the recorded null-pointer mask of every
/// input-gradient launch has exactly the bits of its null pointers.
#[verifier::spinoff_prover]
#[verifier::rlimit(60)]
pub proof fn dx_masks_track_the_pointer_abi(call: DxCall, plan: ScalarDispatchPlan)
    requires
        plan.op() is Nt,
        call.operands.bias is None,
        call.operands.output != 0,
        call.operands.a != 0,
        call.operands.b != 0,
        call.workspace.split != 0,
        call.workspace.transpose != 0,
    ensures
        masks_tracked(scalar_dx::dx_program(call, plan), call.request, call.operands, plan),
{
    match plan {
        ScalarDispatchPlan::NtSplitKTail { k_main, k_tail } => {
            let base = Program::start().then_launch(
                Ok(scalar_dx::transpose_step(call, "gemm_bi_transpose_f32_2d", k_main, 32)),
            ).then_launch(
                scalar_dx::nt_partial_step(
                    call,
                    k_main,
                    (call.dims.n / 32) as usize,
                    "NT K-tail chunks",
                ),
            ).then_launch(scalar_dx::k_tail_reduce_step(call, k_main));
            assert(masks_tracked(base, call.request, call.operands, plan));
            tail_column_masks(base, call, k_main as int, k_tail as nat, plan);
        },
        _ => {},
    }
}

/// The tail addresses that a forward reducer reads are the operand bases
/// plus the recorded byte offsets.
pub proof fn forward_tail_offsets_are_recorded(
    call: ForwardCall,
    k_main: usize,
    k_tail: usize,
    request: F32TriadRequest,
    operands: F32TriadOperands,
)
    requires
        request.shape.n == call.dims.n,
        scalar_forward::forward_tail(call, k_main, k_tail) is Ok,
    ensures
        ({
            let tail = scalar_forward::forward_tail(call, k_main, k_tail)->Ok_0;
            let layout = scalar_plan::argument_layout(
                request,
                operands,
                ScalarDispatchPlan::NnSplitKThinTail { k_main, k_tail },
                1,
            );
            &&& tail.x == call.operands.x_ptr + layout.a_offset
            &&& tail.w == call.operands.w_ptr + layout.b_offset
        }),
{
}

/// The tail addresses that an input-gradient reducer reads are the bases of
/// dY and of the transposed weights plus the recorded byte offsets.
pub proof fn dx_tail_offsets_are_recorded(call: DxCall, n_main: usize, n_tail: usize)
    requires
        n_tail > 0,
        call.request.shape.k == call.dims.k,
        scalar_dx::nt_tail(call, n_main, n_tail) is Ok,
    ensures
        ({
            let tail = scalar_dx::nt_tail(call, n_main, n_tail)->Ok_0;
            let layout = scalar_plan::argument_layout(
                call.request,
                call.operands,
                ScalarDispatchPlan::NtSplitKMain { n_main, n_tail },
                2,
            );
            &&& tail.x == call.operands.a + layout.a_offset
            &&& tail.w == call.workspace.transpose + layout.b_offset
        }),
{
}

/// A single-column launch reads the weight row at the recorded byte offset
/// and writes the recorded output column.
pub proof fn dx_column_offsets_are_recorded(
    call: DxCall,
    k_main: usize,
    k_tail: usize,
    column: int,
)
    requires
        0 <= column < k_tail,
        k_main + k_tail <= usize::MAX,
        call.request.shape.n == call.dims.n,
        scalar_dx::tail_column_step(call, k_main + column) is Ok,
    ensures
        ({
            let args = scalar_dx::tail_column_step(call, k_main + column)->Ok_0.args;
            let layout = scalar_plan::argument_layout(
                call.request,
                call.operands,
                ScalarDispatchPlan::NtSplitKTail { k_main, k_tail },
                3 + column,
            );
            &&& args[2] matches KernelArg::Pointer(row) && row == call.operands.b + layout.b_offset
            &&& args[5] matches KernelArg::Int(index) && layout.output_column == Some(index as u64)
        }),
{
}

/// No launch of a program has more arguments than a limit.
pub open spec fn arguments_bounded(program: Program, limit: int) -> bool {
    forall|i: int|
        0 <= i < program.launches.len() ==> (#[trigger] program.launches[i]).args.len() <= limit
}

/// No forward launch has more than thirteen arguments.
pub proof fn forward_arguments_bounded(call: ForwardCall, plan: ScalarDispatchPlan)
    ensures
        arguments_bounded(scalar_forward::forward_program(call, plan), 13),
{
}

/// No weight-gradient launch has more than eight arguments.
pub proof fn dw_arguments_bounded(call: DwCall, plan: ScalarDispatchPlan)
    ensures
        arguments_bounded(scalar_dw::dw_program(call, plan), 8),
{
}

proof fn tail_column_arguments_bounded(program: Program, call: DxCall, first: int, count: nat)
    requires
        arguments_bounded(program, 12),
    ensures
        arguments_bounded(scalar_dx::then_tail_columns(program, call, first, count), 12),
    decreases count,
{
    if count > 0 {
        tail_column_arguments_bounded(program, call, first, (count - 1) as nat);
    }
}

/// No input-gradient launch has more than twelve arguments.
pub proof fn dx_arguments_bounded(call: DxCall, plan: ScalarDispatchPlan)
    ensures
        arguments_bounded(scalar_dx::dx_program(call, plan), 12),
{
    match plan {
        ScalarDispatchPlan::NtSplitKTail { k_main, k_tail } => {
            let base = Program::start().then_launch(
                Ok(scalar_dx::transpose_step(call, "gemm_bi_transpose_f32_2d", k_main, 32)),
            ).then_launch(
                scalar_dx::nt_partial_step(
                    call,
                    k_main,
                    (call.dims.n / 32) as usize,
                    "NT K-tail chunks",
                ),
            ).then_launch(scalar_dx::k_tail_reduce_step(call, k_main));
            assert(arguments_bounded(base, 12));
            tail_column_arguments_bounded(base, call, k_main as int, k_tail as nat);
        },
        _ => {},
    }
}

/// Where the tensors and the workspaces of a product lie. A null bias is no
/// bias.
pub struct Buffers {
    pub output: u64,
    pub a: u64,
    pub b: u64,
    pub bias: u64,
    pub split: u64,
    pub transpose: u64,
}

/// The buffers of a forward product.
pub open spec fn forward_buffers(call: ForwardCall) -> Buffers {
    Buffers {
        output: call.output,
        a: call.operands.x_ptr,
        b: call.operands.w_ptr,
        bias: call.operands.bias_ptr,
        split: call.split,
        transpose: 0,
    }
}

/// The buffers of an input gradient.
pub open spec fn dx_buffers(call: DxCall) -> Buffers {
    Buffers {
        output: call.operands.output,
        a: call.operands.a,
        b: call.operands.b,
        bias: 0,
        split: call.workspace.split,
        transpose: call.workspace.transpose,
    }
}

/// Two pointers stand at the same place of the same buffer, or both are
/// null.
pub open spec fn same_place(
    left: u64,
    left_buffers: Buffers,
    right: u64,
    right_buffers: Buffers,
) -> bool {
    ||| left == 0 && right == 0
    ||| left - left_buffers.output == right - right_buffers.output
    ||| left - left_buffers.a == right - right_buffers.a
    ||| left - left_buffers.b == right - right_buffers.b
    ||| left - left_buffers.bias == right - right_buffers.bias
    ||| left - left_buffers.split == right - right_buffers.split
    ||| left - left_buffers.transpose == right - right_buffers.transpose
}

/// Two argument lists that differ only in where the buffers lie and where
/// they name the number of rows.
pub open spec fn rows_aside(
    left: Seq<KernelArg>,
    left_rows: usize,
    left_buffers: Buffers,
    right: Seq<KernelArg>,
    right_rows: usize,
    right_buffers: Buffers,
) -> bool {
    &&& left.len() == right.len()
    &&& forall|j: int|
        0 <= j < left.len() ==> (match (#[trigger] left[j], right[j]) {
            (KernelArg::Pointer(l), KernelArg::Pointer(r)) => same_place(
                l,
                left_buffers,
                r,
                right_buffers,
            ),
            (KernelArg::Pointer(_), _) => false,
            _ => left[j] == right[j] || (left[j] == KernelArg::Int(left_rows as i32) && right[j]
                == KernelArg::Int(right_rows as i32)) || (left[j] matches KernelArg::M64N64(params)
                && params.m == left_rows as i32 && right[j] == KernelArg::M64N64(
                SgbNnM64N64Params { m: right_rows as i32, ..params },
            )),
        })
}

/// Two programs that run the same kernels in the same order, with the same
/// blocks and shared memory and with arguments that name no other reduction.
pub open spec fn same_reduction_order(
    left: Program,
    left_rows: usize,
    left_buffers: Buffers,
    right: Program,
    right_rows: usize,
    right_buffers: Buffers,
) -> bool {
    &&& left.launches.len() == right.launches.len()
    &&& forall|i: int|
        0 <= i < left.launches.len() ==> {
            &&& (#[trigger] left.launches[i]).symbol == right.launches[i].symbol
            &&& left.launches[i].config.block_dim == right.launches[i].config.block_dim
            &&& left.launches[i].config.shared_mem_bytes
                == right.launches[i].config.shared_mem_bytes
            &&& rows_aside(
                left.launches[i].args,
                left_rows,
                left_buffers,
                right.launches[i].args,
                right_rows,
                right_buffers,
            )
        }
}

/// Two forward products of the same layers on other batches and in other
/// buffers: a bias is there in both or in neither.
pub open spec fn other_batch(left: ForwardCall, right: ForwardCall) -> bool {
    &&& right.dims == (GemmDims { m: right.dims.m, ..left.dims })
    &&& right.operands.lda == left.operands.lda
    &&& right.alpha == left.alpha
    &&& right.beta == left.beta
    &&& (right.operands.bias_ptr == 0) == (left.operands.bias_ptr == 0)
}

/// Batch sizes that a forward product routes to one plan share its kernels
/// and their reduction: the batch enters the arguments only as the row
/// count. It does not matter where the two batches lie.
#[verifier::spinoff_prover]
#[verifier::rlimit(60)]
pub proof fn forward_reduction_is_batch_invariant(
    left: ForwardCall,
    right: ForwardCall,
    plan: ScalarDispatchPlan,
)
    requires
        other_batch(left, right),
        plan.op() is Nn,
        scalar_forward::forward_program(left, plan).outcome is Ok,
        scalar_forward::forward_program(right, plan).outcome is Ok,
    ensures
        same_reduction_order(
            scalar_forward::forward_program(left, plan),
            left.dims.m,
            forward_buffers(left),
            scalar_forward::forward_program(right, plan),
            right.dims.m,
            forward_buffers(right),
        ),
{
}

/// Two argument lists that differ only in where the X rows lie and in the
/// distance between them.
pub open spec fn stride_aside(
    left: Seq<KernelArg>,
    left_x: u64,
    left_stride: usize,
    right: Seq<KernelArg>,
    right_x: u64,
    right_stride: usize,
) -> bool {
    &&& left.len() == right.len()
    &&& forall|j: int|
        0 <= j < left.len() ==> (#[trigger] left[j]) == right[j] || (left[j]
            matches KernelArg::Pointer(l) && right[j] matches KernelArg::Pointer(r) && l - left_x
            == r - right_x) || (left[j] == KernelArg::Int(left_stride as i32) && right[j]
            == KernelArg::Int(right_stride as i32)) || (left[j] matches KernelArg::M64N64(params)
            && params.lda == left_stride as i32 && right[j] == KernelArg::M64N64(
            SgbNnM64N64Params { lda: right_stride as i32, ..params },
        ))
}

/// The columns of X behind the main part of a plan have 64-bit addresses.
pub open spec fn x_tail_addressable(x_ptr: u64, plan: ScalarDispatchPlan) -> bool {
    match plan {
        ScalarDispatchPlan::NnSplitKThinTail { k_main, .. } => x_ptr + k_main * 4 <= u64::MAX,
        _ => true,
    }
}

/// A forward product over strided X rows runs the kernels of the product
/// over a packed copy of them, on the same geometry and the same arguments
/// but for the copy's address and the row stride. It is refused where that
/// is, for the same reason. The copy may lie anywhere; its tail must be
/// addressable where the tail of the strided rows is.
#[verifier::spinoff_prover]
#[verifier::rlimit(60)]
pub proof fn strided_rows_change_the_stride_alone(
    output: u64,
    operands: GemmBiFwdSubOperands,
    copy: u64,
    dims: (usize, usize, usize),
    plan: ScalarDispatchPlan,
    workspace: ScalarWorkspace,
)
    requires
        plan.op() is Nn,
        GemmDims::resolve(dims, operands.lda, dims.1) is Ok,
        x_tail_addressable(operands.x_ptr, plan) == x_tail_addressable(copy, plan),
    ensures
        ({
            let strided = scalar_forward::forward_sub_program(
                output,
                operands,
                dims,
                None,
                Ok(plan),
                workspace,
            );
            let packed = scalar_forward::forward_sub_program(
                output,
                GemmBiFwdSubOperands { x_ptr: copy, lda: dims.1, ..operands },
                dims,
                None,
                Ok(plan),
                workspace,
            );
            &&& strided.outcome == packed.outcome
            &&& strided.launches.len() == packed.launches.len()
            &&& forall|i: int|
                0 <= i < strided.launches.len() ==> {
                    &&& (#[trigger] strided.launches[i]).symbol == packed.launches[i].symbol
                    &&& strided.launches[i].config == packed.launches[i].config
                    &&& stride_aside(
                        strided.launches[i].args,
                        operands.x_ptr,
                        operands.lda,
                        packed.launches[i].args,
                        copy,
                        dims.1,
                    )
                }
        }),
{
}

/// Two input gradients of the same layers on other batches and in other
/// buffers.
pub open spec fn other_dx_batch(left: DxCall, right: DxCall) -> bool {
    &&& right.dims == (GemmDims { m: right.dims.m, ..left.dims })
    &&& right.operands.alpha == left.operands.alpha
    &&& right.operands.beta == left.operands.beta
}

/// The part of a K-tail program before its single-column launches.
spec fn k_tail_base(call: DxCall, k_main: usize) -> Program {
    Program::start().then_launch(
        Ok(scalar_dx::transpose_step(call, "gemm_bi_transpose_f32_2d", k_main, 32)),
    ).then_launch(
        scalar_dx::nt_partial_step(
            call,
            k_main,
            (call.dims.n / 32) as usize,
            "NT K-tail chunks",
        ),
    ).then_launch(scalar_dx::k_tail_reduce_step(call, k_main))
}

proof fn k_tail_reduction_is_batch_invariant(
    left: DxCall,
    right: DxCall,
    k_main: usize,
    k_tail: usize,
)
    requires
        other_dx_batch(left, right),
        scalar_dx::dx_program(left, ScalarDispatchPlan::NtSplitKTail { k_main, k_tail }).outcome
            is Ok,
        scalar_dx::dx_program(right, ScalarDispatchPlan::NtSplitKTail { k_main, k_tail }).outcome
            is Ok,
    ensures
        same_reduction_order(
            scalar_dx::dx_program(left, ScalarDispatchPlan::NtSplitKTail { k_main, k_tail }),
            left.dims.m,
            dx_buffers(left),
            scalar_dx::dx_program(right, ScalarDispatchPlan::NtSplitKTail { k_main, k_tail }),
            right.dims.m,
            dx_buffers(right),
        ),
{
    let plan = ScalarDispatchPlan::NtSplitKTail { k_main, k_tail };
    let l = scalar_dx::dx_program(left, plan);
    let r = scalar_dx::dx_program(right, plan);
    let l_base = k_tail_base(left, k_main);
    let r_base = k_tail_base(right, k_main);
    tail_columns_are_appended_in_order(l_base, left, k_main as int, k_tail as nat);
    tail_columns_are_appended_in_order(r_base, right, k_main as int, k_tail as nat);
    assert(same_reduction_order(
        l_base,
        left.dims.m,
        dx_buffers(left),
        r_base,
        right.dims.m,
        dx_buffers(right),
    ));
    assert forall|i: int| 0 <= i < l.launches.len() implies {
        &&& (#[trigger] l.launches[i]).symbol == r.launches[i].symbol
        &&& l.launches[i].config.block_dim == r.launches[i].config.block_dim
        &&& l.launches[i].config.shared_mem_bytes == r.launches[i].config.shared_mem_bytes
        &&& rows_aside(
            l.launches[i].args,
            left.dims.m,
            dx_buffers(left),
            r.launches[i].args,
            right.dims.m,
            dx_buffers(right),
        )
    } by {
        if i < 3 {
            assert(l.launches[i] == l_base.launches[i]);
            assert(r.launches[i] == r_base.launches[i]);
        } else {
            let column = k_main + i - 3;
            assert(Ok::<LaunchStep, LaunchError>(l.launches[i]) == scalar_dx::tail_column_step(
                left,
                column,
            ));
            assert(Ok::<LaunchStep, LaunchError>(r.launches[i]) == scalar_dx::tail_column_step(
                right,
                column,
            ));
        }
    }
}

#[verifier::spinoff_prover]
#[verifier::rlimit(60)]
proof fn transposed_reduction_is_batch_invariant(
    left: DxCall,
    right: DxCall,
    plan: ScalarDispatchPlan,
)
    requires
        other_dx_batch(left, right),
        plan.is_transpose_m64n64(),
        scalar_dx::dx_program(left, plan).outcome is Ok,
        scalar_dx::dx_program(right, plan).outcome is Ok,
    ensures
        same_reduction_order(
            scalar_dx::dx_program(left, plan),
            left.dims.m,
            dx_buffers(left),
            scalar_dx::dx_program(right, plan),
            right.dims.m,
            dx_buffers(right),
        ),
{
    assert(scalar_dx::qualified_transpose_fault(left, plan) is None);
    assert(scalar_dx::qualified_transpose_fault(right, plan) is None);
}

#[verifier::spinoff_prover]
#[verifier::rlimit(60)]
proof fn main_reduction_is_batch_invariant(
    left: DxCall,
    right: DxCall,
    plan: ScalarDispatchPlan,
)
    requires
        other_dx_batch(left, right),
        plan is NtSplitKMain,
        scalar_dx::dx_program(left, plan).outcome is Ok,
        scalar_dx::dx_program(right, plan).outcome is Ok,
    ensures
        same_reduction_order(
            scalar_dx::dx_program(left, plan),
            left.dims.m,
            dx_buffers(left),
            scalar_dx::dx_program(right, plan),
            right.dims.m,
            dx_buffers(right),
        ),
{
}

#[verifier::spinoff_prover]
#[verifier::rlimit(60)]
proof fn slim_reduction_is_batch_invariant(
    left: DxCall,
    right: DxCall,
    plan: ScalarDispatchPlan,
)
    requires
        other_dx_batch(left, right),
        plan is NtSplitKSlim,
        scalar_dx::dx_program(left, plan).outcome is Ok,
        scalar_dx::dx_program(right, plan).outcome is Ok,
    ensures
        same_reduction_order(
            scalar_dx::dx_program(left, plan),
            left.dims.m,
            dx_buffers(left),
            scalar_dx::dx_program(right, plan),
            right.dims.m,
            dx_buffers(right),
        ),
{
}

#[verifier::spinoff_prover]
#[verifier::rlimit(60)]
proof fn direct_reduction_is_batch_invariant(
    left: DxCall,
    right: DxCall,
    plan: ScalarDispatchPlan,
)
    requires
        other_dx_batch(left, right),
        plan.op() is Nt,
        !plan.is_transpose_m64n64(),
        !(plan is NtSplitKTail),
        !(plan is NtSplitKMain),
        !(plan is NtSplitKSlim),
        scalar_dx::dx_program(left, plan).outcome is Ok,
        scalar_dx::dx_program(right, plan).outcome is Ok,
    ensures
        same_reduction_order(
            scalar_dx::dx_program(left, plan),
            left.dims.m,
            dx_buffers(left),
            scalar_dx::dx_program(right, plan),
            right.dims.m,
            dx_buffers(right),
        ),
{
}

/// Batch sizes that an input gradient routes to one plan share its kernels
/// and their reduction: the batch enters the arguments only as the row
/// count. It does not matter where the two batches lie.
pub proof fn dx_reduction_is_batch_invariant(
    left: DxCall,
    right: DxCall,
    plan: ScalarDispatchPlan,
)
    requires
        other_dx_batch(left, right),
        plan.op() is Nt,
        scalar_dx::dx_program(left, plan).outcome is Ok,
        scalar_dx::dx_program(right, plan).outcome is Ok,
    ensures
        same_reduction_order(
            scalar_dx::dx_program(left, plan),
            left.dims.m,
            dx_buffers(left),
            scalar_dx::dx_program(right, plan),
            right.dims.m,
            dx_buffers(right),
        ),
{
    match plan {
        ScalarDispatchPlan::NtSplitKTail { k_main, k_tail } => {
            k_tail_reduction_is_batch_invariant(left, right, k_main, k_tail);
        },
        ScalarDispatchPlan::NtSplitKMain { .. } => {
            main_reduction_is_batch_invariant(left, right, plan);
        },
        ScalarDispatchPlan::NtSplitKSlim { .. } => {
            slim_reduction_is_batch_invariant(left, right, plan);
        },
        _ => if plan.is_transpose_m64n64() {
            transposed_reduction_is_batch_invariant(left, right, plan);
        } else {
            direct_reduction_is_batch_invariant(left, right, plan);
        },
    }
}

/// A prepared forward launch that froze unscaled factors runs exactly the
/// program of the raw launch.
pub proof fn prepared_forward_is_the_raw_forward(
    output: u64,
    operands: GemmBiFwdSubOperands,
    dims: (usize, usize, usize),
    plan: ScalarDispatchPlan,
    selected: Result<ScalarDispatchPlan, LaunchError>,
    workspace: ScalarWorkspace,
)
    ensures
        scalar_forward::forward_sub_program(
            output,
            operands,
            dims,
            Some(
                PreparedScalar {
                    plan,
                    operands: scalar_forward::forward_operands(
                        output,
                        operands,
                        F32_ONE_BITS,
                        F32_ZERO_BITS,
                    ),
                },
            ),
            selected,
            workspace,
        ) == scalar_forward::forward_sub_program(
            output,
            operands,
            dims,
            None,
            Ok(plan),
            workspace,
        ),
{
}

/// A prepared weight gradient that froze an unscaled product runs exactly
/// the program of the raw launch.
pub proof fn prepared_dw_is_the_raw_dw(
    dw_ptr: u64,
    dy: u64,
    x_saved: u64,
    dims: (usize, usize, usize),
    plan: ScalarDispatchPlan,
    selected: Result<ScalarDispatchPlan, LaunchError>,
    workspace: ScalarWorkspace,
)
    ensures
        scalar_dw::backward_dw_program(
            dw_ptr,
            dy,
            x_saved,
            dims,
            Some(
                PreparedScalar {
                    plan,
                    operands: F32TriadOperands {
                        output: dw_ptr,
                        a: x_saved,
                        b: dy,
                        bias: None,
                        alpha: F32_ONE_BITS,
                        beta: F32_ONE_BITS,
                    },
                },
            ),
            selected,
            workspace,
        ) == scalar_dw::backward_dw_program(
            dw_ptr,
            dy,
            x_saved,
            dims,
            None,
            Ok(plan),
            workspace,
        ),
{
}

/// A prepared input gradient that froze an unscaled product runs exactly the
/// program of the raw launch.
pub proof fn prepared_dx_is_the_raw_dx(
    dx: u64,
    dy: u64,
    w_ptr: u64,
    dims: (usize, usize, usize),
    plan: ScalarDispatchPlan,
    selected: Result<ScalarDispatchPlan, LaunchError>,
    workspace: ScalarWorkspace,
)
    ensures
        scalar_dx::backward_dx_program(
            dx,
            dy,
            w_ptr,
            dims,
            Some(
                PreparedScalar { plan, operands: scalar_dx::dx_operands(dx, dy, w_ptr, None) },
            ),
            selected,
            workspace,
        ) == scalar_dx::backward_dx_program(dx, dy, w_ptr, dims, None, Ok(plan), workspace),
{
}

/// A prepared launch whose operands changed in any pointer or factor bit
/// enqueues nothing.
pub proof fn changed_operands_enqueue_nothing(
    output: u64,
    operands: GemmBiFwdSubOperands,
    dims: (usize, usize, usize),
    prepared: PreparedScalar,
    selected: Result<ScalarDispatchPlan, LaunchError>,
    workspace: ScalarWorkspace,
)
    requires
        prepared.operands != scalar_forward::forward_operands(
            output,
            operands,
            prepared.operands.alpha,
            prepared.operands.beta,
        ),
    ensures
        scalar_forward::forward_sub_program(
            output,
            operands,
            dims,
            Some(prepared),
            selected,
            workspace,
        ).launches.len() == 0,
        scalar_forward::forward_sub_program(
            output,
            operands,
            dims,
            Some(prepared),
            selected,
            workspace,
        ).outcome is Err,
{
}

} // verus!
