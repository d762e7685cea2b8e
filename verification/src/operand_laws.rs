//! Operands, workspaces and argument bytes fit the products that use them.

use crate::arguments;
use crate::control;
use crate::device::Kernel;
use crate::digest;
use crate::digest::Sha256Digest;
use crate::error::LaunchError;
use crate::f32_enqueue;
use crate::f32_launch;
use crate::f32_launch::ScalarPhysicalGraphDispatch;
use crate::f32_prepare;
use crate::f32_prepare::ScalarScratchResources;
use crate::half_launch::HalfGemmObservation;
use crate::half_routes;
use crate::half_routes::HalfAllocations;
use crate::identity::WeightDtype;
use crate::kernel::KernelArg;
use crate::params;
use crate::params::{
    SgbNnM64N64Params, SgbZeroReductionParams, Sm100KernelParams, Sm120FmaKernelParams,
    Sm120KernelParams, Sm80Tf32KernelParams, Sm90aTf32KernelParams,
};
use crate::scalar_dx_products;
use crate::scalar_forward;
use crate::scalar_forward::GemmBiFwdSubOperands;
use crate::scalar_launch::{PreparedScalar, ScalarWorkspace};
use crate::scalar_plan;
use crate::scalar_plan::ScalarDispatchPlan;
use crate::scalar_products;
use crate::shape;
use crate::shape::{
    F32TriadOperands, F32TriadRequest, F32TriadShape, GemmDims, ResolvedGemmOp,
    F32_NEGATIVE_ZERO_BITS, F32_ONE_BITS, F32_ZERO_BITS,
};
use crate::tf32_plan::Tf32PhysicalRoute;
use vstd::prelude::*;

verus! {

/// The rows and columns of the A, B and C matrices of a product as they stand
/// in memory.
pub open spec fn stored_extents(op: ResolvedGemmOp, m: int, k: int, n: int) -> (
    (int, int),
    (int, int),
    (int, int),
) {
    match op {
        ResolvedGemmOp::Nn => ((m, k), (k, n), (m, n)),
        ResolvedGemmOp::Tn => ((m, k), (m, n), (k, n)),
        ResolvedGemmOp::Nt => ((m, n), (k, n), (m, k)),
    }
}

/// The rows of a packed product follow each other without a gap, and the sum
/// runs over the extent that both inputs have.
pub proof fn packed_shapes_have_no_gaps(op: ResolvedGemmOp, dims: (usize, usize, usize))
    ensures
        ({
            let shape = F32TriadShape::contiguous(op, dims);
            let (a, b, c) = stored_extents(op, dims.0 as int, dims.1 as int, dims.2 as int);
            &&& shape.m == dims.0 && shape.k == dims.1 && shape.n == dims.2
            &&& shape.lda == a.1
            &&& shape.ldb == b.1
            &&& shape.ldc == c.1
            &&& shape.output_rows(op) == c.0
            &&& shape.output_columns(op) == c.1
            &&& shape.reduction(op) == (match op {
                ResolvedGemmOp::Nn => a.1,
                ResolvedGemmOp::Tn => a.0,
                ResolvedGemmOp::Nt => a.1,
            })
            &&& shape.reduction(op) == (match op {
                ResolvedGemmOp::Nn => b.0,
                ResolvedGemmOp::Tn => b.0,
                ResolvedGemmOp::Nt => b.1,
            })
        }),
{
}

/// The spans that a half-precision launch is identified by hold its matrices:
/// inputs and outputs in half precision, weight gradients and the bias in
/// single precision.
pub proof fn spans_hold_the_matrices(observation: HalfGemmObservation)
    requires
        observation.dtype == WeightDtype::Bf16 || observation.dtype == WeightDtype::F16,
    ensures
        ({
            let spans = half_routes::argument_spans(observation);
            let (m, k, n) = observation.dims;
            let (a, b, c) = stored_extents(observation.op, m as int, k as int, n as int);
            &&& spans.output matches Ok(bytes) ==> bytes == c.0 * c.1 * (if observation.op is Tn {
                4int
            } else {
                2int
            })
            &&& spans.a matches Ok(bytes) ==> bytes == a.0 * a.1 * 2
            &&& spans.b matches Ok(bytes) ==> bytes == b.0 * b.1 * 2
            &&& spans.bias is Some <==> observation.arguments.bias != 0
            &&& spans.bias matches Some(Ok(bytes)) ==> bytes == c.1 * 4
        }),
{
    let (m, k, n) = observation.dims;
    let (a, b, c) = stored_extents(observation.op, m as int, k as int, n as int);
    assert(a.0 * a.1 >= 0 && b.0 * b.1 >= 0 && c.0 * c.1 >= 0) by (nonlinear_arith)
        requires
            a.0 >= 0,
            a.1 >= 0,
            b.0 >= 0,
            b.1 >= 0,
            c.0 >= 0,
            c.1 >= 0,
    ;
}

/// The allocations of a half-precision launch are those behind its tensors:
/// each is asked for with the pointer and the bytes of the tensor that it
/// identifies.
pub proof fn answers_are_of_the_tensors<
    Identify: Fn(u64, u64) -> Result<Sha256Digest, LaunchError>,
>(
    observation: HalfGemmObservation,
    identify: Identify,
    answered: HalfAllocations,
)
    requires
        observation.dtype == WeightDtype::Bf16 || observation.dtype == WeightDtype::F16,
        half_routes::allocations_answered(observation, identify, Ok(answered)),
    ensures
        ({
            let tensors = observation.arguments;
            let (m, k, n) = observation.dims;
            let (a, b, c) = stored_extents(observation.op, m as int, k as int, n as int);
            let width = if observation.op is Tn {
                4int
            } else {
                2int
            };
            let asked = |pointer: u64, bytes: int, digest: Sha256Digest|
                call_ensures(
                    identify,
                    (pointer, bytes as u64),
                    Ok::<Sha256Digest, LaunchError>(digest),
                );
            &&& asked(tensors.output, c.0 * c.1 * width, answered.output)
            &&& asked(tensors.a, a.0 * a.1 * 2, answered.a)
            &&& asked(tensors.b, b.0 * b.1 * 2, answered.b)
            &&& tensors.bias != 0 ==> asked(tensors.bias, c.1 * 4, answered.bias)
        }),
{
    spans_hold_the_matrices(observation);
}

/// A kernel leaves partial sums behind its workspace.
pub open spec fn sums_chunks(kernel: Kernel) -> bool {
    kernel is Chunks32 || kernel is ChunksSlim || kernel is ChunksOfRows
}

/// A plan has a workspace exactly where one of its kernels uses it: partial
/// sums take the split workspace, transposed weights the other. A forward plan
/// that folds its output, and an input gradient on transposed weights or in a
/// fixed grid, overwrites it.
pub proof fn plans_have_the_workspaces_of_their_kernels(
    plan: ScalarDispatchPlan,
    operands: F32TriadOperands,
)
    ensures
        plan.op() is Nn ==> {
            let kernels = scalar_products::forward_kernels(plan);
            &&& plan.uses_split_scratch() == sums_chunks(kernels(0))
            &&& !plan.uses_transpose_scratch()
            &&& scalar_plan::plan_requires_zero_beta(plan) == sums_chunks(kernels(0))
        },
        plan.op() is Tn ==> {
            let kernels = scalar_products::weight_kernels(
                plan,
                operands.output,
                operands.a,
                operands.b,
            );
            &&& plan.uses_split_scratch() == sums_chunks(kernels(0))
            &&& !plan.uses_transpose_scratch()
            &&& !scalar_plan::plan_requires_zero_beta(plan)
        },
        plan.op() is Nt ==> {
            let kernels = scalar_dx_products::input_kernels(plan);
            &&& plan.uses_transpose_scratch() == (kernels(0) is Transpose)
            &&& plan.uses_split_scratch() == (kernels(0) is Transpose && sums_chunks(kernels(1)))
            &&& scalar_plan::plan_requires_zero_beta(plan) == (kernels(0) is Transpose
                && kernels(1) is Forward64 || plan is NtM2N16SplitK32Qualified)
        },
{
}

/// The workspaces that a plan is prepared with are the ones that it asked for,
/// and the transposed weights fit theirs.
pub proof fn workspaces_hold_the_transposed_weights(
    request: F32TriadRequest,
    plan: ScalarDispatchPlan,
    split: u64,
    transpose: u64,
    transpose_len: usize,
    resources: ScalarScratchResources,
)
    requires
        f32_prepare::scratch_resources(request, plan, split, transpose, transpose_len) == Ok::<
            ScalarScratchResources,
            LaunchError,
        >(resources),
    ensures
        resources.split is Some <==> plan.uses_split_scratch(),
        resources.transpose is Some <==> plan.uses_transpose_scratch(),
        resources.split matches Some(span) ==> span.address == split,
        resources.transpose matches Some(span) ==> {
            &&& span.address == transpose
            &&& span.bytes == 4 * transpose_len
            &&& 4 * (scalar_dx_products::transposed_rows(plan, request.shape.k as int)
                * request.shape.n) <= span.bytes
        },
{
}

/// Operands are accepted exactly where the kernels may use them: the output and
/// a bias always, the inputs unless the sum is empty. A bias belongs to an
/// unscaled forward product, weight gradients add to what is there, and input
/// gradients replace it.
pub proof fn accepted_operands_suit_their_product(
    request: F32TriadRequest,
    operands: F32TriadOperands,
)
    ensures
        shape::operand_fault(request, operands) is None <==> {
            let usable = |pointer: u64| pointer != 0 && pointer % 4 == 0;
            let summed = match request.op {
                ResolvedGemmOp::Nn => request.shape.k,
                ResolvedGemmOp::Tn => request.shape.m,
                ResolvedGemmOp::Nt => request.shape.n,
            };
            &&& usable(operands.output)
            &&& summed > 0 ==> usable(operands.a) && usable(operands.b)
            &&& operands.bias matches Some(bias) ==> usable(bias) && request.op is Nn
                && operands.alpha == F32_ONE_BITS
            &&& request.op is Tn ==> operands.beta == F32_ONE_BITS
            &&& request.op is Nt ==> operands.beta == F32_ZERO_BITS || operands.beta
                == F32_NEGATIVE_ZERO_BITS
        },
{
}

/// A pointer is passed as eight bytes, the lowest first.
pub proof fn pointers_are_passed_lowest_byte_first(pointer: u64)
    ensures
        ({
            let bytes = arguments::arg_bytes(KernelArg::Pointer(pointer));
            &&& bytes.len() == 8
            &&& bytes[0] == pointer as int % 256
            &&& bytes[1] == pointer as int / 256 % 256
            &&& bytes[2] == pointer as int / 256 / 256 % 256
            &&& bytes[3] == pointer as int / 256 / 256 / 256 % 256
            &&& bytes[4] == pointer as int / 256 / 256 / 256 / 256 % 256
            &&& bytes[5] == pointer as int / 256 / 256 / 256 / 256 / 256 % 256
            &&& bytes[6] == pointer as int / 256 / 256 / 256 / 256 / 256 / 256 % 256
            &&& bytes[7] == pointer as int / 256 / 256 / 256 / 256 / 256 / 256 / 256 % 256
        }),
{
    reveal_with_fuel(digest::le_bytes, 9);
}

/// A number is passed as four bytes, the lowest first.
pub proof fn numbers_are_passed_lowest_byte_first(bits: u32)
    ensures
        ({
            let bytes = arguments::arg_bytes(KernelArg::Float(bits));
            &&& bytes.len() == 4
            &&& bytes[0] == bits as int % 256
            &&& bytes[1] == bits as int / 256 % 256
            &&& bytes[2] == bits as int / 256 / 256 % 256
            &&& bytes[3] == bits as int / 256 / 256 / 256 % 256
        }),
{
    reveal_with_fuel(digest::le_bytes, 5);
}

/// An integer is passed as the number with its two's complement.
pub proof fn integers_are_passed_in_twos_complement(value: i32)
    ensures
        arguments::arg_bytes(KernelArg::Int(value)) == arguments::arg_bytes(
            KernelArg::Float(
                if value >= 0 {
                    value as u32
                } else {
                    (value + 0x1_0000_0000) as u32
                },
            ),
        ),
{
    assert(value < 0 ==> value as u32 == value + 0x1_0000_0000) by (bit_vector);
}

/// The fields of a parameter block stand in the order in which a kernel reads
/// them.
pub proof fn parameter_blocks_are_laid_out(
    forward: SgbNnM64N64Params,
    empty: SgbZeroReductionParams,
    portable: Sm80Tf32KernelParams,
    sm90a: Sm90aTf32KernelParams,
    sm100: Sm100KernelParams,
    sm120: Sm120KernelParams,
    exact: Sm120FmaKernelParams,
)
    ensures
        forward.words() == seq![
            forward.alpha,
            forward.beta,
            params::word_of(forward.m),
            params::word_of(forward.n),
            params::word_of(forward.k),
            params::word_of(forward.lda),
            params::word_of(forward.ldb),
            params::word_of(forward.ldc),
        ],
        empty.words() == seq![
            empty.alpha,
            empty.beta,
            params::word_of(empty.m),
            params::word_of(empty.k),
            params::word_of(empty.n),
            params::word_of(empty.lda),
            params::word_of(empty.ldb),
            params::word_of(empty.ldc),
        ],
        portable.words() == seq![
            portable.alpha,
            portable.beta,
            params::word_of(portable.m),
            params::word_of(portable.k),
            params::word_of(portable.n),
            params::word_of(portable.lda),
            params::word_of(portable.ldb),
            params::word_of(portable.ldc),
        ],
        sm90a.words() == seq![
            params::word_of(sm90a.a_x),
            params::word_of(sm90a.a_y),
            params::word_of(sm90a.b_x),
            params::word_of(sm90a.b_y),
            sm90a.alpha,
            sm90a.beta,
            params::word_of(sm90a.m),
            params::word_of(sm90a.k),
            params::word_of(sm90a.n),
            params::word_of(sm90a.ldc),
        ],
        sm100.words() == seq![
            params::word_of(sm100.a_x),
            params::word_of(sm100.a_y),
            params::word_of(sm100.b_x),
            params::word_of(sm100.b_y),
            sm100.alpha,
            sm100.beta,
            params::word_of(sm100.m),
            params::word_of(sm100.k),
            params::word_of(sm100.n),
            params::word_of(sm100.ldc),
        ],
        sm120.words() == seq![
            params::word_of(sm120.a_x),
            params::word_of(sm120.a_y),
            params::word_of(sm120.b_x),
            params::word_of(sm120.b_y),
            sm120.alpha,
            sm120.beta,
            params::word_of(sm120.m),
            params::word_of(sm120.k),
            params::word_of(sm120.n),
            params::word_of(sm120.ldc),
        ],
        exact.words() == seq![
            exact.alpha,
            exact.beta,
            params::word_of(exact.m),
            params::word_of(exact.n),
            params::word_of(exact.k),
            params::word_of(exact.ldc),
            params::word_of(exact.splits),
            params::word_of(exact.tiles_per_split),
        ],
{
}

/// A prepared forward product that froze these very tensors, unscaled, is the
/// product itself: X is its A and W its B.
pub proof fn frozen_tensors_are_accepted(
    output: u64,
    operands: GemmBiFwdSubOperands,
    dims: (usize, usize, usize),
    plan: ScalarDispatchPlan,
    selected: Result<ScalarDispatchPlan, LaunchError>,
    workspace: ScalarWorkspace,
    frozen: F32TriadOperands,
)
    requires
        frozen.output == output,
        frozen.a == operands.x_ptr,
        frozen.b == operands.w_ptr,
        frozen.bias == (if operands.bias_ptr == 0 {
            None
        } else {
            Some(operands.bias_ptr)
        }),
        frozen.alpha == F32_ONE_BITS,
        frozen.beta == F32_ZERO_BITS,
    ensures
        scalar_forward::forward_sub_program(
            output,
            operands,
            dims,
            Some(PreparedScalar { plan, operands: frozen }),
            selected,
            workspace,
        ) == scalar_forward::forward_sub_program(
            output,
            operands,
            dims,
            None,
            Ok(plan),
            workspace,
        ),
{
}

/// A prepared scalar program that completes ran on the tensors that were
/// frozen, each in its place, and its graph holds the same launches.
pub proof fn completed_programs_ran_on_the_frozen_tensors(
    request: F32TriadRequest,
    frozen: PreparedScalar,
    dispatch: ScalarPhysicalGraphDispatch,
    workspace: ScalarWorkspace,
)
    requires
        f32_enqueue::eager_scalar_program(request, frozen, dispatch, workspace).outcome is Ok,
    ensures
        match dispatch {
            ScalarPhysicalGraphDispatch::Nn { y, x, w_ptr, bias_ptr, .. } => {
                &&& frozen.operands.output == y
                &&& frozen.operands.a == x
                &&& frozen.operands.b == w_ptr
                &&& frozen.operands.bias == (if bias_ptr == 0 {
                    None
                } else {
                    Some(bias_ptr)
                })
            },
            ScalarPhysicalGraphDispatch::Tn { dw_ptr, dy, x_saved, .. } => {
                &&& frozen.operands.output == dw_ptr
                &&& frozen.operands.a == x_saved
                &&& frozen.operands.b == dy
                &&& frozen.operands.bias is None
                &&& frozen.operands.beta == F32_ONE_BITS
            },
            ScalarPhysicalGraphDispatch::Nt { dx, dy, w_ptr, .. } => {
                &&& frozen.operands.output == dx
                &&& frozen.operands.a == dy
                &&& frozen.operands.b == w_ptr
                &&& frozen.operands.bias is None
                &&& frozen.operands.beta == F32_ZERO_BITS
            },
        },
        f32_launch::scalar_graph_program(request, frozen, dispatch, workspace)
            == f32_enqueue::eager_scalar_program(request, frozen, dispatch, workspace),
{
}

/// A bias is seeded into an unscaled product alone.
pub proof fn biased_products_are_unscaled(alpha: u32, bias: u64)
    ensures
        shape::validate_bias_preseed(alpha, bias) is Ok <==> bias == 0 || alpha
            == F32_ONE_BITS,
{
}

/// A captured argument is its bytes, filled up with zeros to 128 of them.
pub proof fn captured_arguments_are_filled_up(args: Seq<KernelArg>, index: int, byte: int)
    requires
        0 <= index < args.len(),
        0 <= byte < 128,
        arguments::arg_bytes(args[index]).len() <= 128,
    ensures
        control::captured_bytes(args).len() == args.len(),
        control::captured_bytes(args)[index].len() == 128,
        control::captured_bytes(args)[index][byte] == (if byte < arguments::arg_bytes(
            args[index],
        ).len() {
            arguments::arg_bytes(args[index])[byte]
        } else {
            0u8
        }),
{
}

/// Extents are accepted exactly where each is a signed kernel argument, every
/// matrix has a countable number of elements, and the rows of A do not overlap.
pub proof fn accepted_extents_are_kernel_arguments(
    dims: (usize, usize, usize),
    lda: usize,
    row: usize,
)
    ensures
        GemmDims::resolve(dims, lda, row) is Ok <==> {
            &&& dims.0 <= 0x7fff_ffff && dims.1 <= 0x7fff_ffff && dims.2 <= 0x7fff_ffff
            &&& row <= lda <= 0x7fff_ffff
            &&& dims.0 * dims.1 <= 0xffff_ffff
            &&& dims.1 * dims.2 <= 0xffff_ffff
            &&& dims.0 * dims.2 <= 0xffff_ffff
        },
        GemmDims::resolve(dims, lda, row) matches Ok(checked) ==> checked.m == dims.0 && checked.k
            == dims.1 && checked.n == dims.2 && checked.lda == lda,
{
}

/// A shape is accepted exactly where its extents and its strides are signed
/// kernel arguments and no stride is shorter than a row of its matrix.
pub proof fn accepted_shapes_have_whole_rows(op: ResolvedGemmOp, shape: F32TriadShape)
    ensures
        shape.validated(op) is Ok <==> {
            let (a, b, c) = stored_extents(op, shape.m as int, shape.k as int, shape.n as int);
            &&& shape.m <= 0x7fff_ffff && shape.k <= 0x7fff_ffff && shape.n <= 0x7fff_ffff
            &&& a.1 <= shape.lda <= 0x7fff_ffff
            &&& b.1 <= shape.ldb <= 0x7fff_ffff
            &&& c.1 <= shape.ldc <= 0x7fff_ffff
        },
{
}

/// Maps are encoded exactly for a sum that is read through them.
pub proof fn maps_are_encoded_for_what_is_read(
    request: F32TriadRequest,
    route: Tf32PhysicalRoute,
)
    ensures
        ({
            let summed = match request.op {
                ResolvedGemmOp::Nn => request.shape.k,
                ResolvedGemmOp::Tn => request.shape.m,
                ResolvedGemmOp::Nt => request.shape.n,
            };
            let needed = f32_prepare::tf32_maps_needed(request, route);
            &&& needed is Placeholder <==> summed == 0
            &&& needed is Unmapped <==> summed > 0 && route is MmaTf32RnaV1
            &&& needed is Encoded <==> summed > 0 && !(route is MmaTf32RnaV1)
        }),
{
}

} // verus!
