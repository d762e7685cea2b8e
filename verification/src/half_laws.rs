//! Laws of the half-precision launches.

use crate::half_kernel;
use crate::half_kernel::{HalfKernel, HalfKernelIdentity};
use crate::half_launch::{HalfGemmArguments, HalfStep, TypedPtr};
use crate::half_routes;
use crate::half_tc;
use crate::half_tc::{StreamKTarget, TcFwdOperands, TcTile};
use crate::half_typed;
use crate::kernel::{KernelArg, LaunchStep, Program};
use crate::scalar_dw;
use crate::scalar_dx;
use crate::scalar_forward;
use crate::scalar_forward::GemmBiFwdSubOperands;
use crate::scalar_launch::ScalarWorkspace;
use crate::scalar_plan::ScalarDispatchPlan;
use crate::shape::{F32TriadShape, GemmDims};
use vstd::prelude::*;

verus! {

/// A launch and its observation belong together: the observed name and
/// element type resolve to the launched symbol, and the block can be
/// counted, so that the launch can be recorded.
pub open spec fn recordable(step: HalfStep) -> bool {
    &&& half_routes::block_countable(step.step.config)
    &&& HalfKernelIdentity::resolved(step.observation.base, step.observation.dtype) is Ok
    &&& HalfKernelIdentity::resolved(step.observation.base, step.observation.dtype)->Ok_0.symbol
        == step.step.symbol
}

/// A step launches a kernel at its element type in a one-dimensional block.
pub open spec fn launches(step: HalfStep, kernel: HalfKernel) -> bool {
    &&& half_kernel::half_suffix(step.observation.dtype) is Some
    &&& step.step.symbol == half_kernel::half_symbol(kernel, step.observation.dtype)->0
    &&& step.observation.base == kernel.base()
    &&& step.step.config.block_dim.0 <= 256
    &&& step.step.config.block_dim.1 == 1
    &&& step.step.config.block_dim.2 == 1
}

proof fn launched_steps_are_recordable(step: HalfStep, kernel: HalfKernel)
    requires
        launches(step, kernel),
    ensures
        recordable(step),
{
    half_kernel::base_names_their_kernel(kernel);
}

/// Every launch of a typed forward product can be recorded.
pub proof fn forward_typed_is_recordable(
    y: TypedPtr,
    x: TypedPtr,
    w: TypedPtr,
    bias: u64,
    dims: (usize, usize, usize),
    routes_to_big: bool,
)
    ensures
        half_typed::forward_typed_step(y, x, w, bias, dims, routes_to_big) matches Ok(step)
            ==> recordable(step),
{
    if let Ok(step) = half_typed::forward_typed_step(y, x, w, bias, dims, routes_to_big) {
        let checked = GemmDims { m: dims.0, k: dims.1, n: dims.2, lda: dims.1 };
        let kernel = if half_typed::forward_is_gemv(checked) {
            HalfKernel::NnGemv
        } else if half_typed::forward_is_ultra_thin(checked) {
            HalfKernel::NnUltraThin
        } else if half_typed::is_narrow(checked) && dims.0 <= 64 {
            HalfKernel::NnNarrowSmall
        } else if half_typed::is_narrow(checked) {
            HalfKernel::NnNarrow
        } else {
            HalfKernel::NnBig
        };
        launched_steps_are_recordable(step, kernel);
    }
}

/// Every launch of a typed weight gradient can be recorded.
pub proof fn dw_typed_is_recordable(
    dw: u64,
    dy: TypedPtr,
    x: TypedPtr,
    dims: (usize, usize, usize),
    routes_to_big: bool,
)
    ensures
        half_typed::dw_typed_step(dw, dy, x, dims, routes_to_big) matches Ok(step) ==> recordable(
            step,
        ),
{
    if let Ok(step) = half_typed::dw_typed_step(dw, dy, x, dims, routes_to_big) {
        let checked = GemmDims { m: dims.0, k: dims.1, n: dims.2, lda: dims.1 };
        let kernel = if half_typed::dw_is_gemv(checked) {
            HalfKernel::TnGemv
        } else if half_typed::is_narrow(checked) {
            HalfKernel::TnNarrow
        } else {
            HalfKernel::TnBig
        };
        launched_steps_are_recordable(step, kernel);
    }
}

/// Every launch of a typed input gradient can be recorded.
pub proof fn dx_typed_is_recordable(
    dx: TypedPtr,
    dy: TypedPtr,
    w: TypedPtr,
    dims: (usize, usize, usize),
    routes_to_big: bool,
)
    ensures
        half_typed::dx_typed_step(dx, dy, w, dims, routes_to_big) matches Ok(step) ==> recordable(
            step,
        ),
{
    if let Ok(step) = half_typed::dx_typed_step(dx, dy, w, dims, routes_to_big) {
        let checked = GemmDims { m: dims.0, k: dims.1, n: dims.2, lda: dims.2 };
        let kernel = if half_typed::dx_is_gemv(checked) {
            HalfKernel::NtGemv
        } else if half_typed::is_narrow(checked) {
            HalfKernel::NtNarrow
        } else {
            HalfKernel::NtBig
        };
        launched_steps_are_recordable(step, kernel);
    }
}

/// Every launch of a tensor-core forward product can be recorded.
pub proof fn forward_tc_is_recordable(ops: TcFwdOperands, shape: F32TriadShape, tile: TcTile)
    ensures
        half_tc::forward_tc_step(ops, shape, tile) matches Ok(step) ==> recordable(step),
{
    if let Ok(step) = half_tc::forward_tc_step(ops, shape, tile) {
        launched_steps_are_recordable(step, half_tc::forward_tc_kernel(tile)->Ok_0);
    }
}

/// Every launch of a tensor-core weight gradient can be recorded.
pub proof fn dw_tc_is_recordable(
    dw: u64,
    dy: TypedPtr,
    x: TypedPtr,
    dims: (usize, usize, usize),
    tile: TcTile,
    target: StreamKTarget,
)
    ensures
        half_tc::dw_tc_step(dw, dy, x, dims, tile, target) matches Ok(step) ==> recordable(step),
{
    if let Ok(step) = half_tc::dw_tc_step(dw, dy, x, dims, tile, target) {
        launched_steps_are_recordable(step, half_tc::dw_tc_choice(dims, tile, target)->Ok_0.0);
    }
}

/// Every launch of a tensor-core input gradient can be recorded.
pub proof fn dx_tc_is_recordable(
    dx: TypedPtr,
    dy: TypedPtr,
    w: TypedPtr,
    dims: (usize, usize, usize),
    tile: TcTile,
)
    ensures
        half_tc::dx_tc_step(dx, dy, w, dims, tile) matches Ok(step) ==> recordable(step),
{
    if let Ok(step) = half_tc::dx_tc_step(dx, dy, w, dims, tile) {
        launched_steps_are_recordable(step, half_tc::dx_tc_kernel(tile)->Ok_0);
    }
}

/// Two pointers name the same tensor of two products.
pub open spec fn same_tensor(
    left: u64,
    left_tensors: HalfGemmArguments,
    right: u64,
    right_tensors: HalfGemmArguments,
) -> bool {
    ||| left == left_tensors.output && right == right_tensors.output
    ||| left == left_tensors.a && right == right_tensors.a
    ||| left == left_tensors.b && right == right_tensors.b
    ||| left == left_tensors.bias && right == right_tensors.bias
}

/// Two launches compute an output element in the same way: the same kernel,
/// tile, slab depth, block and shared memory, and the same arguments but for
/// where the tensors lie and the number of rows, at the given position.
pub open spec fn same_reduction(left: HalfStep, right: HalfStep, rows_at: int) -> bool {
    &&& left.step.symbol == right.step.symbol
    &&& left.observation.tile == right.observation.tile
    &&& left.observation.bk_stages == right.observation.bk_stages
    &&& left.step.config.block_dim == right.step.config.block_dim
    &&& left.step.config.shared_mem_bytes == right.step.config.shared_mem_bytes
    &&& left.step.args.len() == right.step.args.len()
    &&& forall|i: int|
        0 <= i < left.step.args.len() && i != rows_at ==> (match (
            #[trigger] left.step.args[i],
            right.step.args[i],
        ) {
            (KernelArg::Pointer(l), KernelArg::Pointer(r)) => same_tensor(
                l,
                left.observation.arguments,
                r,
                right.observation.arguments,
            ),
            (l, r) => l == r,
        })
}

/// On a given tile, the number of rows of a tensor-core forward product
/// changes how many tiles are launched and nothing else, wherever the
/// tensors lie.
pub proof fn forward_tc_is_batch_invariant(
    left: TcFwdOperands,
    right: TcFwdOperands,
    shape: F32TriadShape,
    rows: usize,
    tile: TcTile,
)
    requires
        left.y.dtype == right.y.dtype,
        (left.bias_ptr == 0) == (right.bias_ptr == 0),
    ensures
        match (
            half_tc::forward_tc_step(left, shape, tile),
            half_tc::forward_tc_step(right, F32TriadShape { m: rows, ..shape }, tile),
        ) {
            (Ok(left), Ok(right)) => same_reduction(left, right, 6),
            _ => true,
        },
{
}

/// On a given tile, the number of rows of a tensor-core input gradient
/// changes how many tiles are launched and nothing else, wherever the
/// tensors lie.
pub proof fn dx_tc_is_batch_invariant(
    left: (TypedPtr, TypedPtr, TypedPtr),
    right: (TypedPtr, TypedPtr, TypedPtr),
    dims: (usize, usize, usize),
    rows: usize,
    tile: TcTile,
)
    requires
        left.0.dtype == right.0.dtype,
    ensures
        match (
            half_tc::dx_tc_step(left.0, left.1, left.2, dims, tile),
            half_tc::dx_tc_step(right.0, right.1, right.2, (rows, dims.1, dims.2), tile),
        ) {
            (Ok(left), Ok(right)) => same_reduction(left, right, 4),
            _ => true,
        },
{
}

/// The stream-K grid never outnumbers the multiprocessors or the (tile,
/// slab) units, and is never empty.
pub proof fn streamk_grid_is_persistent(
    multiprocessors: u32,
    dims: (usize, usize, usize),
)
    ensures
        half_tc::streamk_grid(multiprocessors, dims) matches Ok(grid) ==> {
            &&& grid >= 1
            &&& multiprocessors >= 1 ==> grid <= multiprocessors
            &&& multiprocessors == 0 ==> grid == 1
        },
{
}

/// A program is one launch with the grid, the block and the arguments of a
/// step.
pub open spec fn is_one_launch_like(program: Program, step: LaunchStep) -> bool {
    &&& program.outcome is Ok
    &&& program.launches.len() == 1
    &&& program.launches[0].config.grid_dim == step.config.grid_dim
    &&& program.launches[0].config.block_dim == step.config.block_dim
    &&& program.launches[0].args == step.args
}

/// The f32 plan of a typed forward product.
pub open spec fn forward_bucket(dims: GemmDims) -> ScalarDispatchPlan {
    if half_typed::forward_is_gemv(dims) {
        ScalarDispatchPlan::NnGemv
    } else if half_typed::forward_is_ultra_thin(dims) {
        ScalarDispatchPlan::NnUltraThin
    } else if half_typed::is_narrow(dims) {
        if dims.m <= 64 {
            ScalarDispatchPlan::NnNarrowSmall
        } else {
            ScalarDispatchPlan::NnNarrow
        }
    } else {
        ScalarDispatchPlan::NnFinal { slim: false }
    }
}

/// The f32 plan of a typed weight gradient.
pub open spec fn dw_bucket(dims: GemmDims) -> ScalarDispatchPlan {
    if half_typed::dw_is_gemv(dims) {
        ScalarDispatchPlan::TnGemv
    } else if half_typed::is_narrow(dims) {
        ScalarDispatchPlan::TnNarrow
    } else {
        ScalarDispatchPlan::TnFinal { slim: false }
    }
}

/// The f32 plan of a typed input gradient.
pub open spec fn dx_bucket(dims: GemmDims) -> ScalarDispatchPlan {
    if half_typed::dx_is_gemv(dims) {
        ScalarDispatchPlan::NtGemv
    } else if half_typed::is_narrow(dims) {
        ScalarDispatchPlan::NtNarrow
    } else {
        ScalarDispatchPlan::NtFinal { slim: false }
    }
}

/// A typed forward product runs on the geometry, the shared memory and the
/// arguments of the f32 product in its bucket.
pub proof fn typed_forward_mirrors_its_bucket(
    y: TypedPtr,
    x: TypedPtr,
    w: TypedPtr,
    bias: u64,
    dims: (usize, usize, usize),
    routes_to_big: bool,
    workspace: ScalarWorkspace,
)
    ensures
        half_typed::forward_typed_step(y, x, w, bias, dims, routes_to_big) matches Ok(step) ==> {
            let plan = forward_bucket(
                GemmDims { m: dims.0, k: dims.1, n: dims.2, lda: dims.1 },
            );
            let program = scalar_forward::forward_sub_program(
                y.ptr,
                GemmBiFwdSubOperands {
                    x_ptr: x.ptr,
                    lda: dims.1,
                    w_ptr: w.ptr,
                    bias_ptr: bias,
                },
                dims,
                None,
                Ok(plan),
                workspace,
            );
            &&& is_one_launch_like(program, step.step)
            &&& program.launches[0].config == step.step.config
        },
{
    if let Ok(step) = half_typed::forward_typed_step(y, x, w, bias, dims, routes_to_big) {
        let plan = forward_bucket(GemmDims { m: dims.0, k: dims.1, n: dims.2, lda: dims.1 });
        let program = scalar_forward::forward_sub_program(
            y.ptr,
            GemmBiFwdSubOperands { x_ptr: x.ptr, lda: dims.1, w_ptr: w.ptr, bias_ptr: bias },
            dims,
            None,
            Ok(plan),
            workspace,
        );
        assert(program.launches[0].args =~= step.step.args);
    }
}

/// A typed weight gradient runs on the geometry, the shared memory and the
/// arguments of the f32 product in its bucket.
pub proof fn typed_dw_mirrors_its_bucket(
    dw: u64,
    dy: TypedPtr,
    x: TypedPtr,
    dims: (usize, usize, usize),
    routes_to_big: bool,
    workspace: ScalarWorkspace,
)
    ensures
        half_typed::dw_typed_step(dw, dy, x, dims, routes_to_big) matches Ok(step) ==> {
            let plan = dw_bucket(GemmDims { m: dims.0, k: dims.1, n: dims.2, lda: dims.1 });
            let program = scalar_dw::backward_dw_program(
                dw,
                dy.ptr,
                x.ptr,
                dims,
                None,
                Ok(plan),
                workspace,
            );
            &&& is_one_launch_like(program, step.step)
            &&& program.launches[0].config == step.step.config
        },
{
    if let Ok(step) = half_typed::dw_typed_step(dw, dy, x, dims, routes_to_big) {
        let plan = dw_bucket(GemmDims { m: dims.0, k: dims.1, n: dims.2, lda: dims.1 });
        let program = scalar_dw::backward_dw_program(
            dw,
            dy.ptr,
            x.ptr,
            dims,
            None,
            Ok(plan),
            workspace,
        );
        assert(program.launches[0].args =~= step.step.args);
    }
}

/// A typed input gradient runs on the geometry and the arguments of the f32
/// product in its bucket. The 128x128 kernels differ in their shared memory.
pub proof fn typed_dx_mirrors_its_bucket(
    dx: TypedPtr,
    dy: TypedPtr,
    w: TypedPtr,
    dims: (usize, usize, usize),
    routes_to_big: bool,
    workspace: ScalarWorkspace,
)
    ensures
        half_typed::dx_typed_step(dx, dy, w, dims, routes_to_big) matches Ok(step) ==> {
            let plan = dx_bucket(GemmDims { m: dims.0, k: dims.1, n: dims.2, lda: dims.2 });
            let program = scalar_dx::backward_dx_program(
                dx.ptr,
                dy.ptr,
                w.ptr,
                dims,
                None,
                Ok(plan),
                workspace,
            );
            &&& is_one_launch_like(program, step.step)
            &&& !(plan is NtFinal) ==> program.launches[0].config == step.step.config
        },
{
    if let Ok(step) = half_typed::dx_typed_step(dx, dy, w, dims, routes_to_big) {
        let plan = dx_bucket(GemmDims { m: dims.0, k: dims.1, n: dims.2, lda: dims.2 });
        let program = scalar_dx::backward_dx_program(
            dx.ptr,
            dy.ptr,
            w.ptr,
            dims,
            None,
            Ok(plan),
            workspace,
        );
        assert(program.launches[0].args =~= step.step.args);
    }
}

/// Batch sizes of a typed forward product in one bucket change how many
/// tiles are launched and nothing else, wherever the tensors lie.
pub proof fn typed_forward_is_batch_invariant(
    left: (TypedPtr, TypedPtr, TypedPtr, u64),
    right: (TypedPtr, TypedPtr, TypedPtr, u64),
    dims: (usize, usize, usize),
    rows: usize,
    routes_to_big: bool,
)
    requires
        left.0.dtype == right.0.dtype,
        (left.3 == 0) == (right.3 == 0),
        forward_bucket(GemmDims { m: dims.0, k: dims.1, n: dims.2, lda: dims.1 })
            == forward_bucket(GemmDims { m: rows, k: dims.1, n: dims.2, lda: dims.1 }),
    ensures
        match (
            half_typed::forward_typed_step(left.0, left.1, left.2, left.3, dims, routes_to_big),
            half_typed::forward_typed_step(
                right.0,
                right.1,
                right.2,
                right.3,
                (rows, dims.1, dims.2),
                routes_to_big,
            ),
        ) {
            (Ok(left), Ok(right)) => same_reduction(left, right, 6),
            _ => true,
        },
{
}

/// Batch sizes of a typed input gradient in one bucket change how many tiles
/// are launched and nothing else, wherever the tensors lie.
pub proof fn typed_dx_is_batch_invariant(
    left: (TypedPtr, TypedPtr, TypedPtr),
    right: (TypedPtr, TypedPtr, TypedPtr),
    dims: (usize, usize, usize),
    rows: usize,
    routes_to_big: bool,
)
    requires
        left.0.dtype == right.0.dtype,
        dx_bucket(GemmDims { m: dims.0, k: dims.1, n: dims.2, lda: dims.2 }) == dx_bucket(
            GemmDims { m: rows, k: dims.1, n: dims.2, lda: dims.2 },
        ),
    ensures
        match (
            half_typed::dx_typed_step(left.0, left.1, left.2, dims, routes_to_big),
            half_typed::dx_typed_step(
                right.0,
                right.1,
                right.2,
                (rows, dims.1, dims.2),
                routes_to_big,
            ),
        ) {
            (Ok(left), Ok(right)) => same_reduction(left, right, 4),
            _ => true,
        },
{
}

} // verus!
