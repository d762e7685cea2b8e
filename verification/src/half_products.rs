//! The half-precision launches compute the products that they are named
//! after: `Y = X W + bias`, `dW += X^T dY` and `dX = dY W^T`.

use crate::device;
use crate::device::{Block, Element, Kernel, Matrix, Memory, Numbers, Product};
use crate::error::LaunchError;
use crate::half_launch::{HalfStep, TypedPtr};
use crate::half_tc;
use crate::half_tc::{StreamKTarget, TcFwdOperands, TcTile};
use crate::half_typed;
use crate::identity::WeightDtype;
use crate::kernel::LaunchStep;
use crate::record_laws;
use crate::scalar_products;
use crate::shape::{F32TriadShape, GemmDims, ResolvedGemmOp};
use vstd::prelude::*;

verus! {

/// The element type of a tensor.
pub open spec fn element_of(dtype: WeightDtype) -> Element {
    match dtype {
        WeightDtype::Bf16 => Element::Bf16,
        WeightDtype::F16 => Element::F16,
        _ => Element::F32,
    }
}

/// A launch names a kernel, gives it the arguments and the blocks that it
/// needs, and leaves an element of a product.
pub open spec fn leaves(
    step: LaunchStep,
    product: Product,
    memory: Memory,
    numbers: Numbers,
    row: int,
    column: int,
) -> bool {
    exists|kernel: Kernel|
        {
            &&& #[trigger] device::named(kernel, step.symbol)
            &&& device::well_launched(kernel, step)
            &&& product.target.at(device::run(kernel, step, memory, numbers), row, column)
                == product.element(memory, row, column)
        }
}

/// A launch is recorded under the very tensors that it passes to its kernel.
pub open spec fn records_its_tensors(half: HalfStep) -> bool {
    let args = half.step.args;
    let tensors = half.observation.arguments;
    &&& tensors.output == device::pointer_at(args, 0)
    &&& tensors.a == device::pointer_at(args, 1)
    &&& tensors.b == device::pointer_at(args, 2)
    &&& tensors.bias == (if half.observation.op is Nn {
        device::pointer_at(args, 3)
    } else {
        0
    })
}

/// The slab depth and the stages of a half-precision kernel. The tensor-core
/// kernels stage deeper slabs.
pub open spec fn half_slab(kernel: Kernel) -> (int, int) {
    let block_slab = |block: Block|
        if block.tile == (128int, 128int) {
            if block.shared == 34_816 {
                (16int, 2int)
            } else {
                (64int, 2int)
            }
        } else if block.tile == (64int, 64int) {
            (64int, 2int)
        } else if block.tile == (16int, 32int) {
            (64int, 4int)
        } else if block.tile == (128int, 64int) {
            (32int, 3int)
        } else {
            (16int, 1int)
        };
    match kernel {
        Kernel::Forward { block, .. } => block_slab(block),
        Kernel::Weight { block, .. } => block_slab(block),
        Kernel::Input { block, .. } => block_slab(block),
        Kernel::InputColumn { .. } => (1, 1),
        _ => (32, 1),
    }
}

/// A launch is recorded with its operation, its element type, its shape, and
/// the tile and the slabs of the kernel that it names.
pub open spec fn records_its_product(
    half: HalfStep,
    op: ResolvedGemmOp,
    dtype: WeightDtype,
    dims: (usize, usize, usize),
    strides: (usize, usize, usize),
) -> bool {
    let observation = half.observation;
    &&& observation.op == op
    &&& observation.dtype == dtype
    &&& observation.dims == dims
    &&& observation.strides == strides
    &&& exists|kernel: Kernel|
        {
            &&& #[trigger] device::named(kernel, half.step.symbol)
            &&& record_laws::recorded_tile(kernel) == (
                observation.tile.0 as int,
                observation.tile.1 as int,
            )
            &&& half_slab(kernel) == (
                observation.bk_stages.0 as int,
                observation.bk_stages.1 as int,
            )
        }
}

proof fn launch_leaves_its_product(
    kernel: Kernel,
    step: LaunchStep,
    product: Product,
    memory: Memory,
    numbers: Numbers,
    row: int,
    column: int,
)
    requires
        device::named(kernel, step.symbol),
        device::well_launched(kernel, step),
        device::effect(kernel, step, memory, numbers) == product.computed(memory),
        product.target.width > 0,
        product.target.column_step == 1,
        product.target.row_step >= product.columns,
        0 <= row < product.rows,
        0 <= column < product.columns,
    ensures
        leaves(step, product, memory, numbers, row, column),
{
    device::stored_elements_are_read_back(
        memory,
        product.target,
        product.rows,
        product.columns,
        |i: int, j: int| product.element(memory, i, j),
        row,
        column,
    );
    assert(device::run(kernel, step, memory, numbers) == product.computed(memory));
}

/// `Y = X W + bias` of packed tensors.
pub open spec fn packed_forward(
    y: u64,
    x: u64,
    w: u64,
    bias: u64,
    dims: (usize, usize, usize),
) -> Product {
    Product {
        rows: dims.0 as int,
        columns: dims.2 as int,
        depth: dims.1 as int,
        target: Matrix::rows_apart(y as int, 2, dims.2 as int),
        a: Matrix::rows_apart(x as int, 2, dims.1 as int),
        b: Matrix::rows_apart(w as int, 2, dims.2 as int),
        bias: bias as int,
        alpha: 1,
        beta: 0,
    }
}

/// `dW += X^T dY` of packed half-precision tensors into a single-precision
/// gradient.
pub open spec fn packed_weight(dw: u64, dy: u64, x: u64, dims: (usize, usize, usize)) -> Product {
    Product {
        rows: dims.1 as int,
        columns: dims.2 as int,
        depth: dims.0 as int,
        target: Matrix::rows_apart(dw as int, 4, dims.2 as int),
        a: Matrix::rows_apart(x as int, 2, dims.1 as int).transposed(),
        b: Matrix::rows_apart(dy as int, 2, dims.2 as int),
        bias: 0,
        alpha: 1,
        beta: 1,
    }
}

/// `dX = dY W^T` of packed tensors.
pub open spec fn packed_input(dx: u64, dy: u64, w: u64, dims: (usize, usize, usize)) -> Product {
    Product {
        rows: dims.0 as int,
        columns: dims.1 as int,
        depth: dims.2 as int,
        target: Matrix::rows_apart(dx as int, 2, dims.1 as int),
        a: Matrix::rows_apart(dy as int, 2, dims.2 as int),
        b: Matrix::rows_apart(w as int, 2, dims.2 as int).transposed(),
        bias: 0,
        alpha: 1,
        beta: 0,
    }
}

/// `Y = X W + bias`: a typed forward launch leaves it in memory.
#[verifier::spinoff_prover]
#[verifier::rlimit(60)]
pub proof fn typed_forward_computes_the_product(
    y: TypedPtr,
    x: TypedPtr,
    w: TypedPtr,
    bias: u64,
    dims: (usize, usize, usize),
    routes_to_big: bool,
    half: HalfStep,
    memory: Memory,
    numbers: Numbers,
    row: int,
    column: int,
)
    requires
        numbers.faithful(),
        half_typed::forward_typed_step(y, x, w, bias, dims, routes_to_big) == Ok::<HalfStep, LaunchError>(half),
        0 <= row < dims.0,
        0 <= column < dims.2,
    ensures
        leaves(
            half.step,
            packed_forward(y.ptr, x.ptr, w.ptr, bias, dims),
            memory,
            numbers,
            row,
            column,
        ),
        records_its_tensors(half),
        records_its_product(
            half,
            ResolvedGemmOp::Nn,
            y.dtype,
            dims,
            (dims.1, dims.2, dims.2),
        ),
        device::pointer_at(half.step.args, 1) == x.ptr,
        device::pointer_at(half.step.args, 2) == w.ptr,
{
    let checked = GemmDims::resolve(dims, dims.1, dims.1)->Ok_0;
    let element = element_of(y.dtype);
    let step = half.step;
    scalar_products::tiles_are_counted(dims.0 as int, 4);
    scalar_products::tiles_are_counted(dims.2 as int, 32);
    scalar_products::tiles_are_counted(dims.0 as int, 16);
    scalar_products::tiles_are_counted(dims.2 as int, 16);
    scalar_products::tiles_are_counted(dims.0 as int, 64);
    scalar_products::tiles_are_counted(dims.0 as int, 128);
    scalar_products::tiles_are_counted(dims.2 as int, 128);
    let kernel = if half_typed::forward_is_gemv(checked) {
        Kernel::ForwardColumn { element }
    } else if half_typed::forward_is_ultra_thin(checked) {
        Kernel::ForwardRows { element }
    } else if half_typed::is_narrow(checked) {
        if dims.0 <= 64 {
            Kernel::Forward {
                block: scalar_products::tile_block(16, 16, 64),
                element,
                post_op: true,
            }
        } else {
            Kernel::Forward {
                block: scalar_products::tile_block(64, 32, 128),
                element,
                post_op: true,
            }
        }
    } else {
        Kernel::Forward {
            block: Block { tile: (128, 128), threads: 256, shared: 34_816 },
            element,
            post_op: false,
        }
    };
    let product = packed_forward(y.ptr, x.ptr, w.ptr, bias, dims);
    assert(device::named(kernel, step.symbol));
    assert(device::well_launched(kernel, step));
    if half_typed::forward_is_gemv(checked) {
        assert(device::forward_column_product(step.args, element, numbers) == product);
    } else {
        assert(device::forward_product(step.args, element, numbers) == product);
    }
    launch_leaves_its_product(kernel, step, product, memory, numbers, row, column);
}

/// `dW += X^T dY`: a typed weight-gradient launch leaves it in memory.
#[verifier::spinoff_prover]
#[verifier::rlimit(60)]
pub proof fn typed_weight_computes_the_gradient(
    dw: u64,
    dy: TypedPtr,
    x: TypedPtr,
    dims: (usize, usize, usize),
    routes_to_big: bool,
    half: HalfStep,
    memory: Memory,
    numbers: Numbers,
    row: int,
    column: int,
)
    requires
        numbers.faithful(),
        half_typed::dw_typed_step(dw, dy, x, dims, routes_to_big) == Ok::<HalfStep, LaunchError>(half),
        0 <= row < dims.1,
        0 <= column < dims.2,
    ensures
        leaves(
            half.step,
            packed_weight(dw, dy.ptr, x.ptr, dims),
            memory,
            numbers,
            row,
            column,
        ),
        records_its_tensors(half),
        records_its_product(
            half,
            ResolvedGemmOp::Tn,
            dy.dtype,
            dims,
            (dims.1, dims.2, dims.2),
        ),
{
    let checked = GemmDims::resolve(dims, dims.1, dims.1)->Ok_0;
    let element = element_of(dy.dtype);
    let step = half.step;
    scalar_products::tiles_are_counted(dims.1 as int, 4);
    scalar_products::tiles_are_counted(dims.2 as int, 32);
    scalar_products::tiles_are_counted(dims.1 as int, 64);
    scalar_products::tiles_are_counted(dims.1 as int, 128);
    scalar_products::tiles_are_counted(dims.2 as int, 128);
    let kernel = if half_typed::dw_is_gemv(checked) {
        Kernel::WeightColumn { element }
    } else if half_typed::is_narrow(checked) {
        Kernel::Weight {
            block: scalar_products::tile_block(64, 32, 128),
            element,
            vectors: false,
            folds: false,
        }
    } else {
        Kernel::Weight {
            block: Block { tile: (128, 128), threads: 256, shared: 34_816 },
            element,
            vectors: false,
            folds: false,
        }
    };
    let product = packed_weight(dw, dy.ptr, x.ptr, dims);
    assert(device::named(kernel, step.symbol));
    assert(device::well_launched(kernel, step));
    if half_typed::dw_is_gemv(checked) {
        assert(device::weight_column_product(step.args, element, numbers) == product);
    } else {
        assert(device::weight_product(step.args, element, numbers) == product);
    }
    launch_leaves_its_product(kernel, step, product, memory, numbers, row, column);
}

/// `dX = dY W^T`: a typed input-gradient launch leaves it in memory.
#[verifier::spinoff_prover]
#[verifier::rlimit(60)]
pub proof fn typed_input_computes_the_gradient(
    dx: TypedPtr,
    dy: TypedPtr,
    w: TypedPtr,
    dims: (usize, usize, usize),
    routes_to_big: bool,
    half: HalfStep,
    memory: Memory,
    numbers: Numbers,
    row: int,
    column: int,
)
    requires
        numbers.faithful(),
        half_typed::dx_typed_step(dx, dy, w, dims, routes_to_big) == Ok::<HalfStep, LaunchError>(half),
        0 <= row < dims.0,
        0 <= column < dims.1,
    ensures
        leaves(
            half.step,
            packed_input(dx.ptr, dy.ptr, w.ptr, dims),
            memory,
            numbers,
            row,
            column,
        ),
        records_its_tensors(half),
        records_its_product(
            half,
            ResolvedGemmOp::Nt,
            dx.dtype,
            dims,
            (dims.2, dims.2, dims.1),
        ),
{
    let checked = GemmDims::resolve(dims, dims.2, dims.2)->Ok_0;
    let element = element_of(dx.dtype);
    let step = half.step;
    assert(0 <= dims.0 * dims.1) by (nonlinear_arith);
    scalar_products::tiles_are_counted(dims.0 * dims.1, 256);
    scalar_products::tiles_are_counted(dims.0 as int, 64);
    scalar_products::tiles_are_counted(dims.1 as int, 32);
    scalar_products::tiles_are_counted(dims.0 as int, 128);
    scalar_products::tiles_are_counted(dims.1 as int, 128);
    let kernel = if half_typed::dx_is_gemv(checked) {
        Kernel::InputColumn { element }
    } else if half_typed::is_narrow(checked) {
        Kernel::Input { block: scalar_products::tile_block(64, 32, 128), element }
    } else {
        Kernel::Input {
            block: Block { tile: (128, 128), threads: 256, shared: 34_816 },
            element,
        }
    };
    let product = packed_input(dx.ptr, dy.ptr, w.ptr, dims);
    assert(device::named(kernel, step.symbol));
    assert(device::well_launched(kernel, step));
    if half_typed::dx_is_gemv(checked) {
        assert(device::input_column_product(step.args, element, numbers) == product);
    } else {
        assert(device::input_product(step.args, element, numbers) == product);
    }
    launch_leaves_its_product(kernel, step, product, memory, numbers, row, column);
}

/// The block of a tensor-core kernel; only the kernel of the largest tile has
/// dynamic shared memory.
pub open spec fn tensor_core_block(tile: TcTile, shared: int) -> Block {
    match tile {
        TcTile::Tile128 => Block { tile: (128, 128), threads: 256, shared },
        TcTile::Tile64 | TcTile::Tile64StreamK => scalar_products::tile_block(64, 64, 128),
        TcTile::Thin16 => scalar_products::tile_block(16, 32, 128),
        TcTile::Rect128x64 => scalar_products::tile_block(128, 64, 256),
    }
}

/// `Y = X W + bias` on the tensor cores: for every shape and tile that is
/// accepted, the launch sums over the `k` of the shape and writes its `m` rows
/// of `n` columns, each tensor with the stride of the shape.
#[verifier::spinoff_prover]
#[verifier::rlimit(60)]
pub proof fn tensor_core_forward_computes_the_product(
    ops: TcFwdOperands,
    shape: F32TriadShape,
    tile: TcTile,
    half: HalfStep,
    memory: Memory,
    numbers: Numbers,
    row: int,
    column: int,
)
    requires
        numbers.faithful(),
        half_tc::forward_tc_step(ops, shape, tile) == Ok::<HalfStep, LaunchError>(half),
        0 <= row < shape.m,
        0 <= column < shape.n,
    ensures
        leaves(
            half.step,
            (Product {
                rows: shape.m as int,
                columns: shape.n as int,
                depth: shape.k as int,
                target: Matrix::rows_apart(ops.y.ptr as int, 2, shape.ldc as int),
                a: Matrix::rows_apart(ops.x.ptr as int, 2, shape.lda as int),
                b: Matrix::rows_apart(ops.w.ptr as int, 2, shape.ldb as int),
                bias: ops.bias_ptr as int,
                alpha: 1,
                beta: 0,
            }),
            memory,
            numbers,
            row,
            column,
        ),
        records_its_tensors(half),
        records_its_product(
            half,
            ResolvedGemmOp::Nn,
            ops.y.dtype,
            (shape.m, shape.k, shape.n),
            (shape.lda, shape.ldb, shape.ldc),
        ),
        device::pointer_at(half.step.args, 1) == ops.x.ptr,
        device::pointer_at(half.step.args, 2) == ops.w.ptr,
        device::integer_at(half.step.args, 6) == shape.m,
        device::integer_at(half.step.args, 7) == shape.n,
        device::integer_at(half.step.args, 8) == shape.k,
{
    let element = element_of(ops.y.dtype);
    let step = half.step;
    let kernel = Kernel::Forward {
        block: tensor_core_block(tile, 71_680),
        element,
        post_op: false,
    };
    scalar_products::tiles_are_counted(shape.m as int, 128);
    scalar_products::tiles_are_counted(shape.n as int, 128);
    scalar_products::tiles_are_counted(shape.m as int, 64);
    scalar_products::tiles_are_counted(shape.n as int, 64);
    scalar_products::tiles_are_counted(shape.m as int, 16);
    scalar_products::tiles_are_counted(shape.n as int, 32);
    assert(device::named(kernel, step.symbol));
    assert(device::well_launched(kernel, step));
    launch_leaves_its_product(
        kernel,
        step,
        device::forward_product(step.args, element, numbers),
        memory,
        numbers,
        row,
        column,
    );
}

/// `dW += X^T dY` on the tensor cores; the stream-K kernel gets its partial
/// sums and its flags behind the extents.
#[verifier::spinoff_prover]
#[verifier::rlimit(60)]
pub proof fn tensor_core_weight_computes_the_gradient(
    dw: u64,
    dy: TypedPtr,
    x: TypedPtr,
    dims: (usize, usize, usize),
    tile: TcTile,
    target: StreamKTarget,
    half: HalfStep,
    memory: Memory,
    numbers: Numbers,
    row: int,
    column: int,
)
    requires
        numbers.faithful(),
        half_tc::dw_tc_step(dw, dy, x, dims, tile, target) == Ok::<HalfStep, LaunchError>(half),
        0 <= row < dims.1,
        0 <= column < dims.2,
    ensures
        leaves(
            half.step,
            packed_weight(dw, dy.ptr, x.ptr, dims),
            memory,
            numbers,
            row,
            column,
        ),
        records_its_tensors(half),
        records_its_product(
            half,
            ResolvedGemmOp::Tn,
            dy.dtype,
            dims,
            (dims.1, dims.2, dims.2),
        ),
        tile == TcTile::Tile64StreamK ==> {
            &&& device::pointer_at(half.step.args, 7) == target.partial
            &&& device::pointer_at(half.step.args, 8) == target.flags
        },
{
    let element = element_of(dy.dtype);
    let step = half.step;
    let kernel = Kernel::Weight {
        block: tensor_core_block(tile, 69_632),
        element,
        vectors: false,
        folds: tile == TcTile::Tile64StreamK,
    };
    scalar_products::tiles_are_counted(dims.1 as int, 128);
    scalar_products::tiles_are_counted(dims.2 as int, 128);
    scalar_products::tiles_are_counted(dims.1 as int, 64);
    scalar_products::tiles_are_counted(dims.2 as int, 64);
    assert(device::named(kernel, step.symbol));
    assert(device::well_launched(kernel, step));
    launch_leaves_its_product(
        kernel,
        step,
        device::weight_product(step.args, element, numbers),
        memory,
        numbers,
        row,
        column,
    );
}

/// `dX = dY W^T` on the tensor cores.
#[verifier::spinoff_prover]
#[verifier::rlimit(60)]
pub proof fn tensor_core_input_computes_the_gradient(
    dx: TypedPtr,
    dy: TypedPtr,
    w: TypedPtr,
    dims: (usize, usize, usize),
    tile: TcTile,
    half: HalfStep,
    memory: Memory,
    numbers: Numbers,
    row: int,
    column: int,
)
    requires
        numbers.faithful(),
        half_tc::dx_tc_step(dx, dy, w, dims, tile) == Ok::<HalfStep, LaunchError>(half),
        0 <= row < dims.0,
        0 <= column < dims.1,
    ensures
        leaves(
            half.step,
            packed_input(dx.ptr, dy.ptr, w.ptr, dims),
            memory,
            numbers,
            row,
            column,
        ),
        records_its_tensors(half),
        records_its_product(
            half,
            ResolvedGemmOp::Nt,
            dx.dtype,
            dims,
            (dims.2, dims.2, dims.1),
        ),
{
    let element = element_of(dx.dtype);
    let step = half.step;
    let kernel = Kernel::Input { block: tensor_core_block(tile, 73_728), element };
    scalar_products::tiles_are_counted(dims.0 as int, 128);
    scalar_products::tiles_are_counted(dims.1 as int, 128);
    scalar_products::tiles_are_counted(dims.0 as int, 64);
    scalar_products::tiles_are_counted(dims.1 as int, 64);
    assert(device::named(kernel, step.symbol));
    assert(device::well_launched(kernel, step));
    launch_leaves_its_product(
        kernel,
        step,
        device::input_product(step.args, element, numbers),
        memory,
        numbers,
        row,
        column,
    );
}

} // verus!
