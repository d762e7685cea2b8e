//! The launches of the scalar programs compute the products that they are
//! named after: `Y = X W + bias`, `dW += X^T dY` and `dX = dY W^T`.

use crate::arith;
use crate::arith::div_ceil_u32;
use crate::device;
use crate::device::{Block, Element, Kernel, Matrix, Memory, Numbers};
use crate::error::LaunchError;
use crate::kernel::{KernelArg, LaunchStep};
use crate::scalar_dw;
use crate::scalar_dw::DwCall;
use crate::scalar_forward;
use crate::scalar_forward::{ForwardCall, GemmBiFwdSubOperands};
use crate::scalar_launch::{PreparedScalar, ScalarWorkspace};
use crate::scalar_plan::ScalarDispatchPlan;
use crate::shape::{GemmDims, ResolvedGemmOp, F32_ONE_BITS, F32_ZERO_BITS};
use vstd::prelude::*;

verus! {

/// Memory after the first launches of a program, each of which runs the
/// kernel that its position calls for.
pub open spec fn executed(
    launches: Seq<LaunchStep>,
    kernels: spec_fn(int) -> Kernel,
    count: int,
    memory: Memory,
    numbers: Numbers,
) -> Memory
    decreases count,
{
    if count <= 0 {
        memory
    } else {
        device::run(
            kernels(count - 1),
            launches[count - 1],
            executed(launches, kernels, count - 1, memory, numbers),
            numbers,
        )
    }
}

/// A tiled block without dynamic shared memory.
pub open spec fn tile_block(rows: int, columns: int, threads: int) -> Block {
    Block { tile: (rows, columns), threads, shared: 0 }
}

/// The kernels of a forward plan.
pub open spec fn forward_kernels(plan: ScalarDispatchPlan) -> spec_fn(int) -> Kernel {
    |index: int|
        if index > 0 {
            Kernel::Fold
        } else {
            match plan {
                ScalarDispatchPlan::NnUltraThin => Kernel::ForwardRows { element: Element::F32 },
                ScalarDispatchPlan::NnNarrowSmall => Kernel::Forward {
                    block: tile_block(16, 16, 64),
                    element: Element::F32,
                    post_op: true,
                },
                ScalarDispatchPlan::NnNarrow => Kernel::Forward {
                    block: tile_block(64, 32, 128),
                    element: Element::F32,
                    post_op: true,
                },
                ScalarDispatchPlan::NnGemv => Kernel::ForwardColumn { element: Element::F32 },
                ScalarDispatchPlan::NnSplitKThinTail { .. }
                | ScalarDispatchPlan::NnSplitKThin => Kernel::Chunks32 { exact: false },
                ScalarDispatchPlan::NnM32N64SplitK32Qualified => Kernel::Chunks32 { exact: true },
                ScalarDispatchPlan::NnSplitKSlim { .. } => Kernel::ChunksSlim,
                ScalarDispatchPlan::NnM64N64Qualified => Kernel::Forward64 { prism: false },
                ScalarDispatchPlan::NnFinal { slim: true } => Kernel::Forward {
                    block: tile_block(128, 64, 128),
                    element: Element::F32,
                    post_op: false,
                },
                _ => Kernel::Forward {
                    block: Block { tile: (128, 128), threads: 256, shared: 34_816 },
                    element: Element::F32,
                    post_op: false,
                },
            }
        }
}

/// The chunks and the tail of a forward plan are the whole sum, and a plan
/// for one column has one.
pub open spec fn forward_plan_is_whole(plan: ScalarDispatchPlan, k: int, n: int) -> bool {
    match plan {
        ScalarDispatchPlan::NnGemv => n == 1,
        ScalarDispatchPlan::NnSplitKThinTail { k_main, k_tail } => k_main % 32 == 0 && k_main
            + k_tail == k,
        ScalarDispatchPlan::NnSplitKThin | ScalarDispatchPlan::NnM32N64SplitK32Qualified => k % 32
            == 0,
        ScalarDispatchPlan::NnSplitKSlim { chunks } => chunks * 64 >= k,
        _ => true,
    }
}

/// A forward plan that folds its output from partial sums overwrites it.
pub open spec fn forward_plan_overwrites(plan: ScalarDispatchPlan) -> bool {
    ||| plan is NnSplitKThinTail
    ||| plan is NnSplitKThin
    ||| plan is NnSplitKSlim
    ||| plan is NnM32N64SplitK32Qualified
}

/// The number of tiles is counted without overflow.
pub proof fn tiles_are_counted(value: int, tile: u32)
    requires
        0 <= value <= u32::MAX,
        tile > 0,
    ensures
        div_ceil_u32(value as u32, tile) == device::tiles(value, tile as int),
        0 <= device::tiles(value, tile as int) <= u32::MAX,
{
    arith::ceil_div_is_least_cover(value, tile as int);
}

/// The product that a forward call stands for.
pub open spec fn forward_value(
    call: ForwardCall,
    memory: Memory,
    numbers: Numbers,
    row: int,
    column: int,
) -> int {
    (numbers.of_bits)(call.alpha) * device::dot(
        memory,
        Matrix::rows_apart(call.operands.x_ptr as int, 4, call.dims.lda as int),
        Matrix::rows_apart(call.operands.w_ptr as int, 4, call.dims.n as int),
        row,
        column,
        0,
        call.dims.k as int,
    ) + (numbers.of_bits)(call.beta) * Matrix::rows_apart(
        call.output as int,
        4,
        call.dims.n as int,
    ).at(memory, row, column) + device::bias_at(memory, call.operands.bias_ptr as int, column)
}

/// What a forward program leaves at an element of its output.
pub open spec fn forward_left(
    call: ForwardCall,
    plan: ScalarDispatchPlan,
    memory: Memory,
    numbers: Numbers,
    row: int,
    column: int,
) -> int {
    let program = scalar_forward::forward_program(call, plan);
    Matrix::rows_apart(call.output as int, 4, call.dims.n as int).at(
        executed(
            program.launches,
            forward_kernels(plan),
            program.launches.len() as int,
            memory,
            numbers,
        ),
        row,
        column,
    )
}

#[verifier::spinoff_prover]
#[verifier::rlimit(60)]
proof fn single_forward_computes(
    call: ForwardCall,
    plan: ScalarDispatchPlan,
    memory: Memory,
    numbers: Numbers,
    row: int,
    column: int,
)
    requires
        call.dims.wf(),
        plan.op() is Nn,
        !forward_plan_overwrites(plan),
        forward_plan_is_whole(plan, call.dims.k as int, call.dims.n as int),
        scalar_forward::forward_program(call, plan).outcome is Ok,
        0 <= row < call.dims.m,
        0 <= column < call.dims.n,
    ensures
        forward_left(call, plan, memory, numbers, row, column) == forward_value(
            call,
            memory,
            numbers,
            row,
            column,
        ),
{
    let program = scalar_forward::forward_program(call, plan);
    let step = program.launches[0];
    let kernel = forward_kernels(plan)(0);
    assert(program.launches.len() == 1);
    tiles_are_counted(call.dims.m as int, 16);
    tiles_are_counted(call.dims.n as int, 16);
    tiles_are_counted(call.dims.m as int, 64);
    tiles_are_counted(call.dims.n as int, 32);
    tiles_are_counted(call.dims.n as int, 64);
    tiles_are_counted(call.dims.m as int, 128);
    tiles_are_counted(call.dims.n as int, 128);
    tiles_are_counted(call.dims.m as int, 4);
    assert(device::named(kernel, step.symbol));
    assert(device::well_launched(kernel, step));
    reveal_with_fuel(executed, 2);
    let product = match kernel {
        Kernel::ForwardColumn { .. } => device::forward_column_product(
            step.args,
            Element::F32,
            numbers,
        ),
        Kernel::Forward64 { .. } => device::forward64_product(step.args, numbers),
        _ => device::forward_product(step.args, Element::F32, numbers),
    };
    let y = Matrix::rows_apart(call.output as int, 4, call.dims.n as int);
    assert(product.target == y);
    assert(product.rows == call.dims.m && product.columns == call.dims.n);
    device::stored_elements_are_read_back(
        memory,
        y,
        product.rows,
        product.columns,
        |i: int, j: int| product.element(memory, i, j),
        row,
        column,
    );
}

/// The fold behind the chunks of a product: the tail goes on where the chunks
/// end.
pub proof fn folded_product(
    memory: Memory,
    numbers: Numbers,
    workspace: int,
    chunks: int,
    chunk: int,
    rows: int,
    columns: int,
    main: int,
    depth: int,
    a: Matrix,
    b: Matrix,
    args: Seq<KernelArg>,
    row: int,
    column: int,
)
    requires
        chunks >= 0,
        chunk >= 0,
        0 <= main <= depth,
        chunks * chunk >= main,
        a.column_step == 1,
        a.width == 4,
        b == Matrix::rows_apart(b.base, 4, columns),
        0 <= row < rows,
        0 <= column < columns,
        device::pointer_at(args, 1) == workspace,
        device::integer_at(args, 6) == rows,
        device::integer_at(args, 7) == columns,
        device::integer_at(args, 8) == chunks,
        device::integer_at(args, 10) == 0 || device::integer_at(args, 10) >= columns,
        device::integer_at(args, 11) == depth - main,
        main < depth ==> {
            &&& device::pointer_at(args, 3) == a.base + 4 * main
            &&& device::pointer_at(args, 4) == b.base + 4 * (main * columns)
            &&& device::integer_at(args, 9) == a.row_step
        },
    ensures
        ({
            let summed = device::chunked(
                memory,
                workspace,
                chunks,
                chunk,
                rows,
                columns,
                main,
                a,
                b,
            );
            let target = device::fold_target(args);
            let left = device::stored(
                summed,
                target,
                rows,
                columns,
                |r: int, c: int| device::fold_element(args, summed, numbers, r, c),
            );
            target.at(left, row, column) == device::number_at(args, 5, numbers) * device::dot(
                memory,
                a,
                b,
                row,
                column,
                0,
                depth,
            ) + device::bias_at(memory, device::pointer_at(args, 2), column)
        }),
{
    let summed = device::chunked(memory, workspace, chunks, chunk, rows, columns, main, a, b);
    let target = device::fold_target(args);
    device::stored_elements_are_read_back(
        summed,
        target,
        rows,
        columns,
        |r: int, c: int| device::fold_element(args, summed, numbers, r, c),
        row,
        column,
    );
    device::chunks_add_up(
        memory,
        workspace,
        chunks,
        chunk,
        rows,
        columns,
        main,
        a,
        b,
        chunks,
        row,
        column,
    );
    let tail_a = Matrix::rows_apart(device::pointer_at(args, 3), 4, device::integer_at(args, 9));
    let tail_b = Matrix::rows_apart(device::pointer_at(args, 4), 4, columns);
    assert forall|t: int| 0 <= t < depth - main implies #[trigger] tail_b.at(summed, t, column)
        == b.at(memory, t + main, column) by {
        assert((t + main) * columns == t * columns + main * columns) by (nonlinear_arith);
    }
    device::dots_agree(
        summed,
        tail_a,
        tail_b,
        row,
        column,
        memory,
        a,
        b,
        row,
        column,
        main,
        0,
        depth - main,
    );
    device::dots_add_up(memory, a, b, row, column, 0, main, depth);
}

#[verifier::spinoff_prover]
#[verifier::rlimit(60)]
proof fn folded_forward_computes(
    call: ForwardCall,
    plan: ScalarDispatchPlan,
    memory: Memory,
    numbers: Numbers,
    row: int,
    column: int,
)
    requires
        call.dims.wf(),
        plan.op() is Nn,
        forward_plan_overwrites(plan),
        forward_plan_is_whole(plan, call.dims.k as int, call.dims.n as int),
        scalar_forward::forward_program(call, plan).outcome is Ok,
        (numbers.of_bits)(call.beta) == 0,
        0 <= row < call.dims.m,
        0 <= column < call.dims.n,
    ensures
        forward_left(call, plan, memory, numbers, row, column) == forward_value(
            call,
            memory,
            numbers,
            row,
            column,
        ),
{
    let program = scalar_forward::forward_program(call, plan);
    let first = program.launches[0];
    let second = program.launches[1];
    let kernel = forward_kernels(plan)(0);
    assert(program.launches.len() == 2);
    assert(forward_kernels(plan)(1) == Kernel::Fold);
    tiles_are_counted(call.dims.m as int, 32);
    tiles_are_counted(call.dims.n as int, 64);
    tiles_are_counted(call.dims.m as int, 128);
    assert(0 <= call.dims.m * call.dims.n) by (nonlinear_arith);
    tiles_are_counted(call.dims.m * call.dims.n, 256);
    assert(device::named(kernel, first.symbol));
    assert(device::well_launched(kernel, first));
    assert(device::named(Kernel::Fold, second.symbol));
    assert(device::well_launched(Kernel::Fold, second));
    reveal_with_fuel(executed, 3);
    let a = Matrix::rows_apart(call.operands.x_ptr as int, 4, call.dims.lda as int);
    let b = Matrix::rows_apart(call.operands.w_ptr as int, 4, call.dims.n as int);
    let (main, chunks, chunk) = match plan {
        ScalarDispatchPlan::NnSplitKThinTail { k_main, .. } => (
            k_main as int,
            k_main as int / 32,
            32int,
        ),
        ScalarDispatchPlan::NnSplitKSlim { chunks } => (call.dims.k as int, chunks as int, 64int),
        _ => (call.dims.k as int, call.dims.k as int / 32, 32int),
    };
    let summed = device::chunked(
        memory,
        call.split as int,
        chunks,
        chunk,
        call.dims.m as int,
        call.dims.n as int,
        main,
        a,
        b,
    );
    assert(device::effect(kernel, first, memory, numbers) == summed);
    folded_product(
        memory,
        numbers,
        call.split as int,
        chunks,
        chunk,
        call.dims.m as int,
        call.dims.n as int,
        main,
        call.dims.k as int,
        a,
        b,
        second.args,
        row,
        column,
    );
    assert(device::fold_target(second.args) == Matrix::rows_apart(
        call.output as int,
        4,
        call.dims.n as int,
    ));
}

/// `Y = alpha X W + beta Y + bias`: whatever the plan, the launches of a
/// forward product leave it in memory. X has rows `lda` apart, W and Y are
/// packed, and the factors are one and zero unless a prepared launch froze
/// others. A plan that folds its output overwrites it, so beta is then zero.
pub proof fn forward_launches_compute_the_product(
    output: u64,
    operands: GemmBiFwdSubOperands,
    dims: (usize, usize, usize),
    prepared: Option<PreparedScalar>,
    selected: Result<ScalarDispatchPlan, LaunchError>,
    workspace: ScalarWorkspace,
    plan: ScalarDispatchPlan,
    alpha: u32,
    beta: u32,
    memory: Memory,
    numbers: Numbers,
    row: int,
    column: int,
)
    requires
        scalar_forward::forward_sub_program(
            output,
            operands,
            dims,
            prepared,
            selected,
            workspace,
        ).outcome is Ok,
        match prepared {
            Some(prepared) => plan == prepared.plan && alpha == prepared.operands.alpha && beta
                == prepared.operands.beta,
            None => selected == Ok::<ScalarDispatchPlan, LaunchError>(plan) && alpha
                == F32_ONE_BITS && beta == F32_ZERO_BITS,
        },
        plan.op() is Nn,
        forward_plan_is_whole(plan, dims.1 as int, dims.2 as int),
        forward_plan_overwrites(plan) ==> (numbers.of_bits)(beta) == 0,
        0 <= row < dims.0,
        0 <= column < dims.2,
    ensures
        ({
            let launches = scalar_forward::forward_sub_program(
                output,
                operands,
                dims,
                prepared,
                selected,
                workspace,
            ).launches;
            let x = Matrix::rows_apart(operands.x_ptr as int, 4, operands.lda as int);
            let w = Matrix::rows_apart(operands.w_ptr as int, 4, dims.2 as int);
            let y = Matrix::rows_apart(output as int, 4, dims.2 as int);
            let left = executed(
                launches,
                forward_kernels(plan),
                launches.len() as int,
                memory,
                numbers,
            );
            y.at(left, row, column) == (numbers.of_bits)(alpha) * device::dot(
                memory,
                x,
                w,
                row,
                column,
                0,
                dims.1 as int,
            ) + (numbers.of_bits)(beta) * y.at(memory, row, column) + device::bias_at(
                memory,
                operands.bias_ptr as int,
                column,
            )
        }),
{
    let checked = GemmDims::resolve(dims, operands.lda, dims.1)->Ok_0;
    let call = scalar_forward::forward_call(checked, output, operands, prepared, workspace);
    if forward_plan_overwrites(plan) {
        folded_forward_computes(call, plan, memory, numbers, row, column);
    } else {
        single_forward_computes(call, plan, memory, numbers, row, column);
    }
}

/// The kernels of a weight-gradient plan. Vectors are loaded where every
/// tensor that the kernel touches is aligned to them.
pub open spec fn weight_kernels(
    plan: ScalarDispatchPlan,
    dw: u64,
    x: u64,
    dy: u64,
) -> spec_fn(int) -> Kernel {
    let inputs = x % 16 == 0 && dy % 16 == 0;
    |index: int|
        if index > 0 {
            Kernel::FoldWeight
        } else {
            match plan {
                ScalarDispatchPlan::TnGemv => Kernel::WeightColumn { element: Element::F32 },
                ScalarDispatchPlan::TnNarrow => Kernel::Weight {
                    block: tile_block(64, 32, 128),
                    element: Element::F32,
                    vectors: false,
                    folds: false,
                },
                ScalarDispatchPlan::TnNarrowSplitM { .. } => Kernel::ChunksOfRows {
                    narrow: true,
                    vectors: inputs,
                },
                ScalarDispatchPlan::TnM16N16SplitM16Qualified => Kernel::Weight {
                    block: Block { tile: (16, 16), threads: 64, shared: 4_096 },
                    element: Element::F32,
                    vectors: false,
                    folds: false,
                },
                ScalarDispatchPlan::TnSplitM { .. } => Kernel::ChunksOfRows {
                    narrow: false,
                    vectors: inputs,
                },
                ScalarDispatchPlan::TnFinal { slim: true } => Kernel::Weight {
                    block: tile_block(128, 64, 128),
                    element: Element::F32,
                    vectors: false,
                    folds: false,
                },
                _ => Kernel::Weight {
                    block: Block { tile: (128, 128), threads: 256, shared: 34_816 },
                    element: Element::F32,
                    vectors: inputs && dw % 16 == 0,
                    folds: false,
                },
            }
        }
}

/// The partitions of a weight-gradient plan cover all rows, and a plan for one
/// column has one.
pub open spec fn weight_plan_is_whole(plan: ScalarDispatchPlan, m: int, n: int) -> bool {
    match plan {
        ScalarDispatchPlan::TnGemv => n == 1,
        ScalarDispatchPlan::TnNarrowSplitM { m_chunk, chunks } => chunks * m_chunk >= m,
        ScalarDispatchPlan::TnSplitM { m_chunk, chunks } => chunks * m_chunk >= m,
        _ => true,
    }
}

/// What a weight-gradient program leaves at an element of the gradient.
pub open spec fn weight_left(
    call: DwCall,
    plan: ScalarDispatchPlan,
    memory: Memory,
    numbers: Numbers,
    row: int,
    column: int,
) -> int {
    let program = scalar_dw::dw_program(call, plan);
    Matrix::rows_apart(call.operands.output as int, 4, call.dims.n as int).at(
        executed(
            program.launches,
            weight_kernels(plan, call.operands.output, call.operands.a, call.operands.b),
            program.launches.len() as int,
            memory,
            numbers,
        ),
        row,
        column,
    )
}

/// The gradient that a weight-gradient call stands for.
pub open spec fn weight_value(
    call: DwCall,
    memory: Memory,
    numbers: Numbers,
    row: int,
    column: int,
) -> int {
    Matrix::rows_apart(call.operands.output as int, 4, call.dims.n as int).at(memory, row, column)
        + (numbers.of_bits)(call.operands.alpha) * device::dot(
        memory,
        Matrix::rows_apart(call.operands.a as int, 4, call.dims.k as int).transposed(),
        Matrix::rows_apart(call.operands.b as int, 4, call.dims.n as int),
        row,
        column,
        0,
        call.dims.m as int,
    )
}

#[verifier::spinoff_prover]
#[verifier::rlimit(60)]
proof fn single_weight_computes(
    call: DwCall,
    plan: ScalarDispatchPlan,
    memory: Memory,
    numbers: Numbers,
    row: int,
    column: int,
)
    requires
        call.dims.wf(),
        plan.op() is Tn,
        !(plan is TnNarrowSplitM),
        !(plan is TnSplitM),
        weight_plan_is_whole(plan, call.dims.m as int, call.dims.n as int),
        scalar_dw::dw_program(call, plan).outcome is Ok,
        0 <= row < call.dims.k,
        0 <= column < call.dims.n,
    ensures
        weight_left(call, plan, memory, numbers, row, column) == weight_value(
            call,
            memory,
            numbers,
            row,
            column,
        ),
{
    let program = scalar_dw::dw_program(call, plan);
    let step = program.launches[0];
    let kernel = weight_kernels(plan, call.operands.output, call.operands.a, call.operands.b)(0);
    assert(program.launches.len() == 1);
    tiles_are_counted(call.dims.k as int, 16);
    tiles_are_counted(call.dims.n as int, 16);
    tiles_are_counted(call.dims.k as int, 64);
    tiles_are_counted(call.dims.n as int, 32);
    tiles_are_counted(call.dims.n as int, 64);
    tiles_are_counted(call.dims.k as int, 128);
    tiles_are_counted(call.dims.n as int, 128);
    tiles_are_counted(call.dims.k as int, 4);
    assert(device::named(kernel, step.symbol));
    assert(device::well_launched(kernel, step));
    reveal_with_fuel(executed, 2);
    let product = match kernel {
        Kernel::WeightColumn { .. } => device::weight_column_product(
            step.args,
            Element::F32,
            numbers,
        ),
        _ => device::weight_product(step.args, Element::F32, numbers),
    };
    let dw = Matrix::rows_apart(call.operands.output as int, 4, call.dims.n as int);
    assert(product.target == dw);
    assert(product.rows == call.dims.k && product.columns == call.dims.n);
    assert(product.depth == call.dims.m);
    assert(product.a == Matrix::rows_apart(
        call.operands.a as int,
        4,
        call.dims.k as int,
    ).transposed());
    assert(product.b == Matrix::rows_apart(call.operands.b as int, 4, call.dims.n as int));
    assert(product.beta * dw.at(memory, row, column) == dw.at(memory, row, column)) by (
    nonlinear_arith)
        requires
            product.beta == 1,
    ;
    device::stored_elements_are_read_back(
        memory,
        dw,
        product.rows,
        product.columns,
        |i: int, j: int| product.element(memory, i, j),
        row,
        column,
    );
}

#[verifier::spinoff_prover]
#[verifier::rlimit(60)]
proof fn folded_weight_computes(
    call: DwCall,
    plan: ScalarDispatchPlan,
    memory: Memory,
    numbers: Numbers,
    row: int,
    column: int,
)
    requires
        call.dims.wf(),
        plan is TnNarrowSplitM || plan is TnSplitM,
        weight_plan_is_whole(plan, call.dims.m as int, call.dims.n as int),
        scalar_dw::dw_program(call, plan).outcome is Ok,
        0 <= row < call.dims.k,
        0 <= column < call.dims.n,
    ensures
        weight_left(call, plan, memory, numbers, row, column) == weight_value(
            call,
            memory,
            numbers,
            row,
            column,
        ),
{
    let program = scalar_dw::dw_program(call, plan);
    let first = program.launches[0];
    let second = program.launches[1];
    let kernels = weight_kernels(plan, call.operands.output, call.operands.a, call.operands.b);
    let kernel = kernels(0);
    assert(program.launches.len() == 2);
    assert(kernels(1) == Kernel::FoldWeight);
    tiles_are_counted(call.dims.k as int, 64);
    tiles_are_counted(call.dims.n as int, 32);
    tiles_are_counted(call.dims.k as int, 128);
    tiles_are_counted(call.dims.n as int, 128);
    assert(0 <= call.dims.k * call.dims.n) by (nonlinear_arith);
    tiles_are_counted(call.dims.k * call.dims.n, 256);
    assert(device::named(kernel, first.symbol));
    assert(device::well_launched(kernel, first));
    assert(device::named(Kernel::FoldWeight, second.symbol));
    assert(device::well_launched(Kernel::FoldWeight, second));
    reveal_with_fuel(executed, 3);
    let a = Matrix::rows_apart(call.operands.a as int, 4, call.dims.k as int).transposed();
    let b = Matrix::rows_apart(call.operands.b as int, 4, call.dims.n as int);
    let (m_chunk, chunks) = match plan {
        ScalarDispatchPlan::TnNarrowSplitM { m_chunk, chunks } => (m_chunk as int, chunks as int),
        ScalarDispatchPlan::TnSplitM { m_chunk, chunks } => (m_chunk as int, chunks as int),
        _ => (0int, 0int),
    };
    let summed = device::chunked(
        memory,
        call.split as int,
        chunks,
        m_chunk,
        call.dims.k as int,
        call.dims.n as int,
        call.dims.m as int,
        a,
        b,
    );
    assert(device::effect(kernel, first, memory, numbers) == summed);
    device::chunks_add_up(
        memory,
        call.split as int,
        chunks,
        m_chunk,
        call.dims.k as int,
        call.dims.n as int,
        call.dims.m as int,
        a,
        b,
        chunks,
        row,
        column,
    );
    let dw = Matrix::rows_apart(call.operands.output as int, 4, call.dims.n as int);
    device::stored_elements_are_read_back(
        summed,
        dw,
        call.dims.k as int,
        call.dims.n as int,
        |i: int, j: int|
            dw.at(summed, i, j) + (numbers.of_bits)(call.operands.alpha) * device::folded(
                summed,
                call.split as int,
                chunks,
                i,
                j,
            ),
        row,
        column,
    );
}

/// `dW += alpha X^T dY`: whatever the plan, the launches of a weight gradient
/// leave it in memory. X has the rows of the batch and `k` columns, dY has the
/// rows of the batch and `n` columns, and alpha is one unless a prepared
/// launch froze another factor.
pub proof fn weight_launches_compute_the_gradient(
    dw_ptr: u64,
    dy: u64,
    x_saved: u64,
    dims: (usize, usize, usize),
    prepared: Option<PreparedScalar>,
    selected: Result<ScalarDispatchPlan, LaunchError>,
    workspace: ScalarWorkspace,
    plan: ScalarDispatchPlan,
    alpha: u32,
    memory: Memory,
    numbers: Numbers,
    row: int,
    column: int,
)
    requires
        scalar_dw::backward_dw_program(
            dw_ptr,
            dy,
            x_saved,
            dims,
            prepared,
            selected,
            workspace,
        ).outcome is Ok,
        match prepared {
            Some(prepared) => plan == prepared.plan && alpha == prepared.operands.alpha,
            None => selected == Ok::<ScalarDispatchPlan, LaunchError>(plan) && alpha
                == F32_ONE_BITS,
        },
        plan.op() is Tn,
        weight_plan_is_whole(plan, dims.0 as int, dims.2 as int),
        0 <= row < dims.1,
        0 <= column < dims.2,
    ensures
        ({
            let launches = scalar_dw::backward_dw_program(
                dw_ptr,
                dy,
                x_saved,
                dims,
                prepared,
                selected,
                workspace,
            ).launches;
            let x = Matrix::rows_apart(x_saved as int, 4, dims.1 as int);
            let dy_rows = Matrix::rows_apart(dy as int, 4, dims.2 as int);
            let dw = Matrix::rows_apart(dw_ptr as int, 4, dims.2 as int);
            let left = executed(
                launches,
                weight_kernels(plan, dw_ptr, x_saved, dy),
                launches.len() as int,
                memory,
                numbers,
            );
            dw.at(left, row, column) == dw.at(memory, row, column) + (numbers.of_bits)(alpha)
                * device::dot(memory, x.transposed(), dy_rows, row, column, 0, dims.0 as int)
        }),
{
    let checked = scalar_dw::backward_request(
        ResolvedGemmOp::Tn,
        dims,
    )->Ok_0.0;
    let call = scalar_dw::dw_call(checked, dw_ptr, dy, x_saved, prepared, workspace);
    if plan is TnNarrowSplitM || plan is TnSplitM {
        folded_weight_computes(call, plan, memory, numbers, row, column);
    } else {
        single_weight_computes(call, plan, memory, numbers, row, column);
    }
}

/// The first launch of every forward plan reads X at its second argument and W
/// at its third.
pub proof fn forward_launches_read_x_and_w(
    output: u64,
    operands: GemmBiFwdSubOperands,
    dims: (usize, usize, usize),
    prepared: Option<PreparedScalar>,
    selected: Result<ScalarDispatchPlan, LaunchError>,
    workspace: ScalarWorkspace,
    plan: ScalarDispatchPlan,
)
    requires
        scalar_forward::forward_sub_program(
            output,
            operands,
            dims,
            prepared,
            selected,
            workspace,
        ).outcome is Ok,
        scalar_forward::used_plan(prepared, selected) == Ok::<ScalarDispatchPlan, LaunchError>(
            plan,
        ),
        plan.op() is Nn,
    ensures
        ({
            let launches = scalar_forward::forward_sub_program(
                output,
                operands,
                dims,
                prepared,
                selected,
                workspace,
            ).launches;
            &&& launches.len() >= 1
            &&& launches[0].args[1] == KernelArg::Pointer(operands.x_ptr)
            &&& launches[0].args[2] == KernelArg::Pointer(operands.w_ptr)
            &&& launches.last().args[0] == KernelArg::Pointer(output)
        }),
{
}

/// The partitions of a split weight gradient are sums of `X^T dY`: the launch
/// writes the workspace, reads the saved X and dY, and gets the rows of the
/// batch, the rows and the columns of the gradient and the rows of a
/// partition, in this order. What it wrote is then folded into the gradient.
pub proof fn partitions_sum_x_transposed_dy(
    dw_ptr: u64,
    dy: u64,
    x_saved: u64,
    dims: (usize, usize, usize),
    prepared: Option<PreparedScalar>,
    selected: Result<ScalarDispatchPlan, LaunchError>,
    workspace: ScalarWorkspace,
    plan: ScalarDispatchPlan,
    m_chunk: usize,
    chunks: usize,
)
    requires
        scalar_dw::backward_dw_program(
            dw_ptr,
            dy,
            x_saved,
            dims,
            prepared,
            selected,
            workspace,
        ).outcome is Ok,
        scalar_forward::used_plan(prepared, selected) == Ok::<ScalarDispatchPlan, LaunchError>(
            plan,
        ),
        plan == (ScalarDispatchPlan::TnSplitM { m_chunk, chunks }) || plan == (
        ScalarDispatchPlan::TnNarrowSplitM { m_chunk, chunks }),
    ensures
        ({
            let launches = scalar_dw::backward_dw_program(
                dw_ptr,
                dy,
                x_saved,
                dims,
                prepared,
                selected,
                workspace,
            ).launches;
            &&& launches.len() == 2
            &&& launches[0].args == seq![
                KernelArg::Pointer(workspace.split),
                KernelArg::Pointer(x_saved),
                KernelArg::Pointer(dy),
                KernelArg::Int(dims.0 as i32),
                KernelArg::Int(dims.1 as i32),
                KernelArg::Int(dims.2 as i32),
                KernelArg::Int(m_chunk as i32),
            ]
            &&& launches[0].config.grid_dim.2 == chunks
            &&& launches[1].args[0] == KernelArg::Pointer(dw_ptr)
            &&& launches[1].args[1] == launches[0].args[0]
        }),
{
}

} // verus!
