//! The launches of the scalar input gradients compute `dX = dY W^T`.

use crate::device;
use crate::device::{Block, Element, Kernel, Matrix, Memory, Numbers};
use crate::error::LaunchError;
use crate::kernel::{KernelArg, LaunchStep, Program};
use crate::scalar_dw;
use crate::scalar_dx;
use crate::scalar_dx::DxCall;
use crate::scalar_forward;
use crate::scalar_launch::{PreparedScalar, ScalarWorkspace};
use crate::scalar_laws;
use crate::scalar_plan::ScalarDispatchPlan;
use crate::scalar_products;
use crate::shape::{ResolvedGemmOp, F32_ONE_BITS};
use vstd::prelude::*;

verus! {

/// The kernels of an input-gradient plan.
pub open spec fn input_kernels(plan: ScalarDispatchPlan) -> spec_fn(int) -> Kernel {
    |index: int|
        if index > 2 {
            Kernel::InputTail
        } else if index == 2 {
            Kernel::Fold
        } else if index == 1 {
            match plan {
                ScalarDispatchPlan::NtSplitKTail { .. }
                | ScalarDispatchPlan::NtSplitKMain { .. } => Kernel::Chunks32 { exact: false },
                ScalarDispatchPlan::NtSplitKSlim { .. } => Kernel::ChunksSlim,
                _ => Kernel::Forward64 { prism: plan is NtPrismVectorQualified },
            }
        } else {
            match plan {
                ScalarDispatchPlan::NtM2N16SplitK32Qualified => Kernel::Input {
                    block: Block { tile: (2, 16), threads: 64, shared: 17_984 },
                    element: Element::F32,
                },
                ScalarDispatchPlan::NtD768TransposeM64N64Qualified
                | ScalarDispatchPlan::NtD768OutTransposeM64N64Qualified
                | ScalarDispatchPlan::NtLargeDeepTransposeM64N64Qualified
                | ScalarDispatchPlan::NtPrismVectorQualified
                | ScalarDispatchPlan::NtD128OutTransposeM64N64Qualified => Kernel::Transpose {
                    block_rows: 16,
                },
                ScalarDispatchPlan::NtNarrow
                | ScalarDispatchPlan::NtSmallBatchWide
                | ScalarDispatchPlan::NtMidBatchWide => Kernel::Input {
                    block: scalar_products::tile_block(64, 32, 128),
                    element: Element::F32,
                },
                ScalarDispatchPlan::NtGemv => Kernel::InputColumn { element: Element::F32 },
                ScalarDispatchPlan::NtSplitKTail { .. }
                | ScalarDispatchPlan::NtSplitKMain { .. }
                | ScalarDispatchPlan::NtSplitKSlim { .. } => Kernel::Transpose { block_rows: 32 },
                ScalarDispatchPlan::NtFinal { slim: true } => Kernel::Input {
                    block: scalar_products::tile_block(128, 64, 128),
                    element: Element::F32,
                },
                _ => Kernel::Input {
                    block: Block { tile: (128, 128), threads: 256, shared: 33_376 },
                    element: Element::F32,
                },
            }
        }
}

/// The chunks and the tails of an input-gradient plan are the whole product, a
/// plan for one column sums over one, and a fixed grid covers the output.
pub open spec fn input_plan_is_whole(plan: ScalarDispatchPlan, m: int, k: int, n: int) -> bool {
    match plan {
        ScalarDispatchPlan::NtGemv => n == 1,
        ScalarDispatchPlan::NtM2N16SplitK32Qualified => device::tiles(m, 2) * device::tiles(k, 16)
            == 256,
        ScalarDispatchPlan::NtSplitKTail { k_main, k_tail } => n % 32 == 0 && k_main + k_tail == k,
        ScalarDispatchPlan::NtSplitKMain { n_main, n_tail } => n_main % 32 == 0 && n_main + n_tail
            == n,
        ScalarDispatchPlan::NtSplitKSlim { chunks } => chunks * 64 >= n,
        _ => true,
    }
}

/// How many weight rows a plan transposes first; none where it reads them in
/// place.
pub open spec fn transposed_rows(plan: ScalarDispatchPlan, k: int) -> int {
    match plan {
        ScalarDispatchPlan::NtSplitKTail { k_main, .. } => k_main as int,
        ScalarDispatchPlan::NtSplitKMain { .. } | ScalarDispatchPlan::NtSplitKSlim { .. } => k,
        ScalarDispatchPlan::NtD768TransposeM64N64Qualified
        | ScalarDispatchPlan::NtD768OutTransposeM64N64Qualified
        | ScalarDispatchPlan::NtLargeDeepTransposeM64N64Qualified
        | ScalarDispatchPlan::NtPrismVectorQualified
        | ScalarDispatchPlan::NtD128OutTransposeM64N64Qualified => k,
        _ => 0,
    }
}

/// The tensors of an input gradient do not overlap what its launches write
/// before they read: the transposed weights, and the first columns of a
/// gradient whose last columns are computed one by one.
pub open spec fn input_tensors_are_apart(
    plan: ScalarDispatchPlan,
    dx: int,
    dy: int,
    w: int,
    copy: int,
    m: int,
    k: int,
    n: int,
) -> bool {
    let rows = transposed_rows(plan, k);
    let dx_rows = Matrix::rows_apart(dx, 4, k);
    let dy_rows = Matrix::rows_apart(dy, 4, n);
    let w_rows = Matrix::rows_apart(w, 4, n);
    let copied = Matrix::rows_apart(copy, 4, rows);
    &&& device::apart(copied, n, rows, dy_rows, m, n)
    &&& plan is NtSplitKTail ==> {
        &&& device::apart(copied, n, rows, w_rows, k, n)
        &&& device::apart(dx_rows, m, k, dy_rows, m, n)
        &&& device::apart(dx_rows, m, k, w_rows, k, n)
    }
}

/// The gradient that an input-gradient call stands for.
pub open spec fn input_value(
    call: DxCall,
    memory: Memory,
    numbers: Numbers,
    row: int,
    column: int,
) -> int {
    (numbers.of_bits)(call.operands.alpha) * device::dot(
        memory,
        Matrix::rows_apart(call.operands.a as int, 4, call.dims.n as int),
        Matrix::rows_apart(call.operands.b as int, 4, call.dims.n as int).transposed(),
        row,
        column,
        0,
        call.dims.n as int,
    )
}

/// What an input-gradient program leaves at an element of the gradient.
pub open spec fn input_left(
    call: DxCall,
    plan: ScalarDispatchPlan,
    memory: Memory,
    numbers: Numbers,
    row: int,
    column: int,
) -> int {
    let program = scalar_dx::dx_program(call, plan);
    Matrix::rows_apart(call.operands.output as int, 4, call.dims.k as int).at(
        scalar_products::executed(
            program.launches,
            input_kernels(plan),
            program.launches.len() as int,
            memory,
            numbers,
        ),
        row,
        column,
    )
}

/// What a call and its plan must meet.
pub open spec fn input_call_is_whole(
    call: DxCall,
    plan: ScalarDispatchPlan,
    numbers: Numbers,
) -> bool {
    &&& call.dims.wf()
    &&& plan.op() is Nt
    &&& scalar_dx::dx_program(call, plan).outcome is Ok
    &&& numbers.faithful()
    &&& input_plan_is_whole(plan, call.dims.m as int, call.dims.k as int, call.dims.n as int)
    &&& input_tensors_are_apart(
        plan,
        call.operands.output as int,
        call.operands.a as int,
        call.operands.b as int,
        call.workspace.transpose as int,
        call.dims.m as int,
        call.dims.k as int,
        call.dims.n as int,
    )
}

/// A product with a transposed copy is the product with the transpose.
pub proof fn transposed_copy_is_multiplied(
    memory: Memory,
    copy: int,
    dy: Matrix,
    m: int,
    w: int,
    rows: int,
    n: int,
    row: int,
    column: int,
    from: int,
    to: int,
)
    requires
        device::apart(Matrix::rows_apart(copy, 4, rows), n, rows, dy, m, n),
        0 <= row < m,
        0 <= column < rows,
        0 <= from,
        to <= n,
    ensures
        device::dot(
            device::copied_transposed(memory, copy, w, rows, n),
            dy,
            Matrix::rows_apart(copy, 4, rows),
            row,
            column,
            from,
            to,
        ) == device::dot(
            memory,
            dy,
            Matrix::rows_apart(w, 4, n).transposed(),
            row,
            column,
            from,
            to,
        ),
{
    let copied = device::copied_transposed(memory, copy, w, rows, n);
    let target = Matrix::rows_apart(copy, 4, rows);
    let source = Matrix::rows_apart(w, 4, n);
    let value = |r: int, c: int| source.at(memory, c, r);
    assert(copied == device::stored(memory, target, n, rows, value));
    assert forall|t: int| from <= t < to implies #[trigger] dy.at(copied, row, t) == dy.at(
        memory,
        row,
        t + 0,
    ) by {
        device::other_elements_stay(memory, target, n, rows, value, dy, m, n, row, t);
    }
    assert forall|t: int| from <= t < to implies #[trigger] target.at(copied, t, column)
        == source.transposed().at(memory, t + 0, column) by {
        device::stored_elements_are_read_back(memory, target, n, rows, value, t, column);
    }
    device::dots_agree(
        copied,
        dy,
        target,
        row,
        column,
        memory,
        dy,
        source.transposed(),
        row,
        column,
        0,
        from,
        to,
    );
}

#[verifier::spinoff_prover]
#[verifier::rlimit(60)]
proof fn single_input_computes(
    call: DxCall,
    plan: ScalarDispatchPlan,
    memory: Memory,
    numbers: Numbers,
    row: int,
    column: int,
)
    requires
        input_call_is_whole(call, plan, numbers),
        !plan.is_transpose_m64n64(),
        !(plan is NtSplitKTail),
        !(plan is NtSplitKMain),
        !(plan is NtSplitKSlim),
        0 <= row < call.dims.m,
        0 <= column < call.dims.k,
    ensures
        input_left(call, plan, memory, numbers, row, column) == input_value(
            call,
            memory,
            numbers,
            row,
            column,
        ),
{
    let program = scalar_dx::dx_program(call, plan);
    let step = program.launches[0];
    let kernel = input_kernels(plan)(0);
    assert(program.launches.len() == 1);
    scalar_products::tiles_are_counted(call.dims.m as int, 64);
    scalar_products::tiles_are_counted(call.dims.k as int, 32);
    scalar_products::tiles_are_counted(call.dims.k as int, 64);
    scalar_products::tiles_are_counted(call.dims.m as int, 128);
    scalar_products::tiles_are_counted(call.dims.k as int, 128);
    assert(0 <= call.dims.m * call.dims.k) by (nonlinear_arith);
    scalar_products::tiles_are_counted(call.dims.m * call.dims.k, 256);
    assert(device::named(kernel, step.symbol));
    assert(device::well_launched(kernel, step));
    reveal_with_fuel(scalar_products::executed, 2);
    let product = match kernel {
        Kernel::InputColumn { .. } => device::input_column_product(
            step.args,
            Element::F32,
            numbers,
        ),
        _ => device::input_product(step.args, Element::F32, numbers),
    };
    let dx = Matrix::rows_apart(call.operands.output as int, 4, call.dims.k as int);
    let w = Matrix::rows_apart(call.operands.b as int, 4, call.dims.n as int);
    assert(product.target == dx);
    assert(product.rows == call.dims.m && product.columns == call.dims.k);
    assert(product.depth == call.dims.n);
    assert(product.a == Matrix::rows_apart(call.operands.a as int, 4, call.dims.n as int));
    assert(product.b == w.transposed());
    assert(product.beta * dx.at(memory, row, column) == 0) by (nonlinear_arith)
        requires
            product.beta == 0,
    ;
    device::stored_elements_are_read_back(
        memory,
        dx,
        product.rows,
        product.columns,
        |i: int, j: int| product.element(memory, i, j),
        row,
        column,
    );
}

#[verifier::spinoff_prover]
#[verifier::rlimit(60)]
proof fn transposed_input_computes(
    call: DxCall,
    plan: ScalarDispatchPlan,
    memory: Memory,
    numbers: Numbers,
    row: int,
    column: int,
)
    requires
        input_call_is_whole(call, plan, numbers),
        plan.is_transpose_m64n64(),
        0 <= row < call.dims.m,
        0 <= column < call.dims.k,
    ensures
        input_left(call, plan, memory, numbers, row, column) == input_value(
            call,
            memory,
            numbers,
            row,
            column,
        ),
{
    let program = scalar_dx::dx_program(call, plan);
    let first = program.launches[0];
    let second = program.launches[1];
    let copying = input_kernels(plan)(0);
    let multiplying = input_kernels(plan)(1);
    let k = call.dims.k as int;
    let n = call.dims.n as int;
    assert(program.launches.len() == 2);
    scalar_products::tiles_are_counted(n, 32);
    scalar_products::tiles_are_counted(k, 32);
    scalar_products::tiles_are_counted(call.dims.m as int, 64);
    scalar_products::tiles_are_counted(k, 64);
    assert(device::named(copying, first.symbol));
    assert(device::well_launched(copying, first));
    assert(device::named(multiplying, second.symbol));
    assert(device::well_launched(multiplying, second));
    reveal_with_fuel(scalar_products::executed, 3);
    let copied = device::copied_transposed(
        memory,
        call.workspace.transpose as int,
        call.operands.b as int,
        k,
        n,
    );
    assert(device::effect(copying, first, memory, numbers) == copied);
    let product = device::forward64_product(second.args, numbers);
    let dx = Matrix::rows_apart(call.operands.output as int, 4, k);
    assert(product.target == dx);
    assert(product.beta * dx.at(copied, row, column) == 0) by (nonlinear_arith)
        requires
            product.beta == 0,
    ;
    device::stored_elements_are_read_back(
        copied,
        dx,
        product.rows,
        product.columns,
        |i: int, j: int| product.element(copied, i, j),
        row,
        column,
    );
    transposed_copy_is_multiplied(
        memory,
        call.workspace.transpose as int,
        Matrix::rows_apart(call.operands.a as int, 4, n),
        call.dims.m as int,
        call.operands.b as int,
        k,
        n,
        row,
        column,
        0,
        n,
    );
}

#[verifier::spinoff_prover]
#[verifier::rlimit(60)]
proof fn folded_input_computes(
    call: DxCall,
    plan: ScalarDispatchPlan,
    memory: Memory,
    numbers: Numbers,
    row: int,
    column: int,
)
    requires
        input_call_is_whole(call, plan, numbers),
        plan is NtSplitKMain || plan is NtSplitKSlim,
        0 <= row < call.dims.m,
        0 <= column < call.dims.k,
    ensures
        input_left(call, plan, memory, numbers, row, column) == input_value(
            call,
            memory,
            numbers,
            row,
            column,
        ),
{
    let program = scalar_dx::dx_program(call, plan);
    let first = program.launches[0];
    let second = program.launches[1];
    let third = program.launches[2];
    let copying = input_kernels(plan)(0);
    let chunking = input_kernels(plan)(1);
    let m = call.dims.m as int;
    let k = call.dims.k as int;
    let n = call.dims.n as int;
    assert(program.launches.len() == 3);
    assert(input_kernels(plan)(2) == Kernel::Fold);
    scalar_products::tiles_are_counted(n, 32);
    scalar_products::tiles_are_counted(k, 32);
    scalar_products::tiles_are_counted(m, 32);
    scalar_products::tiles_are_counted(m, 128);
    scalar_products::tiles_are_counted(k, 64);
    assert(0 <= m * k) by (nonlinear_arith)
        requires
            m >= 0,
            k >= 0,
    ;
    scalar_products::tiles_are_counted(m * k, 256);
    assert(device::named(copying, first.symbol));
    assert(device::well_launched(copying, first));
    assert(device::named(chunking, second.symbol));
    assert(device::well_launched(chunking, second));
    assert(device::named(Kernel::Fold, third.symbol));
    assert(device::well_launched(Kernel::Fold, third));
    reveal_with_fuel(scalar_products::executed, 4);
    let copied = device::copied_transposed(
        memory,
        call.workspace.transpose as int,
        call.operands.b as int,
        k,
        n,
    );
    assert(device::effect(copying, first, memory, numbers) == copied);
    let dy = Matrix::rows_apart(call.operands.a as int, 4, n);
    let transposed = Matrix::rows_apart(call.workspace.transpose as int, 4, k);
    let (main, chunks, chunk) = match plan {
        ScalarDispatchPlan::NtSplitKMain { n_main, .. } => (
            n_main as int,
            n_main as int / 32,
            32int,
        ),
        ScalarDispatchPlan::NtSplitKSlim { chunks } => (n, chunks as int, 64int),
        _ => (0int, 0int, 0int),
    };
    let summed = device::chunked(
        copied,
        call.workspace.split as int,
        chunks,
        chunk,
        m,
        k,
        main,
        dy,
        transposed,
    );
    assert(device::effect(chunking, second, copied, numbers) == summed);
    scalar_products::folded_product(
        copied,
        numbers,
        call.workspace.split as int,
        chunks,
        chunk,
        m,
        k,
        main,
        n,
        dy,
        transposed,
        third.args,
        row,
        column,
    );
    assert(device::fold_target(third.args) == Matrix::rows_apart(
        call.operands.output as int,
        4,
        k,
    ));
    transposed_copy_is_multiplied(
        memory,
        call.workspace.transpose as int,
        dy,
        m,
        call.operands.b as int,
        k,
        n,
        row,
        column,
        0,
        n,
    );
}

/// The first columns of the gradient are computed, and its inputs are still
/// what they were.
spec fn columns_are_computed(
    call: DxCall,
    memory: Memory,
    left: Memory,
    numbers: Numbers,
    columns: int,
) -> bool {
    let m = call.dims.m as int;
    let k = call.dims.k as int;
    let n = call.dims.n as int;
    let dx = Matrix::rows_apart(call.operands.output as int, 4, k);
    let dy = Matrix::rows_apart(call.operands.a as int, 4, n);
    let w = Matrix::rows_apart(call.operands.b as int, 4, n);
    &&& forall|row: int, column: int|
        0 <= row < m && 0 <= column < columns ==> #[trigger] dx.at(left, row, column)
            == input_value(call, memory, numbers, row, column)
    &&& forall|row: int, t: int|
        0 <= row < m && 0 <= t < n ==> #[trigger] dy.at(left, row, t) == dy.at(memory, row, t)
    &&& forall|row: int, t: int|
        0 <= row < k && 0 <= t < n ==> #[trigger] w.at(left, row, t) == w.at(memory, row, t)
}

/// The part of a K-tail program before its single-column launches.
spec fn k_tail_prefix(call: DxCall, k_main: usize) -> Program {
    Program::start().then_launch(
        Ok(scalar_dx::transpose_step(call, "gemm_bi_transpose_f32_2d", k_main, 32)),
    ).then_launch(
        scalar_dx::nt_partial_step(
            call,
            k_main,
            (call.dims.n / 32) as usize,
            "NT K-tail chunks",
        ),
    ).then_launch(scalar_dx::k_tail_reduce_step(call, k_main))
}

#[verifier::spinoff_prover]
#[verifier::rlimit(60)]
proof fn k_tail_prefix_computes(
    call: DxCall,
    k_main: usize,
    k_tail: usize,
    memory: Memory,
    numbers: Numbers,
)
    requires
        input_call_is_whole(call, ScalarDispatchPlan::NtSplitKTail { k_main, k_tail }, numbers),
        k_tail_prefix(call, k_main).outcome is Ok,
    ensures
        k_tail_prefix(call, k_main).launches.len() == 3,
        columns_are_computed(
            call,
            memory,
            scalar_products::executed(
                k_tail_prefix(call, k_main).launches,
                input_kernels(ScalarDispatchPlan::NtSplitKTail { k_main, k_tail }),
                3,
                memory,
                numbers,
            ),
            numbers,
            k_main as int,
        ),
{
    let plan = ScalarDispatchPlan::NtSplitKTail { k_main, k_tail };
    let launches = k_tail_prefix(call, k_main).launches;
    let first = launches[0];
    let second = launches[1];
    let third = launches[2];
    let copying = input_kernels(plan)(0);
    let chunking = input_kernels(plan)(1);
    let m = call.dims.m as int;
    let k = call.dims.k as int;
    let n = call.dims.n as int;
    let main = k_main as int;
    assert(launches.len() == 3);
    assert(input_kernels(plan)(2) == Kernel::Fold);
    scalar_products::tiles_are_counted(n, 32);
    scalar_products::tiles_are_counted(main, 32);
    scalar_products::tiles_are_counted(m, 32);
    scalar_products::tiles_are_counted(main, 64);
    assert(0 <= m * main) by (nonlinear_arith)
        requires
            m >= 0,
            main >= 0,
    ;
    scalar_products::tiles_are_counted(m * main, 256);
    assert(device::named(copying, first.symbol));
    assert(device::well_launched(copying, first));
    assert(device::named(chunking, second.symbol));
    assert(device::well_launched(chunking, second));
    assert(device::named(Kernel::Fold, third.symbol));
    assert(device::well_launched(Kernel::Fold, third));
    reveal_with_fuel(scalar_products::executed, 4);
    let copy = call.workspace.transpose as int;
    let dx = Matrix::rows_apart(call.operands.output as int, 4, k);
    let dy = Matrix::rows_apart(call.operands.a as int, 4, n);
    let w = Matrix::rows_apart(call.operands.b as int, 4, n);
    let transposed = Matrix::rows_apart(copy, 4, main);
    let copied = device::copied_transposed(memory, copy, call.operands.b as int, main, n);
    assert(device::effect(copying, first, memory, numbers) == copied);
    let chunks = n / 32;
    let summed = device::chunked(
        copied,
        call.workspace.split as int,
        chunks,
        32,
        m,
        main,
        n,
        dy,
        transposed,
    );
    assert(device::effect(chunking, second, copied, numbers) == summed);
    let value = |r: int, c: int| device::fold_element(third.args, summed, numbers, r, c);
    let left = scalar_products::executed(launches, input_kernels(plan), 3, memory, numbers);
    let target = device::fold_target(third.args);
    assert(left == device::stored(summed, target, m, main, value));
    assert(k > 0 ==> target == dx);
    assert forall|row: int, column: int| 0 <= row < m && 0 <= column < main implies #[trigger] dx.at(
        left,
        row,
        column,
    ) == input_value(call, memory, numbers, row, column) by {
        scalar_products::folded_product(
            copied,
            numbers,
            call.workspace.split as int,
            chunks,
            32,
            m,
            main,
            n,
            n,
            dy,
            transposed,
            third.args,
            row,
            column,
        );
        transposed_copy_is_multiplied(
            memory,
            copy,
            dy,
            m,
            call.operands.b as int,
            main,
            n,
            row,
            column,
            0,
            n,
        );
    }
    let copy_value = |r: int, c: int| w.at(memory, c, r);
    assert(copied == device::stored(memory, transposed, n, main, copy_value));
    assert forall|row: int, t: int| 0 <= row < m && 0 <= t < n implies #[trigger] dy.at(
        left,
        row,
        t,
    ) == dy.at(memory, row, t) by {
        device::other_elements_stay(memory, transposed, n, main, copy_value, dy, m, n, row, t);
        assert(device::apart(target, m, main, dy, m, n)) by {
            assert forall|i: int, j: int, r: int, c: int|
                #![trigger target.address(i, j), dy.address(r, c)]
                0 <= i < m && 0 <= j < main && 0 <= r < m && 0 <= c < n implies target.address(i, j)
                != dy.address(r, c) by {
                assert(dx.address(i, j) != dy.address(r, c));
            }
        }
        device::other_elements_stay(summed, target, m, main, value, dy, m, n, row, t);
    }
    assert forall|row: int, t: int| 0 <= row < k && 0 <= t < n implies #[trigger] w.at(
        left,
        row,
        t,
    ) == w.at(memory, row, t) by {
        device::other_elements_stay(memory, transposed, n, main, copy_value, w, k, n, row, t);
        assert(device::apart(target, m, main, w, k, n)) by {
            assert forall|i: int, j: int, r: int, c: int|
                #![trigger target.address(i, j), w.address(r, c)]
                0 <= i < m && 0 <= j < main && 0 <= r < k && 0 <= c < n implies target.address(i, j)
                != w.address(r, c) by {
                assert(dx.address(i, j) != w.address(r, c));
            }
        }
        device::other_elements_stay(summed, target, m, main, value, w, k, n, row, t);
    }
}

#[verifier::spinoff_prover]
#[verifier::rlimit(60)]
proof fn tail_column_computes(
    call: DxCall,
    plan: ScalarDispatchPlan,
    memory: Memory,
    before: Memory,
    numbers: Numbers,
    done: int,
    step: LaunchStep,
)
    requires
        input_call_is_whole(call, plan, numbers),
        plan is NtSplitKTail,
        (numbers.of_bits)(call.operands.alpha) == 1,
        0 <= done < call.dims.k,
        scalar_dx::tail_column_step(call, done) == Ok::<LaunchStep, LaunchError>(step),
        columns_are_computed(call, memory, before, numbers, done),
    ensures
        columns_are_computed(
            call,
            memory,
            device::run(Kernel::InputTail, step, before, numbers),
            numbers,
            done + 1,
        ),
{
    let m = call.dims.m as int;
    let k = call.dims.k as int;
    let n = call.dims.n as int;
    let dx = Matrix::rows_apart(call.operands.output as int, 4, k);
    let dy = Matrix::rows_apart(call.operands.a as int, 4, n);
    let w = Matrix::rows_apart(call.operands.b as int, 4, n);
    scalar_products::tiles_are_counted(m, 128);
    assert(0 <= done * n) by (nonlinear_arith)
        requires
            done >= 0,
            n >= 0,
    ;
    let w_row = Matrix::rows_apart(device::pointer_at(step.args, 2), 4, 1);
    assert(w_row.base == w.base + 4 * (done * n));
    assert(device::named(Kernel::InputTail, step.symbol));
    assert(device::well_launched(Kernel::InputTail, step));
    let target = Matrix::rows_apart(dx.base + 4 * done, 4, k);
    let value = |row: int, column: int| device::dot(before, dy, w_row, row, 0, 0, n);
    let after = device::stored(before, target, m, 1, value);
    assert(device::run(Kernel::InputTail, step, before, numbers) == after);
    assert forall|i: int| #[trigger] target.address(i, 0) == dx.address(i, done) by {
        device::element_starts(target.base, k, i, 0);
        device::element_starts(dx.base, k, i, done);
    }
    assert forall|row: int, column: int|
        0 <= row < m && 0 <= column < done + 1 implies #[trigger] dx.at(after, row, column)
        == input_value(call, memory, numbers, row, column) by {
        if column == done {
            device::stored_elements_are_read_back(before, target, m, 1, value, row, 0);
            assert forall|t: int| 0 <= t < n implies #[trigger] w_row.at(before, t, 0)
                == w.transposed().at(memory, t + 0, done) by {
                assert(w.at(before, done, t) == w.at(memory, done, t));
                device::element_starts(w_row.base, 1, t, 0);
                device::element_starts(w.base, n, done, t);
            }
            assert forall|t: int| 0 <= t < n implies #[trigger] dy.at(before, row, t) == dy.at(
                memory,
                row,
                t + 0,
            ) by {}
            device::dots_agree(
                before,
                dy,
                w_row,
                row,
                0,
                memory,
                dy,
                w.transposed(),
                row,
                done,
                0,
                0,
                n,
            );
            let sum = device::dot(memory, dy, w.transposed(), row, done, 0, n);
            assert((numbers.of_bits)(call.operands.alpha) * sum == sum) by (nonlinear_arith)
                requires
                    (numbers.of_bits)(call.operands.alpha) == 1,
            ;
        } else {
            let address = dx.address(row, column);
            assert forall|r: int, c: int| !device::stands_at(target, m, 1, address, r, c) by {
                if device::stands_at(target, m, 1, address, r, c) {
                    assert(target.address(r, 0) == dx.address(r, done));
                    device::elements_stand_apart(dx, k, row, column, r, done);
                }
            }
            assert(dx.at(after, row, column) == dx.at(before, row, column));
        }
    }
    assert forall|row: int, t: int| 0 <= row < m && 0 <= t < n implies #[trigger] dy.at(
        after,
        row,
        t,
    ) == dy.at(memory, row, t) by {
        let address = dy.address(row, t);
        assert forall|r: int, c: int| !device::stands_at(target, m, 1, address, r, c) by {
            if device::stands_at(target, m, 1, address, r, c) {
                assert(target.address(r, 0) == dx.address(r, done));
            }
        }
        assert(dy.at(before, row, t) == dy.at(memory, row, t));
    }
    assert forall|row: int, t: int| 0 <= row < k && 0 <= t < n implies #[trigger] w.at(
        after,
        row,
        t,
    ) == w.at(memory, row, t) by {
        let address = w.address(row, t);
        assert forall|r: int, c: int| !device::stands_at(target, m, 1, address, r, c) by {
            if device::stands_at(target, m, 1, address, r, c) {
                assert(target.address(r, 0) == dx.address(r, done));
            }
        }
        assert(w.at(before, row, t) == w.at(memory, row, t));
    }
}

/// Programs that begin alike leave the same memory so far.
proof fn equal_prefixes_execute_alike(
    left: Seq<LaunchStep>,
    right: Seq<LaunchStep>,
    kernels: spec_fn(int) -> Kernel,
    count: int,
    memory: Memory,
    numbers: Numbers,
)
    requires
        forall|i: int| 0 <= i < count ==> left[i] == right[i],
    ensures
        scalar_products::executed(left, kernels, count, memory, numbers)
            == scalar_products::executed(right, kernels, count, memory, numbers),
    decreases count,
{
    if count > 0 {
        equal_prefixes_execute_alike(left, right, kernels, count - 1, memory, numbers);
        assert(left[count - 1] == right[count - 1]);
    }
}

proof fn tail_columns_compute(
    call: DxCall,
    k_main: usize,
    k_tail: usize,
    memory: Memory,
    numbers: Numbers,
    count: int,
)
    requires
        input_call_is_whole(call, ScalarDispatchPlan::NtSplitKTail { k_main, k_tail }, numbers),
        (numbers.of_bits)(call.operands.alpha) == 1,
        0 <= count <= k_tail,
    ensures
        scalar_dx::dx_program(
            call,
            ScalarDispatchPlan::NtSplitKTail { k_main, k_tail },
        ).launches.len() == 3 + k_tail,
        columns_are_computed(
            call,
            memory,
            scalar_products::executed(
                scalar_dx::dx_program(
                    call,
                    ScalarDispatchPlan::NtSplitKTail { k_main, k_tail },
                ).launches,
                input_kernels(ScalarDispatchPlan::NtSplitKTail { k_main, k_tail }),
                3 + count,
                memory,
                numbers,
            ),
            numbers,
            k_main + count,
        ),
    decreases count,
{
    let plan = ScalarDispatchPlan::NtSplitKTail { k_main, k_tail };
    let launches = scalar_dx::dx_program(call, plan).launches;
    let prefix = k_tail_prefix(call, k_main);
    scalar_laws::tail_columns_are_appended_in_order(prefix, call, k_main as int, k_tail as nat);
    k_tail_prefix_computes(call, k_main, k_tail, memory, numbers);
    if count > 0 {
        tail_columns_compute(call, k_main, k_tail, memory, numbers, count - 1);
        let before = scalar_products::executed(
            launches,
            input_kernels(plan),
            2 + count,
            memory,
            numbers,
        );
        assert(input_kernels(plan)(2 + count) == Kernel::InputTail);
        assert(Ok::<LaunchStep, LaunchError>(launches[2 + count]) == scalar_dx::tail_column_step(
            call,
            k_main + count - 1,
        ));
        tail_column_computes(
            call,
            plan,
            memory,
            before,
            numbers,
            k_main + count - 1,
            launches[2 + count],
        );
    } else {
        equal_prefixes_execute_alike(
            launches,
            prefix.launches,
            input_kernels(plan),
            3,
            memory,
            numbers,
        );
    }
}

/// `dX = alpha dY W^T`: whatever the plan, the launches of an input gradient
/// leave it in memory. dY has the rows of the batch and `n` columns, W has `k`
/// rows and `n` columns, and alpha is one unless a prepared launch froze
/// another factor. The columns of a tail are never scaled, so alpha is then
/// one.
pub proof fn input_launches_compute_the_gradient(
    dx: u64,
    dy: u64,
    w_ptr: u64,
    dims: (usize, usize, usize),
    prepared: Option<PreparedScalar>,
    selected: Result<ScalarDispatchPlan, LaunchError>,
    workspace: ScalarWorkspace,
    plan: ScalarDispatchPlan,
    alpha: u32,
    memory: Memory,
    numbers: Numbers,
    row: int,
    column: int,
)
    requires
        numbers.faithful(),
        scalar_dx::backward_dx_program(
            dx,
            dy,
            w_ptr,
            dims,
            prepared,
            selected,
            workspace,
        ).outcome is Ok,
        match prepared {
            Some(prepared) => plan == prepared.plan && alpha == prepared.operands.alpha,
            None => selected == Ok::<ScalarDispatchPlan, LaunchError>(plan) && alpha
                == F32_ONE_BITS,
        },
        plan.op() is Nt,
        input_plan_is_whole(plan, dims.0 as int, dims.1 as int, dims.2 as int),
        input_tensors_are_apart(
            plan,
            dx as int,
            dy as int,
            w_ptr as int,
            workspace.transpose as int,
            dims.0 as int,
            dims.1 as int,
            dims.2 as int,
        ),
        plan is NtSplitKTail ==> (numbers.of_bits)(alpha) == 1,
        0 <= row < dims.0,
        0 <= column < dims.1,
    ensures
        ({
            let launches = scalar_dx::backward_dx_program(
                dx,
                dy,
                w_ptr,
                dims,
                prepared,
                selected,
                workspace,
            ).launches;
            let dx_rows = Matrix::rows_apart(dx as int, 4, dims.1 as int);
            let dy_rows = Matrix::rows_apart(dy as int, 4, dims.2 as int);
            let w = Matrix::rows_apart(w_ptr as int, 4, dims.2 as int);
            let left = scalar_products::executed(
                launches,
                input_kernels(plan),
                launches.len() as int,
                memory,
                numbers,
            );
            dx_rows.at(left, row, column) == (numbers.of_bits)(alpha) * device::dot(
                memory,
                dy_rows,
                w.transposed(),
                row,
                column,
                0,
                dims.2 as int,
            )
        }),
{
    let (checked, request) = scalar_dw::backward_request(ResolvedGemmOp::Nt, dims)->Ok_0;
    let operands = scalar_dx::dx_operands(dx, dy, w_ptr, prepared);
    let call = DxCall { dims: checked, request, operands, workspace };
    match plan {
        ScalarDispatchPlan::NtSplitKTail { k_main, k_tail } => {
            tail_columns_compute(call, k_main, k_tail, memory, numbers, k_tail as int);
        },
        ScalarDispatchPlan::NtSplitKMain { .. } | ScalarDispatchPlan::NtSplitKSlim { .. } => {
            folded_input_computes(call, plan, memory, numbers, row, column);
        },
        _ => {
            if plan.is_transpose_m64n64() {
                transposed_input_computes(call, plan, memory, numbers, row, column);
            } else {
                single_input_computes(call, plan, memory, numbers, row, column);
            }
        },
    }
}

/// The weights that a plan transposes are the ones that it multiplies: the
/// first launch reads W and writes a copy, the second reads dY and that copy,
/// and the last writes dX.
pub proof fn transposed_weights_flow_into_the_product(
    dx: u64,
    dy: u64,
    w_ptr: u64,
    dims: (usize, usize, usize),
    prepared: Option<PreparedScalar>,
    selected: Result<ScalarDispatchPlan, LaunchError>,
    workspace: ScalarWorkspace,
    plan: ScalarDispatchPlan,
)
    requires
        scalar_dx::backward_dx_program(
            dx,
            dy,
            w_ptr,
            dims,
            prepared,
            selected,
            workspace,
        ).outcome is Ok,
        scalar_forward::used_plan(prepared, selected) == Ok::<
            ScalarDispatchPlan,
            LaunchError,
        >(plan),
        plan.is_transpose_m64n64() || plan is NtSplitKMain || plan is NtSplitKSlim,
    ensures
        ({
            let launches = scalar_dx::backward_dx_program(
                dx,
                dy,
                w_ptr,
                dims,
                prepared,
                selected,
                workspace,
            ).launches;
            &&& launches.len() >= 2
            &&& launches[0].args[0] == KernelArg::Pointer(workspace.transpose)
            &&& launches[0].args[1] == KernelArg::Pointer(w_ptr)
            &&& launches[1].args[1] == KernelArg::Pointer(dy)
            &&& launches[1].args[2] == launches[0].args[0]
            &&& launches.last().args[0] == KernelArg::Pointer(dx)
        }),
{
}

} // verus!
