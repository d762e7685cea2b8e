//! The TF32 launches, eager and in a graph, compute the product that was
//! asked for.

use crate::device;
use crate::device::{Matrix, Memory, Numbers, Product};
use crate::error::LaunchError;
use crate::f32_launch;
use crate::f32_launch::{
    PreparedF32Kind, PreparedF32TriadLaunch, TensorMapPair, Tf32RawLaunch, Tf32SplitKWorkspace,
    Tf32StreamKWorkspace,
};
use crate::f32_prepare;
use crate::f32_prepare::{F32PreparationScope, Tf32Device};
use crate::kernel::{KernelArg, LaunchConfig, LaunchStep};
use crate::params::SgbZeroReductionParams;
use crate::scalar_products;
use crate::scalar_routes;
use crate::shape::{F32TriadOperands, F32TriadRequest, F32TriadShape, ResolvedGemmOp};
use crate::tf32_plan;
use crate::tf32_plan::{
    Sm120FmaFacts, Sm120FmaRoute, Tf32KernelSpec, Tf32PhysicalRoute, Tf32SplitKSpec,
};
use crate::tf32_routes;
use crate::tf32_routes::{PreparedTf32Params, Tf32TensorOrigins};
use vstd::prelude::*;

verus! {

/// The product of an operation on three extents and three strides:
/// `C = alpha A B + beta C + bias`, with A transposed for a weight gradient
/// and B transposed for an input gradient.
pub open spec fn product_of(
    op: ResolvedGemmOp,
    extents: (int, int, int),
    strides: (int, int, int),
    pointers: (int, int, int, int),
    factors: (int, int),
) -> Product {
    let (m, k, n) = extents;
    let (output, a, b, bias) = pointers;
    let a_rows = Matrix::rows_apart(a, 4, strides.0);
    let b_rows = Matrix::rows_apart(b, 4, strides.1);
    let target = Matrix::rows_apart(output, 4, strides.2);
    let (alpha, beta) = factors;
    match op {
        ResolvedGemmOp::Nn => Product {
            rows: m,
            columns: n,
            depth: k,
            target,
            a: a_rows,
            b: b_rows,
            bias,
            alpha,
            beta,
        },
        ResolvedGemmOp::Tn => Product {
            rows: k,
            columns: n,
            depth: m,
            target,
            a: a_rows.transposed(),
            b: b_rows,
            bias,
            alpha,
            beta,
        },
        ResolvedGemmOp::Nt => Product {
            rows: m,
            columns: k,
            depth: n,
            target,
            a: a_rows,
            b: b_rows.transposed(),
            bias,
            alpha,
            beta,
        },
    }
}

/// The product that a request asks for.
pub open spec fn requested_product(
    request: F32TriadRequest,
    operands: F32TriadOperands,
    numbers: Numbers,
) -> Product {
    let shape = request.shape;
    product_of(
        request.op,
        (shape.m as int, shape.k as int, shape.n as int),
        (shape.lda as int, shape.ldb as int, shape.ldc as int),
        (
            operands.output as int,
            operands.a as int,
            operands.b as int,
            match operands.bias {
                Some(bias) => bias as int,
                None => 0,
            },
        ),
        ((numbers.of_bits)(operands.alpha), (numbers.of_bits)(operands.beta)),
    )
}

/// The product of a portable kernel: the output, A, B and the bias are at four
/// positions, and the parameter block comes last.
pub open spec fn portable_product(
    op: ResolvedGemmOp,
    args: Seq<KernelArg>,
    positions: (int, int, int, int),
    numbers: Numbers,
) -> Product {
    let pointers = (
        device::pointer_at(args, positions.0),
        device::pointer_at(args, positions.1),
        device::pointer_at(args, positions.2),
        device::pointer_at(args, positions.3),
    );
    match args.last() {
        KernelArg::Sm80(block) => product_of(
            op,
            (block.m as int, block.k as int, block.n as int),
            (block.lda as int, block.ldb as int, block.ldc as int),
            pointers,
            ((numbers.of_bits)(block.alpha), (numbers.of_bits)(block.beta)),
        ),
        KernelArg::ZeroReduction(block) => product_of(
            op,
            (block.m as int, block.k as int, block.n as int),
            (block.lda as int, block.ldb as int, block.ldc as int),
            pointers,
            ((numbers.of_bits)(block.alpha), (numbers.of_bits)(block.beta)),
        ),
        _ => product_of(op, (0, 0, 0), (0, 0, 0), pointers, (0, 0)),
    }
}

/// A product is left in memory.
proof fn product_is_left(product: Product, memory: Memory, row: int, column: int)
    requires
        product.target.width > 0,
        product.target.column_step == 1,
        product.target.row_step >= product.columns,
        0 <= row < product.rows,
        0 <= column < product.columns,
    ensures
        product.target.at(product.computed(memory), row, column) == product.element(
            memory,
            row,
            column,
        ),
{
    device::stored_elements_are_read_back(
        memory,
        product.target,
        product.rows,
        product.columns,
        |i: int, j: int| product.element(memory, i, j),
        row,
        column,
    );
}

/// A fused split-K launch computes the requested product: it writes the
/// output, sums in the workspaces behind it, reads A at its fourth argument
/// and B at its fifth, and covers the output with a tile per block and
/// partition. The graph node has the same arguments.
pub proof fn splitk_launches_compute_the_product(
    scope: F32PreparationScope,
    device_facts: Tf32Device,
    request: F32TriadRequest,
    operands: F32TriadOperands,
    spec: Tf32SplitKSpec,
    covered: Result<usize, LaunchError>,
    workspace: Tf32SplitKWorkspace,
    prepared: PreparedF32TriadLaunch,
    memory: Memory,
    numbers: Numbers,
    row: int,
    column: int,
)
    requires
        spec.wf(),
        f32_prepare::splitk_prepared(
            scope,
            device_facts,
            request,
            operands,
            spec,
            covered,
            workspace,
            Ok(prepared),
        ),
        0 <= row < requested_product(request, operands, numbers).rows,
        0 <= column < requested_product(request, operands, numbers).columns,
    ensures
        f32_launch::prepared_step(prepared, true) is Ok,
        ({
            let step = f32_launch::prepared_step(prepared, true)->Ok_0;
            let wanted = requested_product(request, operands, numbers);
            let launched = portable_product(request.op, step.args, (0, 3, 4, 5), numbers);
            &&& f32_launch::direct_graph_args(prepared) == Ok::<Seq<KernelArg>, LaunchError>(
                step.args,
            )
            &&& step.args.len() == 7
            &&& step.args[0] == KernelArg::Pointer(operands.output)
            &&& step.args[1] == KernelArg::Pointer(workspace.partial)
            &&& step.args[2] == KernelArg::Pointer(workspace.counters)
            &&& step.args[3] == KernelArg::Pointer(operands.a)
            &&& step.args[4] == KernelArg::Pointer(operands.b)
            &&& device::grid_is(
                step.config,
                device::tiles(wanted.columns, spec.tile.1 as int),
                device::tiles(wanted.rows, spec.tile.0 as int),
                spec.partitions as int,
            )
            &&& device::threads_are(step.config, spec.threads as int)
            &&& step.config.shared_mem_bytes == spec.dynamic_shared_bytes
            &&& step.symbol == spec.symbol
            &&& launched == wanted
            &&& wanted.target.at(launched.computed(memory), row, column) == wanted.element(
                memory,
                row,
                column,
            )
        }),
{
    let wanted = requested_product(request, operands, numbers);
    scalar_products::tiles_are_counted(wanted.rows, spec.tile.0);
    scalar_products::tiles_are_counted(wanted.columns, spec.tile.1);
    product_is_left(wanted, memory, row, column);
}

/// A block speaks of a product: its extents, its output stride, its factors
/// and where its tensor maps begin. An exact block speaks of output rows,
/// output columns and the reduction.
pub open spec fn block_speaks_of(
    block: KernelArg,
    op: ResolvedGemmOp,
    shape: F32TriadShape,
    origins: Tf32TensorOrigins,
    alpha: u32,
    beta: u32,
) -> bool {
    match block {
        KernelArg::Sm90a(block) => {
            &&& block.m == shape.m && block.k == shape.k && block.n == shape.n
            &&& block.ldc == shape.ldc
            &&& block.alpha == alpha && block.beta == beta
            &&& block.a_x == origins.a_x && block.a_y == origins.a_y
            &&& block.b_x == origins.b_x && block.b_y == origins.b_y
        },
        KernelArg::Sm100(block) => {
            &&& block.m == shape.m && block.k == shape.k && block.n == shape.n
            &&& block.ldc == shape.ldc
            &&& block.alpha == alpha && block.beta == beta
            &&& block.a_x == origins.a_x && block.a_y == origins.a_y
            &&& block.b_x == origins.b_x && block.b_y == origins.b_y
        },
        KernelArg::Sm120(block) => {
            &&& block.m == shape.m && block.k == shape.k && block.n == shape.n
            &&& block.ldc == shape.ldc
            &&& block.alpha == alpha && block.beta == beta
            &&& block.a_x == origins.a_x && block.a_y == origins.a_y
            &&& block.b_x == origins.b_x && block.b_y == origins.b_y
        },
        KernelArg::Sm120Fma(block) => {
            &&& (block.m, block.n, block.k) == (match op {
                ResolvedGemmOp::Nn => (shape.m as i32, shape.n as i32, shape.k as i32),
                ResolvedGemmOp::Tn => (shape.k as i32, shape.n as i32, shape.m as i32),
                ResolvedGemmOp::Nt => (shape.m as i32, shape.k as i32, shape.n as i32),
            })
            &&& block.ldc == shape.ldc
            &&& block.alpha == alpha && block.beta == beta
        },
        _ => false,
    }
}

/// The arguments of a launch pass a product to its kernel. The portable
/// kernels read A and B by pointer, the others through their tensor maps. A
/// kernel that folds has its workspaces behind the output.
pub open spec fn passes_the_product(
    route: Tf32PhysicalRoute,
    args: Seq<KernelArg>,
    request: F32TriadRequest,
    operands: F32TriadOperands,
    maps: Option<TensorMapPair>,
    folding: Tf32StreamKWorkspace,
) -> bool {
    let bias = KernelArg::Pointer(
        match operands.bias {
            Some(bias) => bias,
            None => 0u64,
        },
    );
    &&& args[0] == KernelArg::Pointer(operands.output)
    &&& if route is MmaTf32RnaV1 {
        let empty = match request.op {
            ResolvedGemmOp::Nn => request.shape.k == 0,
            ResolvedGemmOp::Tn => request.shape.m == 0,
            ResolvedGemmOp::Nt => request.shape.n == 0,
        };
        &&& args.len() == 5
        &&& args[1] == KernelArg::Pointer(
            if empty {
                0u64
            } else {
                operands.a
            },
        )
        &&& args[2] == KernelArg::Pointer(
            if empty {
                0u64
            } else {
                operands.b
            },
        )
        &&& args[3] == bias
    } else {
        &&& maps is Some
        &&& {
            let maps = maps->0;
            if route is Sm120TmaMmaTf32RnaStreamKV1 || route is Sm120TmaFmaExactV1 {
                &&& args.len() == 7
                &&& args[1] == KernelArg::Pointer(folding.partial)
                &&& args[2] == KernelArg::Pointer(folding.flags)
                &&& args[3] == KernelArg::TensorMap(maps.a)
                &&& args[4] == KernelArg::TensorMap(maps.b)
                &&& args[5] == bias
                &&& block_speaks_of(
                    args[6],
                    request.op,
                    request.shape,
                    maps.origins,
                    operands.alpha,
                    operands.beta,
                )
            } else {
                &&& args.len() == 5
                &&& args[1] == KernelArg::TensorMap(maps.a)
                &&& args[2] == KernelArg::TensorMap(maps.b)
                &&& args[3] == bias
                &&& block_speaks_of(
                    args[4],
                    request.op,
                    request.shape,
                    maps.origins,
                    operands.alpha,
                    operands.beta,
                )
            }
        }
    }
}

/// A launch with the parameters of a route passes the requested product, and a
/// portable one computes it.
pub proof fn routed_launches_pass_the_product(
    request: F32TriadRequest,
    launch: Tf32RawLaunch,
    facts: Sm120FmaFacts,
    memory: Memory,
    numbers: Numbers,
    row: int,
    column: int,
)
    requires
        request.shape.valid(request.op),
        tf32_routes::route_params(
            request,
            launch.operands,
            f32_prepare::map_origins(launch.maps),
            launch.route,
            facts,
        ) == Ok::<PreparedTf32Params, LaunchError>(launch.params),
        launch.zero_reduction == (requested_product(request, launch.operands, numbers).depth == 0),
        f32_launch::raw_args(launch) is Ok,
        0 <= row < requested_product(request, launch.operands, numbers).rows,
        0 <= column < requested_product(request, launch.operands, numbers).columns,
    ensures
        passes_the_product(
            launch.route,
            f32_launch::raw_args(launch)->Ok_0,
            request,
            launch.operands,
            launch.maps,
            match launch.streamk {
                Some(workspace) => workspace,
                None => Tf32StreamKWorkspace { partial: 0, flags: 0 },
            },
        ),
        launch.route is MmaTf32RnaV1 ==> {
            let wanted = requested_product(request, launch.operands, numbers);
            let launched = portable_product(
                request.op,
                f32_launch::raw_args(launch)->Ok_0,
                (0, 1, 2, 3),
                numbers,
            );
            wanted.target.at(launched.computed(memory), row, column) == wanted.element(
                memory,
                row,
                column,
            )
        },
{
    let wanted = requested_product(request, launch.operands, numbers);
    let args = f32_launch::raw_args(launch)->Ok_0;
    if launch.route is MmaTf32RnaV1 {
        let launched = portable_product(request.op, args, (0, 1, 2, 3), numbers);
        assert(launched.target == wanted.target);
        assert(launched.depth == wanted.depth);
        assert(wanted.depth != 0 ==> launched == wanted);
        product_is_left(launched, memory, row, column);
    }
}

/// A tiled launch, and the graph node that replays it, pass the requested
/// product to the kernel of the route, on one block per output tile. The
/// portable kernels compute it.
pub proof fn tiled_launches_pass_the_product(
    scope: F32PreparationScope,
    device_facts: Tf32Device,
    request: F32TriadRequest,
    operands: F32TriadOperands,
    spec: Tf32KernelSpec,
    maps: Option<TensorMapPair>,
    prepared: PreparedF32TriadLaunch,
    memory: Memory,
    numbers: Numbers,
    row: int,
    column: int,
)
    requires
        spec.wf(),
        request.shape.valid(request.op),
        f32_prepare::tiled_prepared(
            scope,
            device_facts,
            request,
            operands,
            spec,
            maps,
            Ok(prepared),
        ),
        f32_launch::prepared_step(prepared, true) is Ok,
        0 <= row < requested_product(request, operands, numbers).rows,
        0 <= column < requested_product(request, operands, numbers).columns,
    ensures
        ({
            let step = f32_launch::prepared_step(prepared, true)->Ok_0;
            let wanted = requested_product(request, operands, numbers);
            let launched = portable_product(request.op, step.args, (0, 1, 2, 3), numbers);
            let unfolded = Tf32StreamKWorkspace { partial: 0, flags: 0 };
            &&& passes_the_product(spec.route, step.args, request, operands, maps, unfolded)
            &&& f32_launch::direct_graph_args(prepared) matches Ok(args) ==> args == step.args
            &&& device::grid_is(
                step.config,
                device::tiles(wanted.rows, spec.tile.0 as int) * device::tiles(
                    wanted.columns,
                    spec.tile.1 as int,
                ),
                1,
                1,
            )
            &&& device::threads_are(step.config, spec.threads as int)
            &&& step.config.shared_mem_bytes == spec.dynamic_shared_bytes
            &&& step.symbol == spec.symbol
            &&& spec.route is MmaTf32RnaV1 ==> wanted.target.at(
                launched.computed(memory),
                row,
                column,
            ) == wanted.element(memory, row, column)
        }),
{
    let wanted = requested_product(request, operands, numbers);
    scalar_products::tiles_are_counted(wanted.rows, spec.tile.0);
    scalar_products::tiles_are_counted(wanted.columns, spec.tile.1);
    let launch = f32_launch::kernel_parts(prepared)->Ok_0;
    routed_launches_pass_the_product(
        request,
        launch,
        device_facts.fma,
        memory,
        numbers,
        row,
        column,
    );
}

/// A folding launch, and the graph node that replays it, pass the requested
/// product and the workspace of the route to its kernel. An exact launch with
/// one split folds nothing and gets no workspace.
pub proof fn folding_launches_pass_the_product(
    scope: F32PreparationScope,
    device_facts: Tf32Device,
    request: F32TriadRequest,
    operands: F32TriadOperands,
    spec: Tf32KernelSpec,
    maps: TensorMapPair,
    shared: Tf32StreamKWorkspace,
    prepared: PreparedF32TriadLaunch,
)
    requires
        request.shape.valid(request.op),
        f32_prepare::folding_prepared(
            scope,
            device_facts,
            request,
            operands,
            spec,
            maps,
            shared,
            Ok(prepared),
        ),
        spec.route is Sm120TmaMmaTf32RnaStreamKV1 || spec.route is Sm120TmaFmaExactV1,
    ensures
        f32_launch::prepared_step(prepared, true) is Ok,
        ({
            let step = f32_launch::prepared_step(prepared, true)->Ok_0;
            let folding = match spec.route {
                Tf32PhysicalRoute::Sm120TmaFmaExactV1(exact) => if exact.splits == 1 {
                    Tf32StreamKWorkspace { partial: 0, flags: 0 }
                } else {
                    shared
                },
                _ => shared,
            };
            &&& passes_the_product(
                spec.route,
                step.args,
                request,
                operands,
                Some(maps),
                folding,
            )
            &&& f32_launch::direct_graph_args(prepared) == Ok::<Seq<KernelArg>, LaunchError>(
                step.args,
            )
            &&& device::threads_are(step.config, spec.threads as int)
            &&& step.config.shared_mem_bytes == spec.dynamic_shared_bytes
            &&& step.symbol == spec.symbol
        }),
{
}

/// The block of an exact launch has the splits of its route, and so many slabs
/// in each that they cover the sum while none of them is empty.
pub proof fn exact_blocks_split_the_sum(
    request: F32TriadRequest,
    operands: F32TriadOperands,
    origins: Tf32TensorOrigins,
    exact: Sm120FmaRoute,
    facts: Sm120FmaFacts,
    params: PreparedTf32Params,
    numbers: Numbers,
)
    requires
        facts.bk > 0,
        exact.splits > 0,
        tf32_routes::route_params(
            request,
            operands,
            origins,
            Tf32PhysicalRoute::Sm120TmaFmaExactV1(exact),
            facts,
        ) == Ok::<PreparedTf32Params, LaunchError>(params),
    ensures
        ({
            let summed = requested_product(request, operands, numbers).depth;
            let slabs = device::tiles(summed, facts.bk as int);
            &&& params matches PreparedTf32Params::Sm120Fma(block) && {
                &&& block.splits == exact.splits
                &&& block.tiles_per_split * exact.splits >= slabs
                &&& block.tiles_per_split * (exact.splits - 1) < slabs
            }
        }),
{
    tf32_plan::fma_splits_partition_the_reduction(request, exact, facts);
}

/// A probe passes the requested product to the kernel that it qualifies, and
/// no workspace.
pub proof fn probes_pass_the_product(
    request: F32TriadRequest,
    operands: F32TriadOperands,
    route: Tf32PhysicalRoute,
    maps: Option<TensorMapPair>,
    config: LaunchConfig,
    symbol: Result<&'static str, LaunchError>,
    facts: Sm120FmaFacts,
    step: LaunchStep,
)
    requires
        request.shape.valid(request.op),
        f32_launch::probe_step(request, operands, route, maps, config, symbol, facts) == Ok::<
            LaunchStep,
            LaunchError,
        >(step),
    ensures
        passes_the_product(
            route,
            step.args,
            request,
            operands,
            maps,
            Tf32StreamKWorkspace { partial: 0, flags: 0 },
        ),
        step.config == config,
        symbol == Ok::<&'static str, LaunchError>(step.symbol),
{
}

/// The epilogue of an empty reduction leaves `C = beta C + bias`, on one thread
/// per output, without its inputs.
pub proof fn empty_reductions_leave_the_epilogue(
    request: F32TriadRequest,
    operands: F32TriadOperands,
    params: SgbZeroReductionParams,
    config: LaunchConfig,
    prepared: PreparedF32TriadLaunch,
    memory: Memory,
    numbers: Numbers,
    row: int,
    column: int,
)
    requires
        request.shape.valid(request.op),
        requested_product(request, operands, numbers).depth == 0,
        scalar_routes::zero_reduction_params(request, operands) == Ok::<
            SgbZeroReductionParams,
            LaunchError,
        >(params),
        scalar_routes::zero_reduction_config(request) == Ok::<LaunchConfig, LaunchError>(config),
        prepared.request == request,
        prepared.operands == operands,
        prepared.kind == (PreparedF32Kind::ScalarZero { params, config }),
        0 <= row < requested_product(request, operands, numbers).rows,
        0 <= column < requested_product(request, operands, numbers).columns,
    ensures
        ({
            let step = f32_launch::prepared_step(prepared, false)->Ok_0;
            let wanted = requested_product(request, operands, numbers);
            let launched = portable_product(request.op, step.args, (0, 1, 2, 3), numbers);
            &&& f32_launch::prepared_step(prepared, false) is Ok
            &&& f32_launch::direct_graph_args(prepared) == Ok::<Seq<KernelArg>, LaunchError>(
                step.args,
            )
            &&& step.symbol == (match request.op {
                ResolvedGemmOp::Nn => "gemm_bi_nn_zero_reduction_v1",
                ResolvedGemmOp::Tn => "gemm_bi_tn_zero_reduction_v1",
                ResolvedGemmOp::Nt => "gemm_bi_nt_zero_reduction_v1",
            })
            &&& step.args[1] == KernelArg::Pointer(0)
            &&& step.args[2] == KernelArg::Pointer(0)
            &&& device::grid_is(
                step.config,
                device::tiles(wanted.rows * wanted.columns, 256),
                1,
                1,
            )
            &&& device::threads_are(step.config, 256)
            &&& wanted.target.at(launched.computed(memory), row, column) == wanted.beta
                * wanted.target.at(memory, row, column) + device::bias_at(
                memory,
                wanted.bias,
                column,
            )
        }),
{
    let wanted = requested_product(request, operands, numbers);
    let step = f32_launch::prepared_step(prepared, false)->Ok_0;
    let launched = portable_product(request.op, step.args, (0, 1, 2, 3), numbers);
    assert(launched.target == wanted.target);
    assert(wanted.rows * wanted.columns >= 0) by (nonlinear_arith)
        requires
            wanted.rows >= 0,
            wanted.columns >= 0,
    ;
    crate::arith::ceil_div_is_least_cover(wanted.rows * wanted.columns, 256);
    product_is_left(launched, memory, row, column);
    let none = device::dot(memory, launched.a, launched.b, row, column, 0, 0);
    assert(launched.alpha * none == 0) by (nonlinear_arith)
        requires
            none == 0,
    ;
}

} // verus!
