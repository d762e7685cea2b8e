//! What a launch is recorded under is what it launches.

use crate::device;
use crate::device::Kernel;
use crate::digest::Sha256Digest;
use crate::error::LaunchError;
use crate::f32_enqueue;
use crate::f32_launch;
use crate::f32_launch::{
    PreparedF32Kind, PreparedF32TriadLaunch, TensorMapPair, Tf32SplitKWorkspace, Tf32StreamKWorkspace,
};
use crate::f32_prepare;
use crate::f32_prepare::{F32PreparationScope, Tf32Device};
use crate::half_graph;
use crate::half_graph::{ExpectedPhysicalKernel, HalfPhysicalTraceRequest};
use crate::half_kernel;
use crate::half_kernel::{HalfKernel, HalfKernelIdentity, HalfSchedule};
use crate::half_launch::HalfGemmObservation;
use crate::half_routes;
use crate::half_routes::HalfCompilers;
use crate::identity::{
    BiGemmFamily, CompilerIdentity, GemmRouteIdentity, ModuleKind, PhysicalGemmBackend,
    PolicyDtype, ResolvedGemmRoute, TableRevisions, WeightDtype,
};
use crate::kernel::{LaunchConfig, LaunchStep};
use crate::scalar_dx_products;
use crate::scalar_nodes;
use crate::scalar_nodes::ScalarNodeSpec;
use crate::scalar_plan::ScalarDispatchPlan;
use crate::scalar_products;
use crate::scalar_routes;
use crate::shape::{F32TriadOperands, F32TriadRequest, ResolvedGemmOp};
use crate::text;
use crate::tf32_plan::{Tf32KernelSpec, Tf32PhysicalRoute, Tf32SplitKSpec};
use crate::tf32_routes;
use crate::tf32_routes::{QualifiedModule, RouteRevisions, Tf32LaunchDigests};
use vstd::prelude::*;

verus! {

/// A route has the extents and the strides of a product.
pub open spec fn records_product(route: ResolvedGemmRoute, request: F32TriadRequest) -> bool {
    &&& route.op == request.op
    &&& route.shape.0 == request.shape.m
    &&& route.shape.1 == request.shape.k
    &&& route.shape.2 == request.shape.n
    &&& route.strides.0 == request.shape.lda
    &&& route.strides.1 == request.shape.ldb
    &&& route.strides.2 == request.shape.ldc
}

/// A route has the blocks of a launch.
pub open spec fn records_blocks(route: ResolvedGemmRoute, config: LaunchConfig) -> bool {
    &&& route.launch.grid_dim == config.grid_dim
    &&& route.launch.block_dim == config.block_dim
    &&& route.launch.shared_mem_bytes == config.shared_mem_bytes
    &&& route.threads == config.block_dim.0 * config.block_dim.1 * config.block_dim.2
}

/// A route has the product, the kernel and the blocks of a launch.
pub open spec fn records(
    route: ResolvedGemmRoute,
    request: F32TriadRequest,
    step: LaunchStep,
) -> bool {
    &&& records_product(route, request)
    &&& records_blocks(route, step.config)
    &&& route.symbol == step.symbol
    &&& route.dtype == PolicyDtype::F32
}

proof fn threads_in_a_line(dims: (u32, u32, u32))
    requires
        dims.1 == 1,
        dims.2 == 1,
    ensures
        dims.0 * dims.1 * dims.2 == dims.0,
{
    assert(dims.0 * dims.1 * dims.2 == dims.0) by (nonlinear_arith)
        requires
            dims.1 == 1,
            dims.2 == 1,
    ;
}

/// A tiled launch is recorded as it is enqueued.
pub proof fn tiled_routes_record_their_launch(
    scope: F32PreparationScope,
    facts: Tf32Device,
    request: F32TriadRequest,
    operands: F32TriadOperands,
    spec: Tf32KernelSpec,
    maps: Option<TensorMapPair>,
    prepared: PreparedF32TriadLaunch,
    step: LaunchStep,
)
    requires
        f32_prepare::tiled_prepared(scope, facts, request, operands, spec, maps, Ok(prepared)),
        f32_launch::prepared_step(prepared, true) == Ok::<LaunchStep, LaunchError>(step),
    ensures
        prepared.routes@.len() == 1,
        records(prepared.routes@[0], request, step),
        prepared.routes@[0].tile == spec.tile,
        prepared.routes@[0].bk == spec.bk,
        prepared.routes@[0].stages == spec.stages,
        prepared.routes@[0].module_kind == spec.module_kind,
        prepared.routes@[0].resources_digest == scope.resources,
{
    threads_in_a_line(step.config.block_dim);
}

/// A folding launch is recorded as it is enqueued.
pub proof fn folding_routes_record_their_launch(
    scope: F32PreparationScope,
    facts: Tf32Device,
    request: F32TriadRequest,
    operands: F32TriadOperands,
    spec: Tf32KernelSpec,
    maps: TensorMapPair,
    shared: Tf32StreamKWorkspace,
    prepared: PreparedF32TriadLaunch,
    step: LaunchStep,
)
    requires
        f32_prepare::folding_prepared(
            scope,
            facts,
            request,
            operands,
            spec,
            maps,
            shared,
            Ok(prepared),
        ),
        f32_launch::prepared_step(prepared, true) == Ok::<LaunchStep, LaunchError>(step),
    ensures
        prepared.routes@.len() == 1,
        records(prepared.routes@[0], request, step),
        prepared.routes@[0].tile == spec.tile,
        prepared.routes@[0].bk == spec.bk,
        prepared.routes@[0].stages == spec.stages,
        prepared.routes@[0].module_kind == spec.module_kind,
        prepared.routes@[0].tensor_maps_digest == maps.identity,
        prepared.routes@[0].resources_digest == scope.resources,
{
    threads_in_a_line(step.config.block_dim);
}

/// A split-K launch is recorded as it is enqueued.
pub proof fn splitk_routes_record_their_launch(
    scope: F32PreparationScope,
    facts: Tf32Device,
    request: F32TriadRequest,
    operands: F32TriadOperands,
    spec: Tf32SplitKSpec,
    covered: Result<usize, LaunchError>,
    workspace: Tf32SplitKWorkspace,
    prepared: PreparedF32TriadLaunch,
    step: LaunchStep,
)
    requires
        f32_prepare::splitk_prepared(
            scope,
            facts,
            request,
            operands,
            spec,
            covered,
            workspace,
            Ok(prepared),
        ),
        f32_launch::prepared_step(prepared, true) == Ok::<LaunchStep, LaunchError>(step),
    ensures
        prepared.routes@.len() == 1,
        records(prepared.routes@[0], request, step),
        prepared.routes@[0].tile == spec.tile,
        prepared.routes@[0].bk == spec.bk,
        prepared.routes@[0].stages == spec.stages,
        prepared.routes@[0].resources_digest == scope.resources,
{
    threads_in_a_line(step.config.block_dim);
}

/// The epilogue of an empty reduction is recorded as it is launched.
pub proof fn zero_routes_record_their_launch(
    context: GemmRouteIdentity,
    compiler: CompilerIdentity,
    revisions: TableRevisions,
    request: F32TriadRequest,
    maps: (u32, Sha256Digest),
    resources: Sha256Digest,
    config: LaunchConfig,
    arguments: Sha256Digest,
    prepared: PreparedF32TriadLaunch,
    step: LaunchStep,
)
    requires
        scalar_routes::zero_reduction_config(request) == Ok::<LaunchConfig, LaunchError>(config),
        prepared.request == request,
        prepared.kind matches PreparedF32Kind::ScalarZero { config: frozen, .. }
            && frozen == config,
        f32_launch::prepared_step(prepared, false) == Ok::<LaunchStep, LaunchError>(step),
    ensures
        ({
            let route = scalar_routes::zero_route(
                context,
                compiler,
                revisions,
                request,
                maps,
                resources,
                config,
                arguments,
            );
            &&& records(route, request, step)
            &&& route.launch.arguments_digest == arguments
            &&& route.resources_digest == resources
            &&& route.tensor_map_revision == maps.0
            &&& route.tensor_maps_digest == maps.1
        }),
{
}

/// The output tile of a block, as it is recorded. Kernels that compute an
/// output per thread record single outputs.
pub open spec fn recorded_tile(kernel: Kernel) -> (int, int) {
    match kernel {
        Kernel::Forward { block, .. } => block.tile,
        Kernel::ForwardRows { .. } => (1, 32),
        Kernel::ForwardColumn { .. } => (4, 1),
        Kernel::Forward64 { .. } => (64, 64),
        Kernel::Weight { block, .. } => block.tile,
        Kernel::WeightColumn { .. } => (4, 1),
        Kernel::Input { block, .. } => block.tile,
        Kernel::InputColumn { .. } => (1, 1),
        Kernel::Transpose { .. } => (32, 32),
        Kernel::Chunks32 { .. } => (32, 64),
        Kernel::ChunksSlim => (128, 64),
        Kernel::ChunksOfRows { narrow: true, .. } => (64, 32),
        Kernel::ChunksOfRows { narrow: false, .. } => (128, 128),
        Kernel::Fold => (1, 1),
        Kernel::FoldWeight => (1, 1),
        Kernel::InputTail => (1, 1),
    }
}

/// The slab depth and the stages of a block with an output tile.
pub open spec fn tile_slab(tile: (int, int)) -> (int, int) {
    if tile == (128int, 128int) || tile == (16int, 16int) {
        (16, 2)
    } else if tile == (128int, 64int) {
        (32, 1)
    } else if tile == (2int, 16int) {
        (64, 2)
    } else {
        (16, 1)
    }
}

/// The slab depth and the stages of a single-precision kernel, as they are
/// recorded. Kernels that stage nothing record one.
pub open spec fn recorded_slab(kernel: Kernel) -> (int, int) {
    match kernel {
        Kernel::Forward { block, .. } => if block.tile == (16int, 16int) {
            (16, 1)
        } else {
            tile_slab(block.tile)
        },
        Kernel::ForwardRows { .. } => (32, 1),
        Kernel::ForwardColumn { .. } => (32, 1),
        Kernel::Forward64 { .. } => (16, 2),
        Kernel::Weight { block, .. } => tile_slab(block.tile),
        Kernel::WeightColumn { .. } => (32, 1),
        Kernel::Input { block, .. } => tile_slab(block.tile),
        Kernel::Chunks32 { .. } => (32, 1),
        Kernel::ChunksSlim => (32, 1),
        Kernel::ChunksOfRows { .. } => (16, 1),
        _ => (1, 1),
    }
}

/// The kernels of a plan.
pub open spec fn plan_kernels(
    plan: ScalarDispatchPlan,
    operands: F32TriadOperands,
) -> spec_fn(int) -> Kernel {
    if plan.op() is Nn {
        scalar_products::forward_kernels(plan)
    } else if plan.op() is Tn {
        scalar_products::weight_kernels(plan, operands.output, operands.a, operands.b)
    } else {
        scalar_dx_products::input_kernels(plan)
    }
}

/// A launch is named after a kernel and recorded with its tile and its slabs.
spec fn is_of(kernel: Kernel, node: scalar_nodes::NodeGeometry) -> bool {
    &&& device::named(kernel, node.symbol)
    &&& recorded_tile(kernel) == (node.tile.0 as int, node.tile.1 as int)
    &&& recorded_slab(kernel) == (node.bk as int, node.stages as int)
}

#[verifier::spinoff_prover]
#[verifier::rlimit(60)]
proof fn forward_nodes_are_kernels(
    operands: F32TriadOperands,
    plan: ScalarDispatchPlan,
    m: u32,
    k: u32,
    n: u32,
    index: int,
)
    requires
        plan.op() is Nn,
        scalar_nodes::node_geometry(operands, plan, m, k, n) matches Ok(nodes) && 0 <= index
            < nodes.len(),
    ensures
        is_of(
            scalar_products::forward_kernels(plan)(index),
            scalar_nodes::node_geometry(operands, plan, m, k, n)->Ok_0[index],
        ),
{
}

#[verifier::spinoff_prover]
#[verifier::rlimit(60)]
proof fn weight_nodes_are_kernels(
    operands: F32TriadOperands,
    plan: ScalarDispatchPlan,
    m: u32,
    k: u32,
    n: u32,
    index: int,
)
    requires
        plan.op() is Tn,
        scalar_nodes::node_geometry(operands, plan, m, k, n) matches Ok(nodes) && 0 <= index
            < nodes.len(),
    ensures
        is_of(
            scalar_products::weight_kernels(plan, operands.output, operands.a, operands.b)(index),
            scalar_nodes::node_geometry(operands, plan, m, k, n)->Ok_0[index],
        ),
{
}

#[verifier::spinoff_prover]
#[verifier::rlimit(60)]
proof fn input_nodes_are_kernels(
    operands: F32TriadOperands,
    plan: ScalarDispatchPlan,
    m: u32,
    k: u32,
    n: u32,
    index: int,
)
    requires
        plan.op() is Nt,
        scalar_nodes::node_geometry(operands, plan, m, k, n) matches Ok(nodes) && 0 <= index
            < nodes.len(),
    ensures
        is_of(
            scalar_dx_products::input_kernels(plan)(index),
            scalar_nodes::node_geometry(operands, plan, m, k, n)->Ok_0[index],
        ),
{
}

/// The frozen launches of a plan are named after its kernels and recorded with
/// their tiles and their slabs.
#[verifier::spinoff_prover]
#[verifier::rlimit(60)]
pub proof fn frozen_launches_are_the_kernels_of_the_plan(
    request: F32TriadRequest,
    operands: F32TriadOperands,
    plan: ScalarDispatchPlan,
    nodes: Seq<ScalarNodeSpec>,
    index: int,
)
    requires
        scalar_nodes::physical_nodes(request, operands, plan) == Ok::<
            Seq<ScalarNodeSpec>,
            LaunchError,
        >(nodes),
        0 <= index < nodes.len(),
    ensures
        device::named(plan_kernels(plan, operands)(index), nodes[index].symbol),
        recorded_tile(plan_kernels(plan, operands)(index)) == (
            nodes[index].tile.0 as int,
            nodes[index].tile.1 as int,
        ),
        recorded_slab(plan_kernels(plan, operands)(index)) == (
            nodes[index].bk as int,
            nodes[index].stages as int,
        ),
{
    let m = request.shape.m as u32;
    let k = request.shape.k as u32;
    let n = request.shape.n as u32;
    let geometry = scalar_nodes::node_geometry(operands, plan, m, k, n)->Ok_0;
    assert(nodes[index].symbol == geometry[index].symbol);
    assert(nodes[index].tile == geometry[index].tile);
    assert(nodes[index].bk == geometry[index].bk);
    assert(nodes[index].stages == geometry[index].stages);
    match plan.op() {
        ResolvedGemmOp::Nn => forward_nodes_are_kernels(operands, plan, m, k, n, index),
        ResolvedGemmOp::Tn => weight_nodes_are_kernels(operands, plan, m, k, n, index),
        ResolvedGemmOp::Nt => input_nodes_are_kernels(operands, plan, m, k, n, index),
    }
}

/// The route of a frozen launch has its product, its kernel and its blocks.
pub proof fn scalar_routes_record_their_launch(
    context: GemmRouteIdentity,
    compiler: CompilerIdentity,
    revisions: TableRevisions,
    request: F32TriadRequest,
    resources: Sha256Digest,
    node: ScalarNodeSpec,
)
    requires
        scalar_routes::block_fits(node.launch),
    ensures
        ({
            let route = scalar_routes::resolved_route(
                context,
                compiler,
                revisions,
                request,
                resources,
                node,
            );
            &&& records_product(route, request)
            &&& records_blocks(route, node.launch.config())
            &&& route.launch.arguments_digest == node.launch.arguments_digest
            &&& route.symbol == node.symbol
            &&& route.tile == node.tile
            &&& route.bk == node.bk
            &&& route.stages == node.stages
            &&& route.resources_digest == resources
            &&& route.artifact == context.artifacts.triad_scalar
            &&& route.compiler == compiler
            &&& route.target == compiler.target
            &&& route.device == context.device
        }),
{
    let dims = node.launch.block_dim;
    assert(0 <= dims.0 * dims.1 * dims.2) by (nonlinear_arith);
}

/// A half-precision launch is recorded with the product that it observed, the
/// tile of its kernel and its own blocks, on the module that owns the kernel.
pub proof fn half_routes_record_their_launch(
    context: GemmRouteIdentity,
    compilers: HalfCompilers,
    revisions: TableRevisions,
    observation: HalfGemmObservation,
    identity: HalfKernelIdentity,
    dtype: PolicyDtype,
    config: LaunchConfig,
    arguments: Sha256Digest,
)
    requires
        half_routes::block_countable(config),
    ensures
        ({
            let route = half_routes::half_route(
                context,
                compilers,
                revisions,
                observation,
                identity,
                dtype,
                config,
                arguments,
            );
            &&& route.op == observation.op
            &&& route.dtype == dtype
            &&& route.shape == observation.dims
            &&& route.strides == observation.strides
            &&& route.tile == observation.tile
            &&& (route.bk, route.stages) == observation.bk_stages
            &&& records_blocks(route, config)
            &&& route.launch.arguments_digest == arguments
            &&& route.symbol == identity.symbol
            &&& route.module_kind == identity.module_kind
            &&& identity.module_kind == ModuleKind::TriadSm80 ==> {
                &&& route.artifact == context.artifacts.triad_sm80
                &&& route.compiler == compilers.triad_sm80
                &&& route.backend == PhysicalGemmBackend::Sm80Mma16V1
            }
            &&& identity.module_kind == ModuleKind::TriadScalar ==> {
                &&& route.artifact == context.artifacts.triad_scalar
                &&& route.compiler == compilers.triad_scalar
                &&& route.backend == PhysicalGemmBackend::ScalarFmaV1
            }
            &&& route.device == context.device
        }),
{
    let dims = config.block_dim;
    assert(0 <= dims.0 * dims.1 * dims.2) by (nonlinear_arith);
}

/// A half-precision graph node observes the product that it was asked for:
/// each tensor in its place, the strides of a forward product where it has
/// some and packed rows otherwise, and a bias for a forward product alone.
pub proof fn graph_nodes_observe_their_product(
    expected: ExpectedPhysicalKernel,
    request: HalfPhysicalTraceRequest,
    kernel: HalfKernel,
    observation: HalfGemmObservation,
)
    requires
        half_graph::native_observation(expected, request, kernel) == Ok::<
            HalfGemmObservation,
            LaunchError,
        >(observation),
    ensures
        observation.op == request.op,
        observation.dtype == request.dtype,
        observation.dims == request.dims,
        observation.strides == (match request.nn_strides {
            Some(strides) => strides,
            None => match request.op {
                ResolvedGemmOp::Nt => (request.dims.2, request.dims.2, request.dims.1),
                _ => (request.dims.1, request.dims.2, request.dims.2),
            },
        }),
        observation.arguments.output == request.output,
        observation.arguments.a == request.a,
        observation.arguments.b == request.b,
        observation.arguments.bias == (if request.op is Nn {
            request.bias
        } else {
            0
        }),
        Some(observation.tile) == expected.tile,
        expected.gemm_route matches Some(route) && observation.bk_stages == (
            route.bk,
            route.stages,
        ),
        observation.base == kernel.base(),
{
}

/// The tensor-core kernels belong to the SM80 module, the others to the scalar
/// one, and only the stream-K kernel is not tiled.
pub proof fn half_kernels_belong_to_their_module(kernel: HalfKernel)
    ensures
        kernel.module_kind() == (match kernel {
            HalfKernel::NnTc
            | HalfKernel::NnTc64
            | HalfKernel::NnTc16
            | HalfKernel::TnTc
            | HalfKernel::TnTc64
            | HalfKernel::TnTc128x64
            | HalfKernel::TnTc64StreamK
            | HalfKernel::NtTc
            | HalfKernel::NtTc64 => ModuleKind::TriadSm80,
            _ => ModuleKind::TriadScalar,
        }),
        kernel.schedule() == HalfSchedule::Tiled <==> kernel != HalfKernel::TnTc64StreamK,
{
}

/// A route is recorded under the backend and the numeric contract of its own
/// name, a split-K route under as many partitions as it splits into, and a
/// route that folds names the block that does.
pub proof fn tf32_routes_are_recorded_by_name(route: Tf32PhysicalRoute)
    ensures
        route is MmaTf32RnaV1 <==> tf32_routes::tf32_backend(route) is MmaTf32RnaV1,
        route is MmaTf32RnaSplitK2V1 <==> tf32_routes::tf32_backend(route) is MmaTf32RnaSplitK2V1,
        route is MmaTf32RnaSplitK4V1 <==> tf32_routes::tf32_backend(route) is MmaTf32RnaSplitK4V1,
        route is MmaTf32RnaSplitK8V1 <==> tf32_routes::tf32_backend(route) is MmaTf32RnaSplitK8V1,
        route is Sm90aWgmmaTf32TmaV1 <==> tf32_routes::tf32_backend(route) is Sm90aWgmmaTf32TmaV1,
        route is Sm100Tcgen05Tf32TmaV1 <==> tf32_routes::tf32_backend(route)
            is Sm100Tcgen05Tf32TmaV1,
        route is Sm120TmaMmaTf32RnaV1 <==> tf32_routes::tf32_backend(route)
            is Sm120TmaMmaTf32RnaV1,
        route is Sm120TmaMmaTf32RnaStreamKV1 <==> tf32_routes::tf32_backend(route)
            is Sm120TmaMmaTf32RnaStreamKV1,
        route is Sm120TmaFmaExactV1 <==> tf32_routes::tf32_backend(route) is Sm120TmaFmaExactV1,
        route is MmaTf32RnaV1 <==> tf32_routes::tf32_numeric_contract(route) is MmaTf32RnaV1,
        route is MmaTf32RnaSplitK2V1 <==> tf32_routes::tf32_numeric_contract(route)
            is MmaTf32RnaSplitK2V1,
        route is MmaTf32RnaSplitK4V1 <==> tf32_routes::tf32_numeric_contract(route)
            is MmaTf32RnaSplitK4V1,
        route is MmaTf32RnaSplitK8V1 <==> tf32_routes::tf32_numeric_contract(route)
            is MmaTf32RnaSplitK8V1,
        route is Sm90aWgmmaTf32TmaV1 <==> tf32_routes::tf32_numeric_contract(route)
            is Sm90aWgmmaTf32TmaV1,
        route is Sm100Tcgen05Tf32TmaV1 <==> tf32_routes::tf32_numeric_contract(route)
            is Sm100Tcgen05Tf32TmaV1,
        route is Sm120TmaMmaTf32RnaV1 <==> tf32_routes::tf32_numeric_contract(route)
            is Sm120TmaMmaTf32RnaV1,
        route is Sm120TmaMmaTf32RnaStreamKV1 <==> tf32_routes::tf32_numeric_contract(route)
            is Sm120TmaMmaTf32RnaStreamKV1,
        route matches Tf32PhysicalRoute::Sm120TmaFmaExactV1(exact) ==> {
            &&& exact.splits == 1 <==> tf32_routes::tf32_numeric_contract(route) is ScalarFmaV1
            &&& exact.splits != 1 <==> tf32_routes::tf32_numeric_contract(route)
                is ScalarFmaFixedSplitFoldV1
            &&& exact.splits == 1 <==> tf32_routes::tf32_ownership(route) is OneCtaPerOutputTileV1
            &&& exact.splits != 1 <==> tf32_routes::tf32_ownership(route)
                is OwnerCtaPerOutputTileFixedSplitFoldV1
        },
        route is Sm120TmaMmaTf32RnaStreamKV1 <==> tf32_routes::tf32_ownership(route)
            is OwnerCtaPerOutputTileStreamKFixedOrderV1,
        tf32_routes::tf32_splitk_ownership(2) is LastCtaPerOutputTileFixedSplitK2ReduceV1,
        tf32_routes::tf32_splitk_ownership(4) is LastCtaPerOutputTileFixedSplitK4ReduceV1,
        tf32_routes::tf32_splitk_ownership(8) is LastCtaPerOutputTileFixedSplitK8ReduceV1,
{
}

/// An empty sum is recorded as the epilogue that it runs, a sum as the route
/// that computes it.
pub proof fn tf32_routes_record_what_is_computed(
    request: F32TriadRequest,
    spec: Tf32KernelSpec,
    qualified: QualifiedModule,
    revisions: RouteRevisions,
    digests: Tf32LaunchDigests,
    empty: bool,
    config: LaunchConfig,
)
    ensures
        ({
            let route = tf32_routes::single_launch_route(
                request,
                spec,
                qualified,
                revisions,
                digests,
                empty,
                config,
            );
            &&& route.backend == tf32_routes::tf32_backend(spec.route)
            &&& route.ownership == tf32_routes::tf32_ownership(spec.route)
            &&& route.numeric_contract is ZeroReductionEpilogueF32V1 <==> empty
            &&& !empty ==> {
                &&& route.numeric_contract == tf32_routes::tf32_numeric_contract(spec.route)
                &&& route.instruction_family == spec.instruction_family
                &&& route.instruction_shape == spec.instruction_shape
                &&& route.operand_conversion == spec.operand_conversion
                &&& route.tensor_map_revision == spec.tensor_map_revision
            }
            &&& empty ==> route.instruction_family is ScalarFma
                && route.operand_conversion is Unconverted && route.tensor_map_revision
                == revisions.zero_reduction_maps
            &&& route.target == qualified.target
            &&& route.artifact == qualified.artifact
            &&& route.compiler == qualified.compiler
            &&& route.device == qualified.device
            &&& route.device_caps == qualified.device_caps
            &&& route.launch.arguments_digest == digests.arguments
            &&& route.tensor_maps_digest == digests.maps
            &&& route.resources_digest == digests.resources
            &&& route.tuning_table_revision == revisions.tuning_table
            &&& route.schedule_revision == spec.schedule_revision
        }),
{
}

/// A scalar launch is recorded under its own route and names its allocations
/// beside it; any other is recorded on the allocations and the maps that it
/// physically runs on.
pub proof fn launches_are_recorded_on_their_allocations(
    prepared: PreparedF32TriadLaunch,
    logical_dtype: PolicyDtype,
    index: int,
)
    requires
        0 <= index < prepared.routes@.len(),
    ensures
        ({
            let record = f32_enqueue::launch_record(prepared, logical_dtype, index);
            let frozen = prepared.routes@[index];
            let scalar = prepared.kind is Scalar || prepared.kind is ScalarZero;
            &&& record.logical_dtype == logical_dtype
            &&& record.route.symbol == frozen.symbol
            &&& record.route.launch == frozen.launch
            &&& record.route.op == frozen.op
            &&& record.route.shape == frozen.shape
            &&& record.route.strides == frozen.strides
            &&& scalar ==> record.route == frozen && record.physical_resources == Some(
                prepared.physical_resources,
            )
            &&& !scalar ==> record.physical_resources is None && record.route.resources_digest
                == prepared.physical_resources
            &&& prepared.kind matches PreparedF32Kind::Tf32 { maps: Some(maps), .. }
                ==> record.route.tensor_maps_digest == maps.physical_identity
        }),
{
}

/// A half-precision launch may be recorded exactly where there is a context whose
/// policy is batch invariant and of this family, the tensors are of half
/// precision, and a tensor-core kernel is launched only under a policy that
/// allows tensor cores.
pub proof fn half_launches_are_recorded_under_the_live_policy(
    context: Option<GemmRouteIdentity>,
    observation: HalfGemmObservation,
    kernel: HalfKernel,
)
    requires
        observation.base == kernel.base(),
    ensures
        half_routes::half_recording_fault(context, observation) is None <==> {
            &&& context matches Some(live) && live.policy.batch_invariant
                && live.policy.bi_gemm_family == BiGemmFamily::Triad && (match kernel {
                HalfKernel::NnTc
                | HalfKernel::NnTc64
                | HalfKernel::NnTc16
                | HalfKernel::TnTc
                | HalfKernel::TnTc64
                | HalfKernel::TnTc128x64
                | HalfKernel::TnTc64StreamK
                | HalfKernel::NtTc
                | HalfKernel::NtTc64 => live.policy.bi_tensor_cores,
                _ => true,
            })
            &&& observation.dtype == WeightDtype::Bf16 || observation.dtype == WeightDtype::F16
        },
{
    half_kernel::base_names_their_kernel(kernel);
    half_kernels_belong_to_their_module(kernel);
}

/// A graph node is taken for the kernel that its symbol names at its element
/// type, and for none at another; the stream-K kernel only where it is composed.
pub proof fn graph_symbols_name_their_kernel(kernel: HalfKernel, streamk_composed: bool)
    ensures
        ({
            let composed = kernel != HalfKernel::TnTc64StreamK || streamk_composed;
            let of_bf16 = kernel.base()@ + "_bf16"@;
            let of_f16 = kernel.base()@ + "_f16"@;
            &&& half_graph::native_kernel(of_bf16, WeightDtype::Bf16, streamk_composed) is Ok
                == composed
            &&& half_graph::native_kernel(of_f16, WeightDtype::F16, streamk_composed) is Ok
                == composed
            &&& composed ==> half_graph::native_kernel(of_bf16, WeightDtype::Bf16, streamk_composed)
                == Ok::<HalfKernel, LaunchError>(kernel)
            &&& composed ==> half_graph::native_kernel(of_f16, WeightDtype::F16, streamk_composed)
                == Ok::<HalfKernel, LaunchError>(kernel)
            &&& half_graph::native_kernel(of_bf16, WeightDtype::F16, streamk_composed) is Err
            &&& half_graph::native_kernel(of_f16, WeightDtype::Bf16, streamk_composed) is Err
        }),
{
    let of_bf16 = kernel.base()@ + "_bf16"@;
    let of_f16 = kernel.base()@ + "_f16"@;
    half_kernel::base_names_their_kernel(kernel);
    text::stripping_undoes_appending(kernel.base()@, "_bf16"@);
    text::stripping_undoes_appending(kernel.base()@, "_f16"@);
    reveal_strlit("_bf16");
    reveal_strlit("_f16");
    assert(text::stripped(of_bf16, "_f16"@) is None) by {
        assert(of_bf16[of_bf16.len() - 4] == "_bf16"@[1]);
        if of_bf16.subrange(of_bf16.len() - 4, of_bf16.len() as int) == "_f16"@ {
            assert(of_bf16.subrange(of_bf16.len() - 4, of_bf16.len() as int)[0] == "_f16"@[0]);
        }
    }
    assert(text::stripped(of_f16, "_bf16"@) is None) by {
        if "_bf16"@.len() <= of_f16.len() && of_f16.subrange(of_f16.len() - 5, of_f16.len() as int)
            == "_bf16"@ {
            assert(of_f16.subrange(of_f16.len() - 5, of_f16.len() as int)[1] == "_bf16"@[1]);
            assert(of_f16[of_f16.len() - 4] == "_f16"@[0]);
        }
    }
}

} // verus!
