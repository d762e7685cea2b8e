//! Preparation of f32 products: which kernels serve them, what is frozen
//! and when a frozen launch is no longer current.

use crate::arith::{checked_tile_grid, checked_u32};
use crate::digest;
use crate::digest::Sha256Digest;
use crate::error::LaunchError;
use crate::f32_launch::{
    PreparedF32Kind, PreparedF32TriadLaunch, TensorMapPair, Tf32SplitKWorkspace,
    Tf32StreamKWorkspace,
};
use crate::f32_select;
use crate::f32_select::{tf32_preparation, Tf32Layout};
use crate::identity::{
    validated_allocation_domain, AllocationDomain, CompilerIdentity, GemmRouteIdentity,
    ResolvedGemmRoute, TableRevisions,
};
use crate::kernel::LaunchConfig;
use crate::scalar_nodes;
use crate::scalar_nodes::{scalar_physical_nodes, ScalarNodeSpec};
use crate::scalar_plan;
use crate::scalar_plan::{
    scalar_plan_requires_zero_beta, scalar_transpose_scratch_elements, ScalarDispatchPlan,
    SCALAR_TRANSPOSE_SCRATCH_CAP_ELEMENTS,
};
use crate::scalar_routes;
use crate::scalar_routes::{prepare_scalar_zero_f32, scalar_resolved_routes, PreparedScalarZero};
use crate::shape::{is_zero, F32TriadOperands, F32TriadRequest};
use crate::text::same_text;
use crate::tf32_plan;
use crate::tf32_plan::{
    sm120_fma_launch_plan, tf32_splitk_launch_plan, tf32_streamk_launch_plan, FoldLimits,
    Sm120FmaFacts, Tf32KernelSpec, Tf32PhysicalRoute, Tf32SplitKLaunchPlan, Tf32SplitKSpec,
    Tf32StreamKLaunchPlan,
};
use crate::tf32_routes;
use crate::tf32_routes::{
    tf32_kernel_arguments_digest, tf32_params, tf32_resolved_route, tf32_splitk_resolved_routes,
    PreparedTf32Params, QualifiedModule, RouteRevisions, Tf32LaunchDigests, Tf32TensorOrigins,
};
use vstd::prelude::*;

verus! {

/// How a tensor map presents its elements.
#[derive(Clone, Copy, Debug, PartialEq, Eq, Structural)]
pub enum Tf32TensorMapFormat {
    Tfloat32V1,
    Uint32V1,
}

/// The format of the placeholder maps of an empty reduction.
#[verifier::allow_in_spec]
pub fn placeholder_format(route: Tf32PhysicalRoute) -> Tf32TensorMapFormat
    returns
        (if route.maps_words() {
            Tf32TensorMapFormat::Uint32V1
        } else {
            Tf32TensorMapFormat::Tfloat32V1
        }),
{
    if route.maps_words() {
        Tf32TensorMapFormat::Uint32V1
    } else {
        Tf32TensorMapFormat::Tfloat32V1
    }
}

/// Which tensor maps a tiled launch needs.
#[derive(Clone, Copy, Debug, PartialEq, Eq, Structural)]
pub enum Tf32MapsNeeded {
    Unmapped,
    Placeholder(Tf32TensorMapFormat),
    Encoded,
}

/// Which tensor maps a tiled launch needs: none are encoded for an empty
/// reduction, and the portable kernels read by pointer.
#[verifier::allow_in_spec]
pub fn tf32_maps_needed(request: F32TriadRequest, route: Tf32PhysicalRoute) -> Tf32MapsNeeded
    returns
        (if request.shape.reduction(request.op) == 0 {
            Tf32MapsNeeded::Placeholder(placeholder_format(route))
        } else {
            match route {
                Tf32PhysicalRoute::MmaTf32RnaV1(_) => Tf32MapsNeeded::Unmapped,
                _ => Tf32MapsNeeded::Encoded,
            }
        }),
{
    if request.shape.reduction(request.op) == 0 {
        return Tf32MapsNeeded::Placeholder(placeholder_format(route));
    }
    match route {
        Tf32PhysicalRoute::MmaTf32RnaV1(_) => Tf32MapsNeeded::Unmapped,
        _ => Tf32MapsNeeded::Encoded,
    }
}

/// What tensor maps are bound to.
#[derive(Clone, Copy, Debug, PartialEq, Eq)]
pub struct Tf32MapBinding {
    pub allocation_domain: AllocationDomain,
    pub qualified: QualifiedModule,
}

/// What the tensor maps of a route are bound to.
pub open spec fn map_binding(
    route: Tf32PhysicalRoute,
    portable: Option<QualifiedModule>,
    specialized: Option<QualifiedModule>,
    stream: AllocationDomain,
    kernels: AllocationDomain,
) -> Result<Tf32MapBinding, LaunchError> {
    match (if route.is_portable() {
        portable
    } else {
        specialized
    }) {
        None => Err(LaunchError::UnqualifiedRoute(route)),
        Some(qualified) => if stream == kernels {
            Ok(Tf32MapBinding { allocation_domain: stream, qualified })
        } else {
            Err(LaunchError::ForeignDomain("TF32", stream, kernels))
        },
    }
}

/// Finds what the tensor maps of a route are bound to.
pub fn f32_map_binding(
    route: Tf32PhysicalRoute,
    portable: Option<QualifiedModule>,
    specialized: Option<QualifiedModule>,
    stream: AllocationDomain,
    kernels: AllocationDomain,
) -> (result: Result<Tf32MapBinding, LaunchError>)
    ensures
        result == map_binding(route, portable, specialized, stream, kernels),
{
    let module = if route.is_portable() {
        portable
    } else {
        specialized
    };
    match module {
        None => Err(LaunchError::UnqualifiedRoute(route)),
        Some(qualified) => {
            let allocation_domain = validated_allocation_domain(stream, kernels, "TF32")?;
            Ok(Tf32MapBinding { allocation_domain, qualified })
        },
    }
}

/// The tensor maps of a product: placeholders for an empty reduction, or
/// what the driver encoded.
pub enum F32PreparedTensorMaps<Maps> {
    ZeroReductionV1 {
        request: F32TriadRequest,
        route: Tf32PhysicalRoute,
        binding: Tf32MapBinding,
        format: Tf32TensorMapFormat,
    },
    Encoded(Maps),
}

/// What preparing the tensor maps of a product gives. An empty reduction
/// neither plans nor encodes anything.
pub open spec fn maps_prepared<
    MapPlan,
    Maps,
    Plan: FnOnce(F32TriadRequest, F32TriadOperands, Tf32PhysicalRoute) -> Result<
        MapPlan,
        LaunchError,
    >,
    Encode: FnOnce(MapPlan) -> Result<Maps, LaunchError>,
>(
    request: F32TriadRequest,
    operands: F32TriadOperands,
    route: Tf32PhysicalRoute,
    binding: Tf32MapBinding,
    plan: Plan,
    encode: Encode,
    result: Result<F32PreparedTensorMaps<Maps>, LaunchError>,
) -> bool {
    if request.shape.reduction(request.op) == 0 {
        result == Ok::<F32PreparedTensorMaps<Maps>, LaunchError>(
            F32PreparedTensorMaps::ZeroReductionV1 {
                request,
                route,
                binding,
                format: placeholder_format(route),
            },
        )
    } else {
        exists|planned: Result<MapPlan, LaunchError>|
            #![trigger call_ensures(plan, (request, operands, route), planned)]
            call_ensures(plan, (request, operands, route), planned) && match planned {
                Err(error) => result == Err::<F32PreparedTensorMaps<Maps>, LaunchError>(error),
                Ok(map_plan) => exists|encoded: Result<Maps, LaunchError>|
                    #![trigger call_ensures(encode, (map_plan,), encoded)]
                    call_ensures(encode, (map_plan,), encoded) && result == (match encoded {
                        Err(error) => Err::<F32PreparedTensorMaps<Maps>, LaunchError>(error),
                        Ok(maps) => Ok::<F32PreparedTensorMaps<Maps>, LaunchError>(
                            F32PreparedTensorMaps::Encoded(maps),
                        ),
                    }),
            }
    }
}

/// Prepares the tensor maps of a product.
pub fn prepare_f32_maps_with<
    MapPlan,
    Maps,
    Plan: FnOnce(F32TriadRequest, F32TriadOperands, Tf32PhysicalRoute) -> Result<
        MapPlan,
        LaunchError,
    >,
    Encode: FnOnce(MapPlan) -> Result<Maps, LaunchError>,
>(
    request: F32TriadRequest,
    operands: F32TriadOperands,
    route: Tf32PhysicalRoute,
    binding: Tf32MapBinding,
    plan: Plan,
    encode: Encode,
) -> (result: Result<F32PreparedTensorMaps<Maps>, LaunchError>)
    requires
        request.shape.reduction(request.op) != 0 ==> {
            &&& call_requires(plan, (request, operands, route))
            &&& forall|map_plan: MapPlan| #[trigger]
                call_ensures(
                    plan,
                    (request, operands, route),
                    Ok::<MapPlan, LaunchError>(map_plan),
                ) ==> call_requires(encode, (map_plan,))
        },
    ensures
        maps_prepared(request, operands, route, binding, plan, encode, result),
{
    if request.shape.reduction(request.op) == 0 {
        return Ok(
            F32PreparedTensorMaps::ZeroReductionV1 {
                request,
                route,
                binding,
                format: placeholder_format(route),
            },
        );
    }
    match plan(request, operands, route) {
        Err(error) => Err(error),
        Ok(map_plan) => match encode(map_plan) {
            Err(error) => Err(error),
            Ok(maps) => Ok(F32PreparedTensorMaps::Encoded(maps)),
        },
    }
}

/// Where a launch is prepared, and the recorded and physical digests of the
/// allocations that it runs on.
#[derive(Clone, Copy, Debug, PartialEq, Eq)]
pub struct F32PreparationScope {
    pub context_token: u64,
    pub stream_token: u64,
    pub resources: Sha256Digest,
    pub physical_resources: Sha256Digest,
}

/// A prepared launch holds what was frozen for it.
pub open spec fn assembled(
    scope: F32PreparationScope,
    request: F32TriadRequest,
    operands: F32TriadOperands,
    routes: Seq<ResolvedGemmRoute>,
    kind: PreparedF32Kind,
    launch: PreparedF32TriadLaunch,
) -> bool {
    &&& launch.context_token == scope.context_token
    &&& launch.stream_token == scope.stream_token
    &&& launch.request == request
    &&& launch.operands == operands
    &&& launch.physical_resources == scope.physical_resources
    &&& launch.routes@ == routes
    &&& launch.kind == kind
}

fn assemble(
    scope: &F32PreparationScope,
    request: F32TriadRequest,
    operands: F32TriadOperands,
    routes: Vec<ResolvedGemmRoute>,
    kind: PreparedF32Kind,
) -> (launch: PreparedF32TriadLaunch)
    ensures
        assembled(*scope, request, operands, routes@, kind, launch),
{
    PreparedF32TriadLaunch {
        context_token: scope.context_token,
        stream_token: scope.stream_token,
        request,
        operands,
        physical_resources: scope.physical_resources,
        routes,
        kind,
    }
}

/// A device workspace: where it is and how many bytes it has.
#[derive(Clone, Copy, Debug, PartialEq, Eq, Structural)]
pub struct DeviceSpan {
    pub address: u64,
    pub bytes: u64,
}

/// The workspaces that a scalar plan uses.
#[derive(Clone, Copy, Debug, PartialEq, Eq, Structural)]
pub struct ScalarScratchResources {
    pub split: Option<DeviceSpan>,
    pub transpose: Option<DeviceSpan>,
}

/// The workspaces that a scalar plan uses, out of a split workspace and a
/// transpose workspace of a number of elements.
pub open spec fn scratch_resources(
    request: F32TriadRequest,
    plan: ScalarDispatchPlan,
    split: u64,
    transpose: u64,
    transpose_len: usize,
) -> Result<ScalarScratchResources, LaunchError> {
    let split_span = if plan.uses_split_scratch() {
        Some(DeviceSpan { address: split, bytes: (scalar_plan::SPLITK_SCRATCH_CAP * 4) as u64 })
    } else {
        None
    };
    match scalar_plan::transpose_scratch_elements(request, plan) {
        Err(error) => Err(error),
        Ok(None) => Ok(ScalarScratchResources { split: split_span, transpose: None }),
        Ok(Some(required)) => if transpose_len != SCALAR_TRANSPOSE_SCRATCH_CAP_ELEMENTS || required
            > transpose_len {
            Err(
                LaunchError::TransposeScratchCapacity(
                    "scalar transpose scratch allocation",
                    transpose_len,
                    required,
                ),
            )
        } else {
            Ok(
                ScalarScratchResources {
                    split: split_span,
                    transpose: Some(
                        DeviceSpan {
                            address: transpose,
                            bytes: (SCALAR_TRANSPOSE_SCRATCH_CAP_ELEMENTS * 4) as u64,
                        },
                    ),
                },
            )
        },
    }
}

/// Finds the workspaces that a scalar plan uses.
pub fn scalar_scratch_resources(
    request: F32TriadRequest,
    plan: ScalarDispatchPlan,
    split: u64,
    transpose: u64,
    transpose_len: usize,
) -> (result: Result<ScalarScratchResources, LaunchError>)
    ensures
        result == scratch_resources(request, plan, split, transpose, transpose_len),
{
    let split_span = if plan.needs_split_scratch() {
        Some(
            DeviceSpan { address: split, bytes: (scalar_plan::SPLITK_SCRATCH_CAP * 4) as u64 },
        )
    } else {
        None
    };
    match scalar_transpose_scratch_elements(request, plan)? {
        None => Ok(ScalarScratchResources { split: split_span, transpose: None }),
        Some(required) => {
            if transpose_len != SCALAR_TRANSPOSE_SCRATCH_CAP_ELEMENTS || required > transpose_len {
                return Err(
                    LaunchError::TransposeScratchCapacity(
                        "scalar transpose scratch allocation",
                        transpose_len,
                        required,
                    ),
                );
            }
            Ok(
                ScalarScratchResources {
                    split: split_span,
                    transpose: Some(
                        DeviceSpan {
                            address: transpose,
                            bytes: (SCALAR_TRANSPOSE_SCRATCH_CAP_ELEMENTS * 4) as u64,
                        },
                    ),
                },
            )
        },
    }
}

/// Refuses a plan that would drop what the output holds.
pub fn validate_scalar_beta(operands: F32TriadOperands, plan: ScalarDispatchPlan) -> (result:
    Result<(), LaunchError>)
    ensures
        result == (if !is_zero(operands.beta) && scalar_plan::plan_requires_zero_beta(plan) {
            Err::<(), LaunchError>(
                LaunchError::Rejected("selected exact scalar plan requires beta == 0"),
            )
        } else {
            Ok::<(), LaunchError>(())
        }),
{
    if !is_zero(operands.beta) && scalar_plan_requires_zero_beta(plan) {
        return Err(LaunchError::Rejected("selected exact scalar plan requires beta == 0"));
    }
    Ok(())
}

/// The frozen launches of a scalar plan.
#[verifier::opaque]
pub open spec fn frozen_nodes(
    request: F32TriadRequest,
    operands: F32TriadOperands,
    plan: ScalarDispatchPlan,
) -> Result<Seq<ScalarNodeSpec>, LaunchError> {
    scalar_nodes::physical_nodes(request, operands, plan)
}

/// The routes of frozen launches.
pub open spec fn scalar_frozen_routes(
    scope: F32PreparationScope,
    context: GemmRouteIdentity,
    compiler: CompilerIdentity,
    revisions: TableRevisions,
    request: F32TriadRequest,
    nodes: Seq<ScalarNodeSpec>,
) -> Seq<ResolvedGemmRoute> {
    Seq::new(
        nodes.len(),
        |i: int|
            scalar_routes::resolved_route(
                context,
                compiler,
                revisions,
                request,
                scope.resources,
                nodes[i],
            ),
    )
}

proof fn frozen_nodes_have_recordable_blocks(
    request: F32TriadRequest,
    operands: F32TriadOperands,
    plan: ScalarDispatchPlan,
)
    ensures
        frozen_nodes(request, operands, plan) matches Ok(nodes) ==> forall|i: int|
            0 <= i < nodes.len() ==> scalar_routes::block_fits((#[trigger] nodes[i]).launch),
{
    reveal(frozen_nodes);
    scalar_routes::frozen_blocks_fit(request, operands, plan);
}

fn freeze_scalar_nodes(
    request: F32TriadRequest,
    operands: F32TriadOperands,
    plan: ScalarDispatchPlan,
) -> (result: Result<Vec<ScalarNodeSpec>, LaunchError>)
    requires
        scalar_nodes::nodes_defined(request, operands, plan),
    ensures
        match result {
            Ok(nodes) => frozen_nodes(request, operands, plan) == Ok::<
                Seq<ScalarNodeSpec>,
                LaunchError,
            >(nodes@),
            Err(error) => frozen_nodes(request, operands, plan) == Err::<
                Seq<ScalarNodeSpec>,
                LaunchError,
            >(error),
        },
{
    reveal(frozen_nodes);
    scalar_physical_nodes(request, operands, plan)
}

fn freeze_scalar_routes(
    scope: &F32PreparationScope,
    context: &GemmRouteIdentity,
    compiler: &CompilerIdentity,
    revisions: TableRevisions,
    request: F32TriadRequest,
    operands: F32TriadOperands,
    plan: ScalarDispatchPlan,
) -> (result: Result<Vec<ResolvedGemmRoute>, LaunchError>)
    requires
        scalar_nodes::nodes_defined(request, operands, plan),
    ensures
        match (result, frozen_nodes(request, operands, plan)) {
            (Ok(routes), Ok(nodes)) => routes@ == scalar_frozen_routes(
                *scope,
                *context,
                *compiler,
                revisions,
                request,
                nodes,
            ),
            (Err(error), Err(expected)) => error == expected,
            _ => false,
        },
{
    proof {
        frozen_nodes_have_recordable_blocks(request, operands, plan);
    }
    match freeze_scalar_nodes(request, operands, plan) {
        Err(error) => Err(error),
        Ok(nodes) => {
            proof {
                let frozen = frozen_nodes(request, operands, plan)->Ok_0;
                assert forall|i: int| 0 <= i < nodes@.len() implies scalar_routes::block_fits(
                    (#[trigger] nodes@[i]).launch,
                ) by {
                    assert(nodes@[i] == frozen[i]);
                }
            }
            Ok(scalar_resolved_routes(
                context,
                compiler,
                revisions,
                request,
                scope.resources,
                &nodes,
            ))
        },
    }
}

/// What preparing a scalar plan gives: a plan that keeps its output, the
/// frozen launches and their routes.
pub open spec fn scalar_prepared(
    scope: F32PreparationScope,
    context: GemmRouteIdentity,
    compiler: CompilerIdentity,
    revisions: TableRevisions,
    request: F32TriadRequest,
    operands: F32TriadOperands,
    plan: ScalarDispatchPlan,
    result: Result<PreparedF32TriadLaunch, LaunchError>,
) -> bool {
    if !is_zero(operands.beta) && scalar_plan::plan_requires_zero_beta(plan) {
        result == Err::<PreparedF32TriadLaunch, LaunchError>(
            LaunchError::Rejected("selected exact scalar plan requires beta == 0"),
        )
    } else {
        match frozen_nodes(request, operands, plan) {
            Err(error) => result == Err::<PreparedF32TriadLaunch, LaunchError>(error),
            Ok(nodes) => {
                &&& result is Ok
                &&& assembled(
                    scope,
                    request,
                    operands,
                    scalar_frozen_routes(scope, context, compiler, revisions, request, nodes),
                    PreparedF32Kind::Scalar(plan),
                    result->Ok_0,
                )
            },
        }
    }
}

/// Prepares a scalar plan.
pub fn prepare_scalar_f32_with_plan(
    scope: &F32PreparationScope,
    context: &GemmRouteIdentity,
    compiler: &CompilerIdentity,
    revisions: TableRevisions,
    request: F32TriadRequest,
    operands: F32TriadOperands,
    plan: ScalarDispatchPlan,
) -> (result: Result<PreparedF32TriadLaunch, LaunchError>)
    requires
        scalar_nodes::nodes_defined(request, operands, plan),
    ensures
        scalar_prepared(*scope, *context, *compiler, revisions, request, operands, plan, result),
{
    validate_scalar_beta(operands, plan)?;
    let routes = freeze_scalar_routes(
        scope,
        context,
        compiler,
        revisions,
        request,
        operands,
        plan,
    )?;
    Ok(assemble(scope, request, operands, routes, PreparedF32Kind::Scalar(plan)))
}

/// Prepares the epilogue of an empty reduction.
pub fn prepare_zero_f32(
    scope: &F32PreparationScope,
    context: &GemmRouteIdentity,
    compiler: &CompilerIdentity,
    revisions: TableRevisions,
    request: F32TriadRequest,
    operands: F32TriadOperands,
    maps: (u32, Sha256Digest),
) -> (result: Result<PreparedF32TriadLaunch, LaunchError>)
    ensures
        match (
            scalar_routes::zero_reduction_config(request),
            scalar_routes::zero_reduction_params(request, operands),
        ) {
            (Err(error), _) => result == Err::<PreparedF32TriadLaunch, LaunchError>(error),
            (Ok(_), Err(error)) => result == Err::<PreparedF32TriadLaunch, LaunchError>(error),
            (Ok(config), Ok(params)) => {
                &&& result is Ok
                &&& assembled(
                    *scope,
                    request,
                    operands,
                    seq![
                        scalar_routes::zero_route(
                            *context,
                            *compiler,
                            revisions,
                            request,
                            maps,
                            scope.resources,
                            config,
                            scalar_routes::zero_arguments_digest(request, operands),
                        ),
                    ],
                    PreparedF32Kind::ScalarZero { params, config },
                    result->Ok_0,
                )
            },
        },
{
    let zero: PreparedScalarZero = prepare_scalar_zero_f32(
        context,
        compiler,
        revisions,
        request,
        operands,
        maps,
        scope.resources,
    )?;
    let routes = vec![zero.route];
    assert(routes@ =~= seq![zero.route]);
    Ok(
        assemble(
            scope,
            request,
            operands,
            routes,
            PreparedF32Kind::ScalarZero { params: zero.params, config: zero.config },
        ),
    )
}

/// What TF32 kernels are prepared against: the module that a route was
/// qualified on, the recorded revisions, and the limits of the device.
#[derive(Clone, Copy, Debug, PartialEq, Eq)]
pub struct Tf32Device {
    pub module: QualifiedModule,
    pub revisions: RouteRevisions,
    pub multiprocessor_count: u32,
    pub limits: FoldLimits,
    pub fma: Sm120FmaFacts,
}

/// The digest that maps are recorded under. No maps are recorded as zero.
#[verifier::allow_in_spec]
pub fn maps_digest(maps: Option<TensorMapPair>) -> Sha256Digest
    returns
        (match maps {
            Some(maps) => maps.identity,
            None => digest::zero_digest(),
        }),
{
    match maps {
        Some(maps) => maps.identity,
        None => digest::no_digest(),
    }
}

/// Where the maps start. A launch without maps starts at the origin.
#[verifier::allow_in_spec]
pub fn map_origins(maps: Option<TensorMapPair>) -> Tf32TensorOrigins
    returns
        (match maps {
            Some(maps) => maps.origins,
            None => Tf32TensorOrigins { a_x: 0, a_y: 0, b_x: 0, b_y: 0 },
        }),
{
    match maps {
        Some(maps) => maps.origins,
        None => Tf32TensorOrigins { a_x: 0, a_y: 0, b_x: 0, b_y: 0 },
    }
}

/// The recorded route of a prepared single-launch kernel.
pub open spec fn frozen_route(
    scope: F32PreparationScope,
    device: Tf32Device,
    request: F32TriadRequest,
    operands: F32TriadOperands,
    spec: Tf32KernelSpec,
    maps: Option<TensorMapPair>,
    config: LaunchConfig,
) -> ResolvedGemmRoute {
    tf32_routes::single_launch_route(
        request,
        spec,
        device.module,
        device.revisions,
        Tf32LaunchDigests {
            maps: maps_digest(maps),
            resources: scope.resources,
            arguments: digest::sha256(
                tf32_routes::tf32_argument_transcript(
                    tf32_routes::tf32_argument_record(
                        request,
                        operands,
                        spec.symbol,
                        maps_digest(maps),
                    ),
                ),
            ),
        },
        request.shape.reduction(request.op) == 0,
        config,
    )
}

fn freeze_route(
    scope: &F32PreparationScope,
    device: &Tf32Device,
    request: F32TriadRequest,
    operands: F32TriadOperands,
    spec: &Tf32KernelSpec,
    maps: Option<TensorMapPair>,
    config: LaunchConfig,
) -> (routes: Vec<ResolvedGemmRoute>)
    ensures
        routes@ == seq![
            frozen_route(*scope, *device, request, operands, *spec, maps, config),
        ],
{
    let recorded = maps_digest(maps);
    let arguments = tf32_kernel_arguments_digest(request, operands, spec.symbol, recorded);
    let route = tf32_resolved_route(
        request,
        spec,
        &device.module,
        device.revisions,
        Tf32LaunchDigests { maps: recorded, resources: scope.resources, arguments },
        request.shape.reduction(request.op) == 0,
        config,
    );
    let routes = vec![route];
    assert(routes@ =~= seq![route]);
    routes
}

/// The geometry of a tiled launch: one block per output tile.
pub open spec fn tiled_config(request: F32TriadRequest, spec: Tf32KernelSpec) -> Result<
    LaunchConfig,
    LaunchError,
> {
    match checked_u32(request.shape.output_rows(request.op), "TF32 output rows") {
        Err(error) => Err(error),
        Ok(rows) => match checked_u32(
            request.shape.output_columns(request.op),
            "TF32 output columns",
        ) {
            Err(error) => Err(error),
            Ok(columns) => match checked_tile_grid(rows, spec.tile.0, columns, spec.tile.1) {
                Err(error) => Err(error),
                Ok(grid) => Ok(
                    LaunchConfig::linear(grid, spec.threads, spec.dynamic_shared_bytes),
                ),
            },
        },
    }
}

fn build_tiled_config(request: F32TriadRequest, spec: &Tf32KernelSpec) -> (result: Result<
    LaunchConfig,
    LaunchError,
>)
    requires
        spec.wf(),
    ensures
        result == tiled_config(request, *spec),
{
    let rows: u32 = checked_u32(request.shape.output_rows(request.op), "TF32 output rows")?;
    let columns: u32 = checked_u32(
        request.shape.output_columns(request.op),
        "TF32 output columns",
    )?;
    let grid: u32 = checked_tile_grid(rows, spec.tile.0, columns, spec.tile.1)?;
    Ok(LaunchConfig::linear(grid, spec.threads, spec.dynamic_shared_bytes))
}

/// What preparing a tiled launch gives.
pub open spec fn tiled_prepared(
    scope: F32PreparationScope,
    device: Tf32Device,
    request: F32TriadRequest,
    operands: F32TriadOperands,
    spec: Tf32KernelSpec,
    maps: Option<TensorMapPair>,
    result: Result<PreparedF32TriadLaunch, LaunchError>,
) -> bool {
    match (
        tiled_config(request, spec),
        tf32_routes::route_params(request, operands, map_origins(maps), spec.route, device.fma),
    ) {
        (Err(error), _) => result == Err::<PreparedF32TriadLaunch, LaunchError>(error),
        (Ok(_), Err(error)) => result == Err::<PreparedF32TriadLaunch, LaunchError>(error),
        (Ok(config), Ok(params)) => {
            &&& result is Ok
            &&& assembled(
                scope,
                request,
                operands,
                seq![frozen_route(scope, device, request, operands, spec, maps, config)],
                PreparedF32Kind::Tf32 { route: spec.route, maps, params, config },
                result->Ok_0,
            )
        },
    }
}

/// Prepares a tiled TF32 launch.
pub fn prepare_tf32_tiled_f32(
    scope: &F32PreparationScope,
    device: &Tf32Device,
    request: F32TriadRequest,
    operands: F32TriadOperands,
    spec: &Tf32KernelSpec,
    maps: Option<TensorMapPair>,
) -> (result: Result<PreparedF32TriadLaunch, LaunchError>)
    requires
        spec.wf(),
        device.fma.bk > 0,
        f32_select::tf32_layout(spec.route) is Tiled,
    ensures
        tiled_prepared(*scope, *device, request, operands, *spec, maps, result),
{
    let config = build_tiled_config(request, spec)?;
    let routes = freeze_route(scope, device, request, operands, spec, maps, config);
    let params = tf32_params(request, operands, map_origins(maps), spec.route, device.fma)?;
    Ok(
        assemble(
            scope,
            request,
            operands,
            routes,
            PreparedF32Kind::Tf32 { route: spec.route, maps, params, config },
        ),
    )
}

/// The plan of a folding launch: stream-K deals units to a persistent grid,
/// the exact kernels run one block per split of a tile.
pub open spec fn folding_plan(
    request: F32TriadRequest,
    spec: Tf32KernelSpec,
    multiprocessor_count: u32,
    limits: FoldLimits,
    fma: Sm120FmaFacts,
) -> Result<Tf32StreamKLaunchPlan, LaunchError> {
    match spec.route.exact_fma() {
        Some(exact) => match tf32_plan::fma_plan(request, exact, fma) {
            Err(error) => Err(error),
            Ok(plan) => Ok(
                Tf32StreamKLaunchPlan {
                    grid: plan.units,
                    partial_elements: plan.slab_elements,
                    flag_elements: plan.flag_elements,
                },
            ),
        },
        None => tf32_plan::streamk_plan(request, spec, multiprocessor_count, limits),
    }
}

/// Plans a folding launch.
pub fn tf32_folding_launch_plan(
    request: F32TriadRequest,
    spec: &Tf32KernelSpec,
    multiprocessor_count: u32,
    limits: FoldLimits,
    fma: Sm120FmaFacts,
) -> (result: Result<Tf32StreamKLaunchPlan, LaunchError>)
    requires
        spec.wf(),
        fma.bk > 0,
        spec.route.exact_fma() matches Some(exact) ==> fma.qualified is Ok ==> exact.splits > 0,
    ensures
        result == folding_plan(request, *spec, multiprocessor_count, limits, fma),
{
    match spec.route.exact_fma() {
        Some(exact) => {
            let plan = sm120_fma_launch_plan(request, exact, fma)?;
            Ok(
                Tf32StreamKLaunchPlan {
                    grid: plan.units,
                    partial_elements: plan.slab_elements,
                    flag_elements: plan.flag_elements,
                },
            )
        },
        None => tf32_streamk_launch_plan(request, spec, multiprocessor_count, limits),
    }
}

/// The workspace that a folding launch is bound to. An exact launch with
/// one split folds nothing and is bound to none.
#[verifier::allow_in_spec]
pub fn folding_workspace(
    route: Tf32PhysicalRoute,
    shared: Tf32StreamKWorkspace,
) -> Tf32StreamKWorkspace
    returns
        (match route.exact_fma() {
            Some(exact) => if exact.splits == 1 {
                Tf32StreamKWorkspace { partial: 0, flags: 0 }
            } else {
                shared
            },
            None => shared,
        }),
{
    match route.exact_fma() {
        Some(exact) => {
            if exact.splits == 1 {
                Tf32StreamKWorkspace { partial: 0, flags: 0 }
            } else {
                shared
            }
        },
        None => shared,
    }
}

/// What preparing a folding launch gives.
pub open spec fn folding_prepared(
    scope: F32PreparationScope,
    device: Tf32Device,
    request: F32TriadRequest,
    operands: F32TriadOperands,
    spec: Tf32KernelSpec,
    maps: TensorMapPair,
    shared: Tf32StreamKWorkspace,
    result: Result<PreparedF32TriadLaunch, LaunchError>,
) -> bool {
    match (
        folding_plan(
            request,
            spec,
            device.multiprocessor_count,
            device.limits,
            device.fma,
        ),
        tf32_routes::route_params(request, operands, maps.origins, spec.route, device.fma),
    ) {
        (Err(error), _) => result == Err::<PreparedF32TriadLaunch, LaunchError>(error),
        (Ok(_), Err(error)) => result == Err::<PreparedF32TriadLaunch, LaunchError>(error),
        (Ok(plan), Ok(params)) => {
            let config = LaunchConfig::linear(plan.grid, spec.threads, spec.dynamic_shared_bytes);
            &&& result is Ok
            &&& assembled(
                scope,
                request,
                operands,
                seq![frozen_route(scope, device, request, operands, spec, Some(maps), config)],
                PreparedF32Kind::Tf32StreamK {
                    route: spec.route,
                    maps,
                    params,
                    config,
                    plan,
                    workspace: folding_workspace(spec.route, shared),
                },
                result->Ok_0,
            )
        },
    }
}

/// Prepares a folding launch, stream-K or exact.
pub fn prepare_tf32_folding_f32(
    scope: &F32PreparationScope,
    device: &Tf32Device,
    request: F32TriadRequest,
    operands: F32TriadOperands,
    spec: &Tf32KernelSpec,
    maps: TensorMapPair,
    shared: Tf32StreamKWorkspace,
) -> (result: Result<PreparedF32TriadLaunch, LaunchError>)
    requires
        spec.wf(),
        device.fma.bk > 0,
        spec.route.exact_fma() matches Some(exact) ==> device.fma.qualified is Ok ==> exact.splits > 0,
    ensures
        folding_prepared(
            *scope,
            *device,
            request,
            operands,
            *spec,
            maps,
            shared,
            result,
        ),
{
    let plan = tf32_folding_launch_plan(
        request,
        spec,
        device.multiprocessor_count,
        device.limits,
        device.fma,
    )?;
    let config = LaunchConfig::linear(plan.grid, spec.threads, spec.dynamic_shared_bytes);
    let routes = freeze_route(scope, device, request, operands, spec, Some(maps), config);
    let params = tf32_params(request, operands, maps.origins, spec.route, device.fma)?;
    Ok(
        assemble(
            scope,
            request,
            operands,
            routes,
            PreparedF32Kind::Tf32StreamK {
                route: spec.route,
                maps,
                params,
                config,
                plan,
                workspace: folding_workspace(spec.route, shared),
            },
        ),
    )
}

/// What preparing a split-K launch gives.
pub open spec fn splitk_prepared(
    scope: F32PreparationScope,
    device: Tf32Device,
    request: F32TriadRequest,
    operands: F32TriadOperands,
    spec: Tf32SplitKSpec,
    covered: Result<usize, LaunchError>,
    workspace: Tf32SplitKWorkspace,
    result: Result<PreparedF32TriadLaunch, LaunchError>,
) -> bool {
    match (
        tf32_plan::splitk_plan(request, spec, covered, device.limits.counter_capacity),
        tf32_routes::route_params(request, operands, map_origins(None), spec.route, device.fma),
    ) {
        (Err(error), _) => result == Err::<PreparedF32TriadLaunch, LaunchError>(error),
        (Ok(_), Err(error)) => result == Err::<PreparedF32TriadLaunch, LaunchError>(error),
        (Ok(plan), Ok(params)) => {
            &&& params is Sm80
            &&& result is Ok
            &&& assembled(
                scope,
                request,
                operands,
                seq![
                    tf32_routes::splitk_route(
                        request,
                        operands,
                        spec,
                        device.module,
                        device.revisions,
                        scope.resources,
                        plan,
                    ),
                ],
                PreparedF32Kind::Tf32SplitK {
                    route: spec.route,
                    params: params->Sm80_0,
                    plan,
                    workspace,
                },
                result->Ok_0,
            )
        },
    }
}

/// Prepares a fused split-K launch.
pub fn prepare_tf32_splitk_f32(
    scope: &F32PreparationScope,
    device: &Tf32Device,
    request: F32TriadRequest,
    operands: F32TriadOperands,
    spec: &Tf32SplitKSpec,
    covered: Result<usize, LaunchError>,
    workspace: Tf32SplitKWorkspace,
) -> (result: Result<PreparedF32TriadLaunch, LaunchError>)
    requires
        spec.wf(),
        device.fma.bk > 0,
    ensures
        splitk_prepared(
            *scope,
            *device,
            request,
            operands,
            *spec,
            covered,
            workspace,
            result,
        ),
{
    let plan = tf32_splitk_launch_plan(request, spec, covered, device.limits.counter_capacity)?;
    let routes = tf32_splitk_resolved_routes(
        request,
        operands,
        spec,
        &device.module,
        device.revisions,
        scope.resources,
        plan,
    );
    let params = match tf32_params(
        request,
        operands,
        map_origins(None),
        spec.route,
        device.fma,
    )? {
        PreparedTf32Params::Sm80(params) => params,
        _ => {
            return Err(
                LaunchError::Rejected("portable TF32 split-K resolved a non-SM80 parameter ABI"),
            );
        },
    };
    Ok(
        assemble(
            scope,
            request,
            operands,
            routes,
            PreparedF32Kind::Tf32SplitK { route: spec.route, params, plan, workspace },
        ),
    )
}

/// The kernels that a launch is held against: the specifications of its
/// route, how much of the reduction the partitions of a split-K route cover,
/// and the limits of the device.
#[derive(Clone, Copy, Debug, PartialEq, Eq)]
pub struct Tf32Tables {
    pub kernel: Result<Tf32KernelSpec, LaunchError>,
    pub splitk: Result<Tf32SplitKSpec, LaunchError>,
    pub covered: Result<usize, LaunchError>,
    pub multiprocessor_count: u32,
    pub limits: FoldLimits,
    pub fma: Sm120FmaFacts,
}

impl Tf32Tables {
    /// The specifications are well formed.
    pub open spec fn wf(self) -> bool {
        &&& self.fma.bk > 0
        &&& self.splitk matches Ok(spec) ==> spec.wf()
        &&& self.kernel matches Ok(spec) ==> {
            &&& spec.wf()
            &&& spec.route.exact_fma() matches Some(exact) ==> self.fma.qualified is Ok ==> exact.splits > 0
        }
    }
}

/// What a TF32 launch is bound to: its tensor maps and the workspaces of its
/// stream.
#[derive(Clone, Copy, Debug, PartialEq, Eq)]
pub struct Tf32Bindings {
    pub maps: Option<TensorMapPair>,
    pub folding: Tf32StreamKWorkspace,
    pub splitk: Tf32SplitKWorkspace,
}

impl Tf32Bindings {
    /// The tensor maps that a route reads on a product are there.
    pub open spec fn serve(self, request: F32TriadRequest, route: Tf32PhysicalRoute) -> bool {
        ||| f32_select::tf32_layout(route) is SplitK
        ||| tf32_maps_needed(request, route) is Unmapped
        ||| self.maps is Some
    }
}

/// The tensor maps of a tiled launch.
#[verifier::allow_in_spec]
pub fn tiled_maps(
    request: F32TriadRequest,
    route: Tf32PhysicalRoute,
    bindings: Tf32Bindings,
) -> Option<TensorMapPair>
    returns
        (match tf32_maps_needed(request, route) {
            Tf32MapsNeeded::Unmapped => None,
            _ => bindings.maps,
        }),
{
    match tf32_maps_needed(request, route) {
        Tf32MapsNeeded::Unmapped => None,
        _ => bindings.maps,
    }
}

/// What preparing a TF32 route gives: the layout of the route decides which
/// kernel serves it.
pub open spec fn tf32_prepared(
    scope: F32PreparationScope,
    device: Tf32Device,
    request: F32TriadRequest,
    operands: F32TriadOperands,
    layout: Result<(Tf32PhysicalRoute, Tf32Layout), LaunchError>,
    tables: Tf32Tables,
    bindings: Tf32Bindings,
    result: Result<PreparedF32TriadLaunch, LaunchError>,
) -> bool {
    let refused = |error: LaunchError| result == Err::<PreparedF32TriadLaunch, LaunchError>(error);
    match (layout, tables.splitk, tables.kernel) {
        (Err(error), _, _) => refused(error),
        (Ok((_, Tf32Layout::SplitK)), Err(error), _) => refused(error),
        (Ok((_, Tf32Layout::SplitK)), Ok(spec), _) => splitk_prepared(
            scope,
            device,
            request,
            operands,
            spec,
            tables.covered,
            bindings.splitk,
            result,
        ),
        (Ok(_), _, Err(error)) => refused(error),
        (Ok((route, Tf32Layout::Tiled)), _, Ok(spec)) => tiled_prepared(
            scope,
            device,
            request,
            operands,
            spec,
            tiled_maps(request, route, bindings),
            result,
        ),
        (Ok(_), _, Ok(spec)) => folding_prepared(
            scope,
            device,
            request,
            operands,
            spec,
            bindings.maps->0,
            bindings.folding,
            result,
        ),
    }
}

/// Prepares a TF32 route. `resolved` is what the forced route resolves to on
/// the device, `rejection` why its module was rejected.
pub fn prepare_tf32_f32(
    scope: &F32PreparationScope,
    device: &Tf32Device,
    request: F32TriadRequest,
    operands: F32TriadOperands,
    forced: Tf32PhysicalRoute,
    resolved: Result<Tf32PhysicalRoute, LaunchError>,
    rejection: Option<&'static str>,
    tables: &Tf32Tables,
    bindings: &Tf32Bindings,
) -> (result: Result<PreparedF32TriadLaunch, LaunchError>)
    requires
        tables.wf(),
        tables.fma == device.fma,
        resolved matches Ok(route) ==> {
            &&& bindings.serve(request, route)
            &&& tables.kernel matches Ok(spec) ==> spec.route == route
        },
    ensures
        tf32_prepared(
            *scope,
            *device,
            request,
            operands,
            f32_select::prepared_layout(forced, resolved, rejection),
            *tables,
            *bindings,
            result,
        ),
{
    let (route, layout) = tf32_preparation(forced, resolved, rejection)?;
    match layout {
        Tf32Layout::SplitK => {
            let spec = tables.splitk?;
            prepare_tf32_splitk_f32(
                scope,
                device,
                request,
                operands,
                &spec,
                tables.covered,
                bindings.splitk,
            )
        },
        Tf32Layout::Tiled => {
            let spec = tables.kernel?;
            let maps = tiled_maps(request, route, *bindings);
            prepare_tf32_tiled_f32(scope, device, request, operands, &spec, maps)
        },
        Tf32Layout::StreamK | Tf32Layout::Exact(_) => {
            let spec = tables.kernel?;
            match bindings.maps {
                Some(maps) => prepare_tf32_folding_f32(
                    scope,
                    device,
                    request,
                    operands,
                    &spec,
                    maps,
                    bindings.folding,
                ),
                None => Err(LaunchError::Rejected("SM120 TF32 launch has no tensor maps")),
            }
        },
    }
}

/// A route is prepared in its own layout, as one launch on its own operands.
pub proof fn routes_keep_their_layout(
    scope: F32PreparationScope,
    device: Tf32Device,
    request: F32TriadRequest,
    operands: F32TriadOperands,
    route: Tf32PhysicalRoute,
    tables: Tf32Tables,
    bindings: Tf32Bindings,
    launch: PreparedF32TriadLaunch,
)
    requires
        bindings.serve(request, route),
        tables.kernel matches Ok(spec) ==> spec.route == route,
        tables.splitk matches Ok(spec) ==> spec.route == route,
        tf32_prepared(
            scope,
            device,
            request,
            operands,
            Ok::<(Tf32PhysicalRoute, Tf32Layout), LaunchError>(
                (route, f32_select::tf32_layout(route)),
            ),
            tables,
            bindings,
            Ok::<PreparedF32TriadLaunch, LaunchError>(launch),
        ),
    ensures
        launch.request == request,
        launch.operands == operands,
        launch.routes@.len() == 1,
        match f32_select::tf32_layout(route) {
            Tf32Layout::SplitK => launch.kind is Tf32SplitK && launch.kind->Tf32SplitK_route
                == route,
            Tf32Layout::Tiled => launch.kind is Tf32 && launch.kind->Tf32_route == route,
            _ => launch.kind is Tf32StreamK && launch.kind->Tf32StreamK_route == route,
        },
{
}

/// Why a prepared folding launch is no longer current.
pub open spec fn folding_layout_fault(
    prepared: PreparedF32TriadLaunch,
    plan: Tf32StreamKLaunchPlan,
    tables: Tf32Tables,
) -> Option<LaunchError> {
    match tables.kernel {
        Err(error) => Some(error),
        Ok(spec) => if prepared.routes@.len() != 1 {
            Some(
                LaunchError::Rejected("prepared TF32 stream-K launch requires exactly one route"),
            )
        } else if prepared.routes@[0].symbol@ != spec.symbol@ {
            Some(LaunchError::Rejected("prepared TF32 stream-K route changed"))
        } else {
            match folding_plan(
                prepared.request,
                spec,
                tables.multiprocessor_count,
                tables.limits,
                tables.fma,
            ) {
                Err(error) => Some(error),
                Ok(expected) => if expected != plan {
                    Some(LaunchError::Rejected("prepared TF32 stream-K launch plan changed"))
                } else if prepared.routes@[0].launch.config() != LaunchConfig::linear(
                    plan.grid,
                    spec.threads,
                    spec.dynamic_shared_bytes,
                ) {
                    Some(
                        LaunchError::Rejected(
                            "prepared TF32 stream-K launch configuration changed",
                        ),
                    )
                } else {
                    None
                },
            }
        },
    }
}

/// Accepts a prepared folding launch that is still current.
pub fn validate_tf32_streamk_prepared_layout(
    prepared: &PreparedF32TriadLaunch,
    plan: Tf32StreamKLaunchPlan,
    tables: &Tf32Tables,
) -> (result: Result<(), LaunchError>)
    requires
        tables.wf(),
    ensures
        result == (match folding_layout_fault(*prepared, plan, *tables) {
            Some(error) => Err::<(), LaunchError>(error),
            None => Ok::<(), LaunchError>(()),
        }),
{
    let spec = tables.kernel?;
    if prepared.routes.len() != 1 {
        return Err(
            LaunchError::Rejected("prepared TF32 stream-K launch requires exactly one route"),
        );
    }
    if !same_text(prepared.routes[0].symbol, spec.symbol) {
        return Err(LaunchError::Rejected("prepared TF32 stream-K route changed"));
    }
    let expected = tf32_folding_launch_plan(
        prepared.request,
        &spec,
        tables.multiprocessor_count,
        tables.limits,
        tables.fma,
    )?;
    if expected.grid != plan.grid || expected.partial_elements != plan.partial_elements
        || expected.flag_elements != plan.flag_elements {
        return Err(LaunchError::Rejected("prepared TF32 stream-K launch plan changed"));
    }
    let config = LaunchConfig::linear(plan.grid, spec.threads, spec.dynamic_shared_bytes);
    if !prepared.routes[0].launch.config().same(&config) {
        return Err(LaunchError::Rejected("prepared TF32 stream-K launch configuration changed"));
    }
    Ok(())
}

/// Why a prepared split-K launch is no longer current.
pub open spec fn splitk_layout_fault(
    prepared: PreparedF32TriadLaunch,
    plan: Tf32SplitKLaunchPlan,
    tables: Tf32Tables,
) -> Option<LaunchError> {
    match tables.splitk {
        Err(error) => Some(error),
        Ok(spec) => if prepared.routes@.len() != 1 {
            Some(
                LaunchError::Rejected(
                    "prepared fused TF32 split-K launch requires exactly one route",
                ),
            )
        } else if prepared.routes@[0].symbol@ != spec.symbol@ {
            Some(LaunchError::Rejected("prepared fused TF32 split-K route changed"))
        } else {
            match tf32_plan::splitk_plan(
                prepared.request,
                spec,
                tables.covered,
                tables.limits.counter_capacity,
            ) {
                Err(error) => Some(error),
                Ok(expected) => if expected.scratch_elements != plan.scratch_elements
                    || expected.counter_elements != plan.counter_elements {
                    Some(
                        LaunchError::Rejected(
                            "prepared fused TF32 split-K workspace extent changed",
                        ),
                    )
                } else if expected.fused != plan.fused || prepared.routes@[0].launch.config()
                    != plan.fused {
                    Some(
                        LaunchError::Rejected(
                            "prepared fused TF32 split-K launch configuration changed",
                        ),
                    )
                } else {
                    None
                },
            }
        },
    }
}

/// Accepts a prepared split-K launch that is still current.
pub fn validate_tf32_splitk_prepared_layout(
    prepared: &PreparedF32TriadLaunch,
    plan: Tf32SplitKLaunchPlan,
    tables: &Tf32Tables,
) -> (result: Result<(), LaunchError>)
    requires
        tables.wf(),
    ensures
        result == (match splitk_layout_fault(*prepared, plan, *tables) {
            Some(error) => Err::<(), LaunchError>(error),
            None => Ok::<(), LaunchError>(()),
        }),
{
    let spec = tables.splitk?;
    if prepared.routes.len() != 1 {
        return Err(
            LaunchError::Rejected("prepared fused TF32 split-K launch requires exactly one route"),
        );
    }
    if !same_text(prepared.routes[0].symbol, spec.symbol) {
        return Err(LaunchError::Rejected("prepared fused TF32 split-K route changed"));
    }
    let expected = tf32_splitk_launch_plan(
        prepared.request,
        &spec,
        tables.covered,
        tables.limits.counter_capacity,
    )?;
    if expected.scratch_elements != plan.scratch_elements || expected.counter_elements
        != plan.counter_elements {
        return Err(LaunchError::Rejected("prepared fused TF32 split-K workspace extent changed"));
    }
    if !expected.fused.same(&plan.fused) || !prepared.routes[0].launch.config().same(&plan.fused) {
        return Err(
            LaunchError::Rejected("prepared fused TF32 split-K launch configuration changed"),
        );
    }
    Ok(())
}

/// What is live when a prepared launch is used: the context and stream, and
/// what the device answers for its allocations, its maps, the module that
/// its maps are bound to (`Ok(false)` where that changed) and its routes.
#[derive(Clone, Copy, Debug, PartialEq, Eq)]
pub struct F32LiveFacts {
    pub context_token: u64,
    pub stream_token: u64,
    pub resources: Result<(), LaunchError>,
    pub maps: Result<(), LaunchError>,
    pub binding: Result<bool, LaunchError>,
    pub routes: Result<(), LaunchError>,
}

/// Why maps are no longer bound as they were prepared.
pub open spec fn binding_change(live: F32LiveFacts) -> Option<LaunchError> {
    match (live.maps, live.binding) {
        (Err(error), _) => Some(error),
        (Ok(_), Err(error)) => Some(error),
        (Ok(_), Ok(bound)) => if bound {
            None
        } else {
            Some(LaunchError::Rejected("prepared TF32 tensor-map binding changed before launch"))
        },
    }
}

/// Why what was prepared is no longer current, by its kind.
pub open spec fn kind_fault(
    prepared: PreparedF32TriadLaunch,
    live: F32LiveFacts,
    tables: Tf32Tables,
) -> Option<LaunchError> {
    match prepared.kind {
        PreparedF32Kind::Scalar(_) => None,
        PreparedF32Kind::ScalarZero { .. } => match live.maps {
            Err(error) => Some(error),
            Ok(_) => None,
        },
        PreparedF32Kind::Tf32 { maps, .. } => match maps {
            Some(_) => binding_change(live),
            None => None,
        },
        PreparedF32Kind::Tf32SplitK { plan, .. } => match live.binding {
            Err(error) => Some(error),
            Ok(_) => splitk_layout_fault(prepared, plan, tables),
        },
        PreparedF32Kind::Tf32StreamK { plan, .. } => match binding_change(live) {
            Some(error) => Some(error),
            None => folding_layout_fault(prepared, plan, tables),
        },
    }
}

/// Why a prepared launch may not run.
pub open spec fn validation_fault(
    prepared: PreparedF32TriadLaunch,
    live: F32LiveFacts,
    tables: Tf32Tables,
) -> Option<LaunchError> {
    if prepared.context_token != live.context_token {
        Some(
            LaunchError::Rejected("prepared f32 Triad launch belongs to another GPU context"),
        )
    } else if prepared.stream_token != live.stream_token {
        Some(
            LaunchError::Rejected("prepared f32 Triad launch belongs to another CUDA stream"),
        )
    } else {
        match (live.resources, kind_fault(prepared, live, tables), live.routes) {
            (Err(error), _, _) => Some(error),
            (Ok(_), Some(error), _) => Some(error),
            (Ok(_), None, Err(error)) => Some(error),
            (Ok(_), None, Ok(_)) => None,
        }
    }
}

fn validate_binding(live: &F32LiveFacts) -> (result: Result<(), LaunchError>)
    ensures
        result == (match binding_change(*live) {
            Some(error) => Err::<(), LaunchError>(error),
            None => Ok::<(), LaunchError>(()),
        }),
{
    live.maps?;
    if !live.binding? {
        return Err(
            LaunchError::Rejected("prepared TF32 tensor-map binding changed before launch"),
        );
    }
    Ok(())
}

/// Accepts a prepared launch that may run.
pub fn validate_prepared_f32_triad(
    prepared: &PreparedF32TriadLaunch,
    live: &F32LiveFacts,
    tables: &Tf32Tables,
) -> (result: Result<(), LaunchError>)
    requires
        tables.wf(),
    ensures
        result == (match validation_fault(*prepared, *live, *tables) {
            Some(error) => Err::<(), LaunchError>(error),
            None => Ok::<(), LaunchError>(()),
        }),
{
    if prepared.context_token != live.context_token {
        return Err(
            LaunchError::Rejected("prepared f32 Triad launch belongs to another GPU context"),
        );
    }
    if prepared.stream_token != live.stream_token {
        return Err(
            LaunchError::Rejected("prepared f32 Triad launch belongs to another CUDA stream"),
        );
    }
    live.resources?;
    match prepared.kind {
        PreparedF32Kind::Scalar(_) => {},
        PreparedF32Kind::ScalarZero { .. } => {
            live.maps?;
        },
        PreparedF32Kind::Tf32 { maps, .. } => {
            if maps.is_some() {
                validate_binding(live)?;
            }
        },
        PreparedF32Kind::Tf32SplitK { plan, .. } => {
            let _ = live.binding?;
            validate_tf32_splitk_prepared_layout(prepared, plan, tables)?;
        },
        PreparedF32Kind::Tf32StreamK { plan, .. } => {
            validate_binding(live)?;
            validate_tf32_streamk_prepared_layout(prepared, plan, tables)?;
        },
    }
    match live.routes {
        Ok(_) => Ok(()),
        Err(error) => Err(error),
    }
}

/// A folding launch is current right after it was prepared, on the device
/// that it was prepared for.
pub proof fn prepared_folding_launches_are_current(
    scope: F32PreparationScope,
    device: Tf32Device,
    request: F32TriadRequest,
    operands: F32TriadOperands,
    spec: Tf32KernelSpec,
    maps: TensorMapPair,
    shared: Tf32StreamKWorkspace,
    launch: PreparedF32TriadLaunch,
    live: F32LiveFacts,
    tables: Tf32Tables,
)
    requires
        folding_prepared(
            scope,
            device,
            request,
            operands,
            spec,
            maps,
            shared,
            Ok::<PreparedF32TriadLaunch, LaunchError>(launch),
        ),
        live.context_token == scope.context_token,
        live.stream_token == scope.stream_token,
        live.resources is Ok,
        live.maps is Ok,
        live.binding == Ok::<bool, LaunchError>(true),
        live.routes is Ok,
        tables.kernel == Ok::<Tf32KernelSpec, LaunchError>(spec),
        tables.multiprocessor_count == device.multiprocessor_count,
        tables.limits == device.limits,
        tables.fma == device.fma,
    ensures
        launch.wf(),
        validation_fault(launch, live, tables) == None::<LaunchError>,
{
}

/// A split-K launch is current right after it was prepared, on the device
/// that it was prepared for.
pub proof fn prepared_splitk_launches_are_current(
    scope: F32PreparationScope,
    device: Tf32Device,
    request: F32TriadRequest,
    operands: F32TriadOperands,
    spec: Tf32SplitKSpec,
    workspace: Tf32SplitKWorkspace,
    launch: PreparedF32TriadLaunch,
    live: F32LiveFacts,
    tables: Tf32Tables,
)
    requires
        splitk_prepared(
            scope,
            device,
            request,
            operands,
            spec,
            tables.covered,
            workspace,
            Ok::<PreparedF32TriadLaunch, LaunchError>(launch),
        ),
        live.context_token == scope.context_token,
        live.stream_token == scope.stream_token,
        live.resources is Ok,
        live.binding is Ok,
        live.routes is Ok,
        tables.splitk == Ok::<Tf32SplitKSpec, LaunchError>(spec),
        tables.limits == device.limits,
    ensures
        launch.wf(),
        validation_fault(launch, live, tables) == None::<LaunchError>,
{
}

/// A launch never runs in a context or on a stream that it was not prepared
/// for.
pub proof fn launches_stay_where_they_were_prepared(
    prepared: PreparedF32TriadLaunch,
    live: F32LiveFacts,
    tables: Tf32Tables,
)
    requires
        validation_fault(prepared, live, tables) == None::<LaunchError>,
    ensures
        prepared.context_token == live.context_token,
        prepared.stream_token == live.stream_token,
{
}

} // verus!
