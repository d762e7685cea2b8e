//! Prepared f32 launches: what they enqueue, and the graph nodes that
//! replay them.

use crate::arguments;
use crate::control;
use crate::control::{
    capture_arguments, capture_program, PhysicalGraphRecord, PreparedTriadPhysicalGraphLaunch,
    PreparedTriadPhysicalGraphSequence,
};
use crate::digest;
use crate::digest::Sha256Digest;
use crate::error::LaunchError;
use crate::f32_prepare::map_origins;
use crate::identity::{PolicyDtype, ResolvedGemmRoute};
use crate::kernel;
use crate::kernel::{KernelArg, KernelLaunch, LaunchConfig, LaunchStep, TensorMap};
use crate::params::{SgbZeroReductionParams, Sm80Tf32KernelParams};
use crate::scalar_dw;
use crate::scalar_dw::gemm_bi_backward_dw_with_control;
use crate::scalar_dx;
use crate::scalar_dx::gemm_bi_backward_dx_with_control;
use crate::scalar_forward;
use crate::scalar_forward::{gemm_bi_forward_sub_with_control, GemmBiFwdSubOperands};
use crate::scalar_launch::{PreparedScalar, ScalarWorkspace};
use crate::scalar_laws;
use crate::scalar_plan::ScalarDispatchPlan;
use crate::scalar_routes::scalar_zero_symbol;
use crate::shape::{F32TriadOperands, F32TriadRequest, GemmDims, ResolvedGemmOp};
use crate::tf32_plan::{
    Sm120FmaFacts, Tf32PhysicalRoute, Tf32SplitKLaunchPlan, Tf32StreamKLaunchPlan,
};
use crate::tf32_routes;
use crate::tf32_routes::{tf32_params, PreparedTf32Params, Tf32TensorOrigins};
use vstd::prelude::*;

verus! {

/// The encoded tensor maps of a product and what they are recorded under.
#[derive(Clone, Copy, Debug, PartialEq, Eq)]
pub struct TensorMapPair {
    pub a: TensorMap,
    pub b: TensorMap,
    pub origins: Tf32TensorOrigins,
    pub identity: Sha256Digest,
    pub physical_identity: Sha256Digest,
}

/// The slab and flag buffers of a folding launch. They are shared by the
/// prepared launches of one ordered stream.
#[derive(Clone, Copy, Debug, PartialEq, Eq, Structural)]
pub struct Tf32StreamKWorkspace {
    pub partial: u64,
    pub flags: u64,
}

/// The scratch and counter buffers of a split-K launch. They are shared by
/// the prepared launches of one ordered stream.
#[derive(Clone, Copy, Debug, PartialEq, Eq, Structural)]
pub struct Tf32SplitKWorkspace {
    pub partial: u64,
    pub counters: u64,
}

/// What was prepared for an f32 product.
#[allow(inconsistent_fields)]
#[derive(Clone, Copy, Debug, PartialEq, Eq)]
pub enum PreparedF32Kind {
    Scalar(ScalarDispatchPlan),
    ScalarZero { params: SgbZeroReductionParams, config: LaunchConfig },
    Tf32 {
        route: Tf32PhysicalRoute,
        maps: Option<TensorMapPair>,
        params: PreparedTf32Params,
        config: LaunchConfig,
    },
    Tf32SplitK {
        route: Tf32PhysicalRoute,
        params: Sm80Tf32KernelParams,
        plan: Tf32SplitKLaunchPlan,
        workspace: Tf32SplitKWorkspace,
    },
    Tf32StreamK {
        route: Tf32PhysicalRoute,
        maps: TensorMapPair,
        params: PreparedTf32Params,
        config: LaunchConfig,
        plan: Tf32StreamKLaunchPlan,
        workspace: Tf32StreamKWorkspace,
    },
}

/// A prepared f32 product: where it was prepared, on what, and the routes
/// that it is recorded under.
pub struct PreparedF32TriadLaunch {
    pub context_token: u64,
    pub stream_token: u64,
    pub request: F32TriadRequest,
    pub operands: F32TriadOperands,
    pub physical_resources: Sha256Digest,
    pub routes: Vec<ResolvedGemmRoute>,
    pub kind: PreparedF32Kind,
}

impl PreparedF32TriadLaunch {
    /// A launch that takes its symbol from its first route has one.
    pub open spec fn wf(self) -> bool {
        match self.kind {
            PreparedF32Kind::Scalar(_) | PreparedF32Kind::Tf32SplitK { .. } => true,
            _ => self.routes@.len() > 0,
        }
    }

    /// A scalar launch has a plan for an operation.
    pub open spec fn serves(self, op: ResolvedGemmOp) -> bool {
        match self.kind {
            PreparedF32Kind::Scalar(plan) => plan.op() == op,
            _ => true,
        }
    }

    /// The product.
    pub fn physical_graph_request(&self) -> (request: F32TriadRequest)
        ensures
            request == self.request,
    {
        self.request
    }

    /// The operands that were frozen.
    pub fn physical_graph_operands(&self) -> (operands: F32TriadOperands)
        ensures
            operands == self.operands,
    {
        self.operands
    }

    /// Whether a graph replays the launch from its prepared arguments alone.
    pub fn physical_graph_is_direct(&self) -> (direct: bool)
        ensures
            direct == !(self.kind is Scalar),
    {
        match self.kind {
            PreparedF32Kind::Scalar(_) => false,
            _ => true,
        }
    }

    /// How many kernels are launched.
    pub fn physical_graph_launch_count(&self) -> (count: usize)
        ensures
            count == self.routes@.len(),
    {
        self.routes.len()
    }
}

/// The bias argument: a product without a bias passes null.
#[verifier::allow_in_spec]
pub fn bias_argument(operands: F32TriadOperands) -> u64
    returns
        (match operands.bias {
            Some(bias) => bias,
            None => 0u64,
        }),
{
    match operands.bias {
        Some(bias) => bias,
        None => 0,
    }
}

/// One route as it physically runs: on these allocations and these maps.
/// The argument digest stays the semantic one.
pub open spec fn physical_route(
    prepared: PreparedF32TriadLaunch,
    route: ResolvedGemmRoute,
) -> ResolvedGemmRoute {
    ResolvedGemmRoute {
        resources_digest: prepared.physical_resources,
        tensor_maps_digest: match prepared.kind {
            PreparedF32Kind::Tf32 { maps: Some(maps), .. } => maps.physical_identity,
            PreparedF32Kind::Tf32 { maps: None, .. } => digest::zero_digest(),
            _ => route.tensor_maps_digest,
        },
        ..route
    }
}

/// Projects a route onto the allocations and maps that it runs on.
pub fn physical_prepared_f32_route(
    prepared: &PreparedF32TriadLaunch,
    route: ResolvedGemmRoute,
) -> (physical: ResolvedGemmRoute)
    ensures
        physical == physical_route(*prepared, route),
        physical.launch == route.launch,
{
    let mut physical = route;
    physical.resources_digest = prepared.physical_resources;
    match &prepared.kind {
        PreparedF32Kind::Tf32 { maps, .. } => {
            physical.tensor_maps_digest = match maps {
                Some(maps) => maps.physical_identity,
                None => digest::no_digest(),
            };
        },
        _ => {},
    }
    physical
}

/// The argument that carries a parameter block.
#[verifier::allow_in_spec]
pub fn params_argument(params: PreparedTf32Params) -> KernelArg
    returns
        (match params {
            PreparedTf32Params::Sm80(block) => KernelArg::Sm80(block),
            PreparedTf32Params::Sm90a(block) => KernelArg::Sm90a(block),
            PreparedTf32Params::Sm100(block) => KernelArg::Sm100(block),
            PreparedTf32Params::Sm120(block) => KernelArg::Sm120(block),
            PreparedTf32Params::Sm120Fma(block) => KernelArg::Sm120Fma(block),
        }),
{
    match params {
        PreparedTf32Params::Sm80(block) => KernelArg::Sm80(block),
        PreparedTf32Params::Sm90a(block) => KernelArg::Sm90a(block),
        PreparedTf32Params::Sm100(block) => KernelArg::Sm100(block),
        PreparedTf32Params::Sm120(block) => KernelArg::Sm120(block),
        PreparedTf32Params::Sm120Fma(block) => KernelArg::Sm120Fma(block),
    }
}

/// A route and a parameter block belong to the same kernels.
#[verifier::allow_in_spec]
pub fn params_match_route(route: Tf32PhysicalRoute, params: PreparedTf32Params) -> bool
    returns
        (match (route, params) {
            (Tf32PhysicalRoute::MmaTf32RnaV1(_), PreparedTf32Params::Sm80(_)) => true,
            (Tf32PhysicalRoute::Sm90aWgmmaTf32TmaV1(_), PreparedTf32Params::Sm90a(_)) => true,
            (Tf32PhysicalRoute::Sm100Tcgen05Tf32TmaV1(_), PreparedTf32Params::Sm100(_)) => true,
            (Tf32PhysicalRoute::Sm120TmaMmaTf32RnaV1(_), PreparedTf32Params::Sm120(_)) => true,
            (Tf32PhysicalRoute::Sm120TmaMmaTf32RnaStreamKV1(_), PreparedTf32Params::Sm120(_)) =>
                true,
            (Tf32PhysicalRoute::Sm120TmaFmaExactV1(_), PreparedTf32Params::Sm120Fma(_)) => true,
            _ => false,
        }),
{
    match (route, params) {
        (Tf32PhysicalRoute::MmaTf32RnaV1(_), PreparedTf32Params::Sm80(_)) => true,
        (Tf32PhysicalRoute::Sm90aWgmmaTf32TmaV1(_), PreparedTf32Params::Sm90a(_)) => true,
        (Tf32PhysicalRoute::Sm100Tcgen05Tf32TmaV1(_), PreparedTf32Params::Sm100(_)) => true,
        (Tf32PhysicalRoute::Sm120TmaMmaTf32RnaV1(_), PreparedTf32Params::Sm120(_)) => true,
        (Tf32PhysicalRoute::Sm120TmaMmaTf32RnaStreamKV1(_), PreparedTf32Params::Sm120(_)) => true,
        (Tf32PhysicalRoute::Sm120TmaFmaExactV1(_), PreparedTf32Params::Sm120Fma(_)) => true,
        _ => false,
    }
}

/// The parts of a TF32 launch.
#[derive(Clone, Copy, Debug, PartialEq, Eq)]
pub struct Tf32RawLaunch {
    pub operands: F32TriadOperands,
    pub route: Tf32PhysicalRoute,
    pub maps: Option<TensorMapPair>,
    pub params: PreparedTf32Params,
    pub config: LaunchConfig,
    pub zero_reduction: bool,
    pub symbol: &'static str,
    pub streamk: Option<Tf32StreamKWorkspace>,
}

/// The arguments of a kernel that reads its inputs by pointer. An empty
/// reduction passes null inputs.
pub open spec fn pointer_args(
    operands: F32TriadOperands,
    zero_reduction: bool,
    params: PreparedTf32Params,
) -> Seq<KernelArg> {
    seq![
        KernelArg::Pointer(operands.output),
        KernelArg::Pointer(
            if zero_reduction {
                0
            } else {
                operands.a
            },
        ),
        KernelArg::Pointer(
            if zero_reduction {
                0
            } else {
                operands.b
            },
        ),
        KernelArg::Pointer(bias_argument(operands)),
        params_argument(params),
    ]
}

/// The arguments of a kernel that reads its inputs through tensor maps.
pub open spec fn mapped_args(
    operands: F32TriadOperands,
    maps: TensorMapPair,
    params: PreparedTf32Params,
) -> Seq<KernelArg> {
    seq![
        KernelArg::Pointer(operands.output),
        KernelArg::TensorMap(maps.a),
        KernelArg::TensorMap(maps.b),
        KernelArg::Pointer(bias_argument(operands)),
        params_argument(params),
    ]
}

/// The arguments of a folding kernel: its workspace comes ahead of the
/// tensor maps.
pub open spec fn folding_args(
    operands: F32TriadOperands,
    workspace: Tf32StreamKWorkspace,
    maps: TensorMapPair,
    params: PreparedTf32Params,
) -> Seq<KernelArg> {
    seq![
        KernelArg::Pointer(operands.output),
        KernelArg::Pointer(workspace.partial),
        KernelArg::Pointer(workspace.flags),
        KernelArg::TensorMap(maps.a),
        KernelArg::TensorMap(maps.b),
        KernelArg::Pointer(bias_argument(operands)),
        params_argument(params),
    ]
}

/// Why a folding launch may not run without a workspace: it may only where
/// nothing is ever folded, in a single CTA or with a single split.
pub open spec fn workspace_fault(launch: Tf32RawLaunch) -> Option<LaunchError> {
    match launch.route {
        Tf32PhysicalRoute::Sm120TmaMmaTf32RnaStreamKV1(_) => if launch.streamk is None
            && launch.config.grid_dim != (1u32, 1u32, 1u32) {
            Some(
                LaunchError::Rejected(
                    "SM120 TF32 stream-K launch without a workspace must be one CTA",
                ),
            )
        } else {
            None
        },
        Tf32PhysicalRoute::Sm120TmaFmaExactV1(exact) => if launch.streamk is None && exact.splits
            != 1 {
            Some(LaunchError::Rejected("exact-F32 SM120 split launch requires a workspace"))
        } else {
            None
        },
        _ => None,
    }
}

/// The workspace of a launch that folds nothing.
#[verifier::allow_in_spec]
pub fn workspace_or_null(streamk: Option<Tf32StreamKWorkspace>) -> Tf32StreamKWorkspace
    returns
        (match streamk {
            Some(workspace) => workspace,
            None => Tf32StreamKWorkspace { partial: 0, flags: 0 },
        }),
{
    match streamk {
        Some(workspace) => workspace,
        None => Tf32StreamKWorkspace { partial: 0, flags: 0 },
    }
}

/// The arguments of a TF32 launch.
pub open spec fn raw_args(launch: Tf32RawLaunch) -> Result<Seq<KernelArg>, LaunchError> {
    if !params_match_route(launch.route, launch.params) {
        Err(LaunchError::Rejected("prepared TF32 route and parameter ABI disagree"))
    } else {
        match launch.route {
            Tf32PhysicalRoute::MmaTf32RnaV1(_) => Ok(
                pointer_args(launch.operands, launch.zero_reduction, launch.params),
            ),
            Tf32PhysicalRoute::Sm90aWgmmaTf32TmaV1(_) => match launch.maps {
                None => Err(LaunchError::Rejected("SM90a TF32 launch has no tensor maps")),
                Some(maps) => Ok(mapped_args(launch.operands, maps, launch.params)),
            },
            Tf32PhysicalRoute::Sm100Tcgen05Tf32TmaV1(_) => match launch.maps {
                None => Err(LaunchError::Rejected("SM100 TF32 launch has no tensor maps")),
                Some(maps) => Ok(mapped_args(launch.operands, maps, launch.params)),
            },
            _ => match launch.maps {
                None => Err(LaunchError::Rejected("SM120 TF32 launch has no tensor maps")),
                Some(maps) => match workspace_fault(launch) {
                    Some(error) => Err(error),
                    None => if launch.route is Sm120TmaMmaTf32RnaV1 {
                        Ok(mapped_args(launch.operands, maps, launch.params))
                    } else {
                        Ok(
                            folding_args(
                                launch.operands,
                                workspace_or_null(launch.streamk),
                                maps,
                                launch.params,
                            ),
                        )
                    },
                },
            },
        }
    }
}

/// The step of a TF32 launch.
pub open spec fn raw_step(launch: Tf32RawLaunch) -> Result<LaunchStep, LaunchError> {
    match raw_args(launch) {
        Err(error) => Err(error),
        Ok(args) => Ok(LaunchStep { symbol: launch.symbol, config: launch.config, args }),
    }
}

fn build_mapped_args(
    operands: F32TriadOperands,
    maps: &TensorMapPair,
    params: PreparedTf32Params,
) -> (args: Vec<KernelArg>)
    ensures
        args@ == mapped_args(operands, *maps, params),
{
    let args = vec![
        KernelArg::Pointer(operands.output),
        KernelArg::TensorMap(maps.a),
        KernelArg::TensorMap(maps.b),
        KernelArg::Pointer(bias_argument(operands)),
        params_argument(params),
    ];
    assert(args@ =~= mapped_args(operands, *maps, params));
    args
}

fn build_pointer_args(
    operands: F32TriadOperands,
    zero_reduction: bool,
    params: PreparedTf32Params,
) -> (args: Vec<KernelArg>)
    ensures
        args@ == pointer_args(operands, zero_reduction, params),
{
    let a: u64 = if zero_reduction {
        0
    } else {
        operands.a
    };
    let b: u64 = if zero_reduction {
        0
    } else {
        operands.b
    };
    let args = vec![
        KernelArg::Pointer(operands.output),
        KernelArg::Pointer(a),
        KernelArg::Pointer(b),
        KernelArg::Pointer(bias_argument(operands)),
        params_argument(params),
    ];
    assert(args@ =~= pointer_args(operands, zero_reduction, params));
    args
}

fn build_folding_args(
    operands: F32TriadOperands,
    workspace: Tf32StreamKWorkspace,
    maps: &TensorMapPair,
    params: PreparedTf32Params,
) -> (args: Vec<KernelArg>)
    ensures
        args@ == folding_args(operands, workspace, *maps, params),
{
    let args = vec![
        KernelArg::Pointer(operands.output),
        KernelArg::Pointer(workspace.partial),
        KernelArg::Pointer(workspace.flags),
        KernelArg::TensorMap(maps.a),
        KernelArg::TensorMap(maps.b),
        KernelArg::Pointer(bias_argument(operands)),
        params_argument(params),
    ];
    assert(args@ =~= folding_args(operands, workspace, *maps, params));
    args
}

/// Builds a TF32 launch.
pub fn tf32_raw_launch(launch: &Tf32RawLaunch) -> (result: Result<KernelLaunch, LaunchError>)
    ensures
        kernel::step_of(result) == raw_step(*launch),
{
    if !params_match_route(launch.route, launch.params) {
        return Err(LaunchError::Rejected("prepared TF32 route and parameter ABI disagree"));
    }
    let args = match launch.route {
        Tf32PhysicalRoute::MmaTf32RnaV1(_) => build_pointer_args(
            launch.operands,
            launch.zero_reduction,
            launch.params,
        ),
        Tf32PhysicalRoute::Sm90aWgmmaTf32TmaV1(_) => match &launch.maps {
            None => {
                return Err(LaunchError::Rejected("SM90a TF32 launch has no tensor maps"));
            },
            Some(maps) => build_mapped_args(launch.operands, maps, launch.params),
        },
        Tf32PhysicalRoute::Sm100Tcgen05Tf32TmaV1(_) => match &launch.maps {
            None => {
                return Err(LaunchError::Rejected("SM100 TF32 launch has no tensor maps"));
            },
            Some(maps) => build_mapped_args(launch.operands, maps, launch.params),
        },
        _ => match &launch.maps {
            None => {
                return Err(LaunchError::Rejected("SM120 TF32 launch has no tensor maps"));
            },
            Some(maps) => {
                let folds = match launch.route {
                    Tf32PhysicalRoute::Sm120TmaMmaTf32RnaStreamKV1(_) => {
                        if launch.streamk.is_none() && !(launch.config.grid_dim.0 == 1
                            && launch.config.grid_dim.1 == 1 && launch.config.grid_dim.2 == 1) {
                            return Err(
                                LaunchError::Rejected(
                                    "SM120 TF32 stream-K launch without a workspace must be one CTA",
                                ),
                            );
                        }
                        true
                    },
                    Tf32PhysicalRoute::Sm120TmaFmaExactV1(exact) => {
                        if launch.streamk.is_none() && exact.splits != 1 {
                            return Err(
                                LaunchError::Rejected(
                                    "exact-F32 SM120 split launch requires a workspace",
                                ),
                            );
                        }
                        true
                    },
                    _ => false,
                };
                if folds {
                    build_folding_args(
                        launch.operands,
                        workspace_or_null(launch.streamk),
                        maps,
                        launch.params,
                    )
                } else {
                    build_mapped_args(launch.operands, maps, launch.params)
                }
            },
        },
    };
    Ok(KernelLaunch { symbol: launch.symbol, config: launch.config, args })
}

/// The step of a TF32 kernel on a product that nothing was prepared for.
pub open spec fn probe_step(
    request: F32TriadRequest,
    operands: F32TriadOperands,
    route: Tf32PhysicalRoute,
    maps: Option<TensorMapPair>,
    config: LaunchConfig,
    symbol: Result<&'static str, LaunchError>,
    facts: Sm120FmaFacts,
) -> Result<LaunchStep, LaunchError> {
    match symbol {
        Err(error) => Err(error),
        Ok(symbol) => match tf32_routes::route_params(
            request,
            operands,
            map_origins(maps),
            route,
            facts,
        ) {
            Err(error) => Err(error),
            Ok(params) => raw_step(
                Tf32RawLaunch {
                    operands,
                    route,
                    maps,
                    params,
                    config,
                    zero_reduction: request.shape.reduction(request.op) == 0,
                    symbol,
                    streamk: None,
                },
            ),
        },
    }
}

/// Builds the launch that qualifies a TF32 kernel while its module is
/// initialised. `symbol` is the kernel that serves the product on the route.
pub fn tf32_qualification_probe(
    request: F32TriadRequest,
    operands: F32TriadOperands,
    route: Tf32PhysicalRoute,
    maps: Option<TensorMapPair>,
    config: LaunchConfig,
    symbol: Result<&'static str, LaunchError>,
    facts: Sm120FmaFacts,
) -> (result: Result<KernelLaunch, LaunchError>)
    requires
        facts.bk > 0,
        route.exact_fma() matches Some(exact) ==> facts.qualified is Ok ==> exact.splits > 0,
    ensures
        kernel::step_of(result) == probe_step(
            request,
            operands,
            route,
            maps,
            config,
            symbol,
            facts,
        ),
{
    let symbol = symbol?;
    let params = tf32_params(request, operands, map_origins(maps), route, facts)?;
    tf32_raw_launch(
        &Tf32RawLaunch {
            operands,
            route,
            maps,
            params,
            config,
            zero_reduction: request.shape.reduction(request.op) == 0,
            symbol,
            streamk: None,
        },
    )
}

/// A probe without a workspace folds nothing: it is one block of a folding
/// kernel, or an exact product in one split.
pub proof fn probes_fold_nothing(
    request: F32TriadRequest,
    operands: F32TriadOperands,
    route: Tf32PhysicalRoute,
    maps: Option<TensorMapPair>,
    config: LaunchConfig,
    symbol: Result<&'static str, LaunchError>,
    facts: Sm120FmaFacts,
)
    requires
        probe_step(request, operands, route, maps, config, symbol, facts) is Ok,
    ensures
        route is Sm120TmaMmaTf32RnaStreamKV1 ==> config.grid_dim == (1u32, 1u32, 1u32),
        route.exact_fma() matches Some(exact) ==> exact.splits == 1,
{
}

/// The arguments of an empty reduction: null inputs.
pub open spec fn zero_args(
    operands: F32TriadOperands,
    params: SgbZeroReductionParams,
) -> Seq<KernelArg> {
    seq![
        KernelArg::Pointer(operands.output),
        KernelArg::Pointer(0),
        KernelArg::Pointer(0),
        KernelArg::Pointer(bias_argument(operands)),
        KernelArg::ZeroReduction(params),
    ]
}

fn build_zero_args(operands: F32TriadOperands, params: SgbZeroReductionParams) -> (args: Vec<
    KernelArg,
>)
    ensures
        args@ == zero_args(operands, params),
{
    let args = vec![
        KernelArg::Pointer(operands.output),
        KernelArg::Pointer(0),
        KernelArg::Pointer(0),
        KernelArg::Pointer(bias_argument(operands)),
        KernelArg::ZeroReduction(params),
    ];
    assert(args@ =~= zero_args(operands, params));
    args
}

/// The arguments of a fused split-K launch.
pub open spec fn splitk_args(
    operands: F32TriadOperands,
    workspace: Tf32SplitKWorkspace,
    params: Sm80Tf32KernelParams,
) -> Seq<KernelArg> {
    seq![
        KernelArg::Pointer(operands.output),
        KernelArg::Pointer(workspace.partial),
        KernelArg::Pointer(workspace.counters),
        KernelArg::Pointer(operands.a),
        KernelArg::Pointer(operands.b),
        KernelArg::Pointer(bias_argument(operands)),
        KernelArg::Sm80(params),
    ]
}

fn build_splitk_args(
    operands: F32TriadOperands,
    workspace: Tf32SplitKWorkspace,
    params: Sm80Tf32KernelParams,
) -> (args: Vec<KernelArg>)
    ensures
        args@ == splitk_args(operands, workspace, params),
{
    let args = vec![
        KernelArg::Pointer(operands.output),
        KernelArg::Pointer(workspace.partial),
        KernelArg::Pointer(workspace.counters),
        KernelArg::Pointer(operands.a),
        KernelArg::Pointer(operands.b),
        KernelArg::Pointer(bias_argument(operands)),
        KernelArg::Sm80(params),
    ];
    assert(args@ =~= splitk_args(operands, workspace, params));
    args
}

/// The parts of a prepared tiled or folding TF32 launch.
pub open spec fn kernel_parts(prepared: PreparedF32TriadLaunch) -> Result<
    Tf32RawLaunch,
    LaunchError,
> {
    match prepared.kind {
        PreparedF32Kind::Tf32 { route, maps, params, config } => Ok(
            Tf32RawLaunch {
                operands: prepared.operands,
                route,
                maps,
                params,
                config,
                zero_reduction: prepared.request.shape.reduction(prepared.request.op) == 0,
                symbol: prepared.routes@[0].symbol,
                streamk: None,
            },
        ),
        PreparedF32Kind::Tf32StreamK { route, maps, params, config, workspace, .. } => Ok(
            Tf32RawLaunch {
                operands: prepared.operands,
                route,
                maps: Some(maps),
                params,
                config,
                zero_reduction: false,
                symbol: prepared.routes@[0].symbol,
                streamk: Some(workspace),
            },
        ),
        _ => Err(LaunchError::Rejected("prepared launch is not a TF32 kernel launch")),
    }
}

/// Takes a prepared tiled or folding TF32 launch apart.
pub fn tf32_prepared_kernel_parts(prepared: &PreparedF32TriadLaunch) -> (result: Result<
    Tf32RawLaunch,
    LaunchError,
>)
    requires
        prepared.wf(),
    ensures
        result == kernel_parts(*prepared),
{
    match prepared.kind {
        PreparedF32Kind::Tf32 { route, maps, params, config } => Ok(
            Tf32RawLaunch {
                operands: prepared.operands,
                route,
                maps,
                params,
                config,
                zero_reduction: prepared.request.shape.reduction(prepared.request.op) == 0,
                symbol: prepared.routes[0].symbol,
                streamk: None,
            },
        ),
        PreparedF32Kind::Tf32StreamK { route, maps, params, config, workspace, .. } => Ok(
            Tf32RawLaunch {
                operands: prepared.operands,
                route,
                maps: Some(maps),
                params,
                config,
                zero_reduction: false,
                symbol: prepared.routes[0].symbol,
                streamk: Some(workspace),
            },
        ),
        _ => Err(LaunchError::Rejected("prepared launch is not a TF32 kernel launch")),
    }
}

/// What the refusal of a TF32 kernel that is not loaded calls it.
pub const TF32_SYMBOL: &'static str = "qualified TF32 symbol";

/// What the refusal of a split-K kernel that is not loaded calls it.
pub const TF32_SPLITK_SYMBOL: &'static str = "qualified fused TF32 split-K symbol";

/// The kernel that a prepared launch enqueues. Scalar launches run their
/// launch program instead. `loaded` says whether the TF32 kernel of the
/// launch is loaded.
pub open spec fn prepared_step(prepared: PreparedF32TriadLaunch, loaded: bool) -> Result<
    LaunchStep,
    LaunchError,
> {
    match prepared.kind {
        PreparedF32Kind::Scalar(_) => Err(
            LaunchError::Rejected("prepared scalar F32 launch requires its launch program"),
        ),
        PreparedF32Kind::ScalarZero { params, config } => Ok(
            LaunchStep {
                symbol: scalar_zero_symbol(prepared.request.op),
                config,
                args: zero_args(prepared.operands, params),
            },
        ),
        PreparedF32Kind::Tf32SplitK { params, plan, workspace, .. } => if prepared.routes@.len()
            != 1 {
            Err(
                LaunchError::Rejected(
                    "prepared fused TF32 split-K launch requires exactly one route",
                ),
            )
        } else if !loaded {
            Err(LaunchError::Unavailable(TF32_SPLITK_SYMBOL, prepared.routes@[0].symbol))
        } else {
            Ok(
                LaunchStep {
                    symbol: prepared.routes@[0].symbol,
                    config: plan.fused,
                    args: splitk_args(prepared.operands, workspace, params),
                },
            )
        },
        _ => match kernel_parts(prepared) {
            Err(error) => Err(error),
            Ok(parts) => if loaded {
                raw_step(parts)
            } else {
                Err(LaunchError::Unavailable(TF32_SYMBOL, parts.symbol))
            },
        },
    }
}

/// Builds the kernel that a prepared launch enqueues. A TF32 launch whose
/// kernel is not `loaded` is refused.
pub fn prepared_f32_launch(prepared: &PreparedF32TriadLaunch, loaded: bool) -> (result: Result<
    KernelLaunch,
    LaunchError,
>)
    requires
        prepared.wf(),
    ensures
        kernel::step_of(result) == prepared_step(*prepared, loaded),
{
    match prepared.kind {
        PreparedF32Kind::Scalar(_) => Err(
            LaunchError::Rejected("prepared scalar F32 launch requires its launch program"),
        ),
        PreparedF32Kind::ScalarZero { params, config } => Ok(
            KernelLaunch {
                symbol: scalar_zero_symbol(prepared.request.op),
                config,
                args: build_zero_args(prepared.operands, params),
            },
        ),
        PreparedF32Kind::Tf32SplitK { params, plan, workspace, .. } => {
            if prepared.routes.len() != 1 {
                return Err(
                    LaunchError::Rejected(
                        "prepared fused TF32 split-K launch requires exactly one route",
                    ),
                );
            }
            if !loaded {
                return Err(
                    LaunchError::Unavailable(TF32_SPLITK_SYMBOL, prepared.routes[0].symbol),
                );
            }
            Ok(
                KernelLaunch {
                    symbol: prepared.routes[0].symbol,
                    config: plan.fused,
                    args: build_splitk_args(prepared.operands, workspace, params),
                },
            )
        },
        _ => {
            let parts = tf32_prepared_kernel_parts(prepared)?;
            if !loaded {
                return Err(LaunchError::Unavailable(TF32_SYMBOL, parts.symbol));
            }
            tf32_raw_launch(&parts)
        },
    }
}

/// The arguments of the graph node of a tiled TF32 launch.
pub open spec fn tiled_graph_args(
    prepared: PreparedF32TriadLaunch,
    route: Tf32PhysicalRoute,
    maps: Option<TensorMapPair>,
    params: PreparedTf32Params,
) -> Result<Seq<KernelArg>, LaunchError> {
    let missing = |text: &'static str|
        Err::<Seq<KernelArg>, LaunchError>(LaunchError::Rejected(text));
    match (route, params) {
        (Tf32PhysicalRoute::MmaTf32RnaV1(_), PreparedTf32Params::Sm80(_)) => Ok(
            pointer_args(
                prepared.operands,
                prepared.request.shape.reduction(prepared.request.op) == 0,
                params,
            ),
        ),
        (Tf32PhysicalRoute::Sm90aWgmmaTf32TmaV1(_), PreparedTf32Params::Sm90a(_)) => match maps {
            None => missing("SM90a TF32 graph sequence has no tensor maps"),
            Some(maps) => Ok(mapped_args(prepared.operands, maps, params)),
        },
        (Tf32PhysicalRoute::Sm100Tcgen05Tf32TmaV1(_), PreparedTf32Params::Sm100(_)) => match maps {
            None => missing("SM100 TF32 graph sequence has no tensor maps"),
            Some(maps) => Ok(mapped_args(prepared.operands, maps, params)),
        },
        (Tf32PhysicalRoute::Sm120TmaMmaTf32RnaV1(_), PreparedTf32Params::Sm120(_)) => match maps {
            None => missing("SM120 TF32 graph sequence has no tensor maps"),
            Some(maps) => Ok(mapped_args(prepared.operands, maps, params)),
        },
        _ => missing("prepared TF32 graph route and parameter ABI disagree"),
    }
}

/// The arguments of the graph node of a prepared launch.
pub open spec fn direct_graph_args(prepared: PreparedF32TriadLaunch) -> Result<
    Seq<KernelArg>,
    LaunchError,
> {
    match prepared.kind {
        PreparedF32Kind::Scalar(_) => Err(
            LaunchError::Rejected(
                "prepared scalar F32 graph sequence requires its operation-level producer",
            ),
        ),
        PreparedF32Kind::ScalarZero { params, .. } => Ok(zero_args(prepared.operands, params)),
        PreparedF32Kind::Tf32 { route, maps, params, .. } => tiled_graph_args(
            prepared,
            route,
            maps,
            params,
        ),
        PreparedF32Kind::Tf32SplitK { params, workspace, .. } => Ok(
            splitk_args(prepared.operands, workspace, params),
        ),
        PreparedF32Kind::Tf32StreamK { maps, params, workspace, .. } => if params is Sm120
            || params is Sm120Fma {
            Ok(folding_args(prepared.operands, workspace, maps, params))
        } else {
            Err(LaunchError::Rejected("prepared TF32 stream-K route and parameter ABI disagree"))
        },
    }
}

/// Why a prepared launch has no graph node, before its arguments are
/// looked at.
pub open spec fn direct_graph_fault(
    prepared: PreparedF32TriadLaunch,
    validation: Result<(), LaunchError>,
) -> Option<LaunchError> {
    match (validation, prepared.kind) {
        (Err(error), _) => Some(error),
        (Ok(_), PreparedF32Kind::Tf32SplitK { plan, .. }) => if prepared.routes@.len() != 1 {
            Some(
                LaunchError::Rejected(
                    "prepared fused TF32 split-K graph sequence requires one route",
                ),
            )
        } else if prepared.routes@[0].launch.config() != plan.fused {
            Some(
                LaunchError::Rejected(
                    "prepared fused TF32 split-K graph launch configuration changed",
                ),
            )
        } else {
            None
        },
        (Ok(_), _) => if prepared.routes@.len() != 1 {
            Some(
                LaunchError::Rejected(
                    "prepared direct F32 graph sequence requires exactly one route",
                ),
            )
        } else {
            None
        },
    }
}

fn build_tiled_graph_args(
    prepared: &PreparedF32TriadLaunch,
    route: Tf32PhysicalRoute,
    maps: &Option<TensorMapPair>,
    params: PreparedTf32Params,
) -> (result: Result<Vec<KernelArg>, LaunchError>)
    ensures
        match (result, tiled_graph_args(*prepared, route, *maps, params)) {
            (Ok(args), Ok(expected)) => args@ == expected,
            (Err(error), Err(expected)) => error == expected,
            _ => false,
        },
{
    let missing: &'static str = match (route, params) {
        (Tf32PhysicalRoute::MmaTf32RnaV1(_), PreparedTf32Params::Sm80(_)) => {
            return Ok(
                build_pointer_args(
                    prepared.operands,
                    prepared.request.shape.reduction(prepared.request.op) == 0,
                    params,
                ),
            );
        },
        (Tf32PhysicalRoute::Sm90aWgmmaTf32TmaV1(_), PreparedTf32Params::Sm90a(_)) =>
            "SM90a TF32 graph sequence has no tensor maps",
        (Tf32PhysicalRoute::Sm100Tcgen05Tf32TmaV1(_), PreparedTf32Params::Sm100(_)) =>
            "SM100 TF32 graph sequence has no tensor maps",
        (Tf32PhysicalRoute::Sm120TmaMmaTf32RnaV1(_), PreparedTf32Params::Sm120(_)) =>
            "SM120 TF32 graph sequence has no tensor maps",
        _ => {
            return Err(
                LaunchError::Rejected("prepared TF32 graph route and parameter ABI disagree"),
            );
        },
    };
    match maps {
        Some(maps) => Ok(build_mapped_args(prepared.operands, maps, params)),
        None => Err(LaunchError::Rejected(missing)),
    }
}

fn build_direct_graph_args(prepared: &PreparedF32TriadLaunch) -> (result: Result<
    Vec<KernelArg>,
    LaunchError,
>)
    ensures
        match (result, direct_graph_args(*prepared)) {
            (Ok(args), Ok(expected)) => args@ == expected,
            (Err(error), Err(expected)) => error == expected,
            _ => false,
        },
{
    match &prepared.kind {
        PreparedF32Kind::Scalar(_) => Err(
            LaunchError::Rejected(
                "prepared scalar F32 graph sequence requires its operation-level producer",
            ),
        ),
        PreparedF32Kind::ScalarZero { params, .. } => Ok(
            build_zero_args(prepared.operands, *params),
        ),
        PreparedF32Kind::Tf32 { route, maps, params, .. } => build_tiled_graph_args(
            prepared,
            *route,
            maps,
            *params,
        ),
        PreparedF32Kind::Tf32SplitK { params, workspace, .. } => Ok(
            build_splitk_args(prepared.operands, *workspace, *params),
        ),
        PreparedF32Kind::Tf32StreamK { maps, params, workspace, .. } => match *params {
            PreparedTf32Params::Sm120(_) | PreparedTf32Params::Sm120Fma(_) => Ok(
                build_folding_args(prepared.operands, *workspace, maps, *params),
            ),
            _ => Err(
                LaunchError::Rejected("prepared TF32 stream-K route and parameter ABI disagree"),
            ),
        },
    }
}

/// The kernel of a prepared launch that is not scalar.
pub open spec fn direct_graph_symbol(prepared: PreparedF32TriadLaunch) -> &'static str {
    match prepared.kind {
        PreparedF32Kind::ScalarZero { .. } => scalar_zero_symbol(prepared.request.op),
        _ => prepared.routes@[0].symbol,
    }
}

/// What the graph node of a prepared launch is.
pub open spec fn direct_graph_node(
    prepared: PreparedF32TriadLaunch,
    args: Seq<KernelArg>,
    node: PreparedTriadPhysicalGraphLaunch,
) -> bool {
    &&& node.symbol == direct_graph_symbol(prepared)
    &&& node.config == prepared.routes@[0].launch.config()
    &&& node.record == (PhysicalGraphRecord {
        logical_dtype: PolicyDtype::F32,
        physical_resources: None,
        route: physical_route(prepared, prepared.routes@[0]),
    })
    &&& node.arguments.arguments() == control::captured_bytes(args)
}

/// Why the kernel of a prepared launch has no node in a graph: it is a TF32
/// kernel that is not loaded.
pub open spec fn missing_kernel(prepared: PreparedF32TriadLaunch, loaded: bool) -> Option<
    LaunchError,
> {
    if loaded {
        None
    } else {
        match prepared.kind {
            PreparedF32Kind::Scalar(_) | PreparedF32Kind::ScalarZero { .. } => None,
            PreparedF32Kind::Tf32SplitK { .. } => Some(
                LaunchError::Unavailable(TF32_SPLITK_SYMBOL, prepared.routes@[0].symbol),
            ),
            _ => Some(LaunchError::Unavailable(TF32_SYMBOL, prepared.routes@[0].symbol)),
        }
    }
}

/// Prepares the graph node of a prepared launch. `validation` says whether
/// the launch is still valid on its device, `loaded` whether its TF32 kernel
/// is loaded.
pub fn prepare_prepared_f32_direct_graph_sequence(
    prepared: &PreparedF32TriadLaunch,
    validation: Result<(), LaunchError>,
    loaded: bool,
) -> (result: Result<PreparedTriadPhysicalGraphSequence, LaunchError>)
    ensures
        match (
            direct_graph_fault(*prepared, validation),
            direct_graph_args(*prepared),
            missing_kernel(*prepared, loaded),
        ) {
            (Some(error), _, _) => result == Err::<PreparedTriadPhysicalGraphSequence, LaunchError>(
                error,
            ),
            (None, Err(error), _) => result == Err::<
                PreparedTriadPhysicalGraphSequence,
                LaunchError,
            >(error),
            (None, Ok(_), Some(error)) => result == Err::<
                PreparedTriadPhysicalGraphSequence,
                LaunchError,
            >(error),
            (None, Ok(args), None) => {
                &&& result is Ok
                &&& result->Ok_0.launches@.len() == 1
                &&& direct_graph_node(*prepared, args, result->Ok_0.launches@[0])
            },
        },
{
    match validation {
        Ok(_) => {},
        Err(error) => {
            return Err(error);
        },
    }
    match &prepared.kind {
        PreparedF32Kind::Tf32SplitK { plan, .. } => {
            if prepared.routes.len() != 1 {
                return Err(
                    LaunchError::Rejected(
                        "prepared fused TF32 split-K graph sequence requires one route",
                    ),
                );
            }
            if !prepared.routes[0].launch.config().same(&plan.fused) {
                return Err(
                    LaunchError::Rejected(
                        "prepared fused TF32 split-K graph launch configuration changed",
                    ),
                );
            }
        },
        _ => {
            if prepared.routes.len() != 1 {
                return Err(
                    LaunchError::Rejected(
                        "prepared direct F32 graph sequence requires exactly one route",
                    ),
                );
            }
        },
    }
    let route = physical_prepared_f32_route(prepared, prepared.routes[0]);
    let config = prepared.routes[0].launch.config();
    let args = build_direct_graph_args(prepared)?;
    let arguments = capture_arguments(&args);
    let symbol = match &prepared.kind {
        PreparedF32Kind::ScalarZero { .. } => scalar_zero_symbol(prepared.request.op),
        PreparedF32Kind::Tf32SplitK { .. } => {
            if !loaded {
                return Err(
                    LaunchError::Unavailable(TF32_SPLITK_SYMBOL, prepared.routes[0].symbol),
                );
            }
            prepared.routes[0].symbol
        },
        _ => {
            if !loaded {
                return Err(LaunchError::Unavailable(TF32_SYMBOL, prepared.routes[0].symbol));
            }
            prepared.routes[0].symbol
        },
    };
    let node = PreparedTriadPhysicalGraphLaunch {
        symbol,
        config,
        record: PhysicalGraphRecord {
            logical_dtype: PolicyDtype::F32,
            physical_resources: None,
            route,
        },
        arguments,
    };
    Ok(PreparedTriadPhysicalGraphSequence { launches: vec![node] })
}

/// A prepared launch has the workspace that its route folds through.
pub open spec fn folds_as_routed(prepared: PreparedF32TriadLaunch) -> bool {
    match prepared.kind {
        PreparedF32Kind::Tf32StreamK { route, .. } => route is Sm120TmaMmaTf32RnaStreamKV1
            || route is Sm120TmaFmaExactV1,
        _ => true,
    }
}

/// A launch and the graph node that replays it run the same kernel on the
/// same arguments, wherever both exist.
pub proof fn graph_replays_the_eager_launch(prepared: PreparedF32TriadLaunch, loaded: bool)
    requires
        prepared.wf(),
        folds_as_routed(prepared),
    ensures
        match (prepared_step(prepared, loaded), direct_graph_args(prepared)) {
            (Ok(step), Ok(args)) => step.args == args && step.symbol == direct_graph_symbol(
                prepared,
            ),
            _ => true,
        },
        prepared_step(prepared, loaded) is Ok ==> missing_kernel(prepared, loaded) is None,
{
}

/// A tiled launch whose route and parameters belong together, that has the
/// tensor maps that its route reads and whose kernel is loaded, is enqueued
/// and has a graph node.
pub proof fn matching_tiled_launches_exist(
    prepared: PreparedF32TriadLaunch,
    route: Tf32PhysicalRoute,
    maps: Option<TensorMapPair>,
    params: PreparedTf32Params,
    config: LaunchConfig,
)
    requires
        prepared.wf(),
        prepared.kind == (PreparedF32Kind::Tf32 { route, maps, params, config }),
        params_match_route(route, params),
        !(route is Sm120TmaMmaTf32RnaStreamKV1),
        !(route is Sm120TmaFmaExactV1),
        route is MmaTf32RnaV1 || maps is Some,
    ensures
        prepared_step(prepared, true) is Ok,
        direct_graph_args(prepared) is Ok,
        missing_kernel(prepared, true) is None,
{
}

/// An empty reduction never reads its inputs: whatever they are, the same
/// arguments are passed.
pub proof fn empty_reductions_never_read_their_inputs(
    left: PreparedF32TriadLaunch,
    right: PreparedF32TriadLaunch,
)
    requires
        left.request == right.request,
        left.kind == right.kind,
        left.request.shape.reduction(left.request.op) == 0,
        left.operands.output == right.operands.output,
        left.operands.bias == right.operands.bias,
        !(left.kind is Tf32SplitK),
    ensures
        direct_graph_args(left) == direct_graph_args(right),
{
}

/// The device addresses of a scalar product.
#[derive(Clone, Copy, Debug, PartialEq, Eq)]
pub enum ScalarPhysicalGraphDispatch {
    Nn { y: u64, x: u64, w_ptr: u64, bias_ptr: u64, dims: (usize, usize, usize) },
    Tn { dw_ptr: u64, dy: u64, x_saved: u64, dims: (usize, usize, usize) },
    Nt { dx: u64, dy: u64, w_ptr: u64, dims: (usize, usize, usize) },
}

impl ScalarPhysicalGraphDispatch {
    /// The operation.
    #[verifier::allow_in_spec]
    pub fn op(self) -> ResolvedGemmOp
        returns
            (match self {
                ScalarPhysicalGraphDispatch::Nn { .. } => ResolvedGemmOp::Nn,
                ScalarPhysicalGraphDispatch::Tn { .. } => ResolvedGemmOp::Tn,
                ScalarPhysicalGraphDispatch::Nt { .. } => ResolvedGemmOp::Nt,
            }),
    {
        match self {
            ScalarPhysicalGraphDispatch::Nn { .. } => ResolvedGemmOp::Nn,
            ScalarPhysicalGraphDispatch::Tn { .. } => ResolvedGemmOp::Tn,
            ScalarPhysicalGraphDispatch::Nt { .. } => ResolvedGemmOp::Nt,
        }
    }
}

/// The launch program of a prepared scalar product. A forward product reads
/// the input that was prepared.
pub open spec fn scalar_graph_program(
    request: F32TriadRequest,
    frozen: PreparedScalar,
    dispatch: ScalarPhysicalGraphDispatch,
    workspace: ScalarWorkspace,
) -> kernel::Program {
    let unused = Ok::<ScalarDispatchPlan, LaunchError>(frozen.plan);
    match dispatch {
        ScalarPhysicalGraphDispatch::Nn { y, w_ptr, bias_ptr, dims, .. } =>
            scalar_forward::forward_sub_program(
            y,
            GemmBiFwdSubOperands {
                x_ptr: frozen.operands.a,
                lda: request.shape.lda,
                w_ptr,
                bias_ptr,
            },
            dims,
            Some(frozen),
            unused,
            workspace,
        ),
        ScalarPhysicalGraphDispatch::Tn { dw_ptr, dy, x_saved, dims } =>
            scalar_dw::backward_dw_program(
            dw_ptr,
            dy,
            x_saved,
            dims,
            Some(frozen),
            unused,
            workspace,
        ),
        ScalarPhysicalGraphDispatch::Nt { dx, dy, w_ptr, dims } => scalar_dx::backward_dx_program(
            dx,
            dy,
            w_ptr,
            dims,
            Some(frozen),
            unused,
            workspace,
        ),
    }
}

/// A forward product whose input is no longer the prepared one.
pub open spec fn changed_input(
    operands: F32TriadOperands,
    dispatch: ScalarPhysicalGraphDispatch,
) -> Option<LaunchError> {
    match dispatch {
        ScalarPhysicalGraphDispatch::Nn { x, .. } => if x != operands.a {
            Some(LaunchError::Rejected("prepared scalar NN input binding changed"))
        } else {
            None
        },
        _ => None,
    }
}

/// What the graph nodes of a prepared scalar launch are.
pub open spec fn scalar_graph_result(
    prepared: PreparedF32TriadLaunch,
    logical_dtype: PolicyDtype,
    dispatch: ScalarPhysicalGraphDispatch,
    workspace: ScalarWorkspace,
    validation: Result<(), LaunchError>,
    result: Result<PreparedTriadPhysicalGraphSequence, LaunchError>,
) -> bool {
    let refused = |error: LaunchError|
        result == Err::<PreparedTriadPhysicalGraphSequence, LaunchError>(error);
    match (validation, prepared.kind) {
        (Err(error), _) => refused(error),
        (Ok(_), PreparedF32Kind::Scalar(plan)) => {
            let program = scalar_graph_program(
                prepared.request,
                PreparedScalar { plan, operands: prepared.operands },
                dispatch,
                workspace,
            );
            match control::run_fault(
                prepared.routes@,
                program,
                changed_input(prepared.operands, dispatch),
                0,
            ) {
                Some(error) => refused(error),
                None => {
                    &&& result is Ok
                    &&& result->Ok_0.launches@.len() == prepared.routes@.len()
                    &&& prepared.routes@.len() == program.launches.len()
                    &&& forall|i: int|
                        0 <= i < prepared.routes@.len() ==> control::captures(
                            #[trigger] result->Ok_0.launches@[i],
                            program.launches[i],
                            PhysicalGraphRecord {
                                logical_dtype,
                                physical_resources: Some(prepared.physical_resources),
                                route: prepared.routes@[i],
                            },
                        )
                },
            }
        },
        (Ok(_), _) => refused(
            LaunchError::Rejected("prepared scalar graph package resolved a non-scalar F32 launch"),
        ),
    }
}

proof fn scalar_graph_arguments_bounded(
    request: F32TriadRequest,
    frozen: PreparedScalar,
    dispatch: ScalarPhysicalGraphDispatch,
    workspace: ScalarWorkspace,
)
    ensures
        scalar_laws::arguments_bounded(
            scalar_graph_program(request, frozen, dispatch, workspace),
            arguments::PHYSICAL_SCALAR_MAX_KERNEL_ARGUMENTS as int,
        ),
{
    let program = scalar_graph_program(request, frozen, dispatch, workspace);
    match dispatch {
        ScalarPhysicalGraphDispatch::Nn { y, w_ptr, bias_ptr, dims, .. } => {
            let operands = GemmBiFwdSubOperands {
                x_ptr: frozen.operands.a,
                lda: request.shape.lda,
                w_ptr,
                bias_ptr,
            };
            match GemmDims::resolve(dims, operands.lda, dims.1) {
                Ok(checked) => {
                    let call = scalar_forward::forward_call(
                        checked,
                        y,
                        operands,
                        Some(frozen),
                        workspace,
                    );
                    scalar_laws::forward_arguments_bounded(call, frozen.plan);
                },
                Err(_) => {},
            }
        },
        ScalarPhysicalGraphDispatch::Tn { dw_ptr, dy, x_saved, dims } => {
            match scalar_dw::backward_request(ResolvedGemmOp::Tn, dims) {
                Ok((checked, _)) => {
                    let call = scalar_dw::dw_call(
                        checked,
                        dw_ptr,
                        dy,
                        x_saved,
                        Some(frozen),
                        workspace,
                    );
                    scalar_laws::dw_arguments_bounded(call, frozen.plan);
                },
                Err(_) => {},
            }
        },
        ScalarPhysicalGraphDispatch::Nt { dx, dy, w_ptr, dims } => {
            match scalar_dw::backward_request(ResolvedGemmOp::Nt, dims) {
                Ok((checked, resolved)) => {
                    let call = scalar_dx::DxCall {
                        dims: checked,
                        request: resolved,
                        operands: scalar_dx::dx_operands(dx, dy, w_ptr, Some(frozen)),
                        workspace,
                    };
                    scalar_laws::dx_arguments_bounded(call, frozen.plan);
                },
                Err(_) => {},
            }
        },
    }
}

/// Prepares the graph nodes of a prepared scalar launch. `validation` says
/// whether the launch is still valid on its device.
pub fn prepare_prepared_scalar_physical_graph_sequence(
    prepared: &PreparedF32TriadLaunch,
    logical_dtype: PolicyDtype,
    dispatch: ScalarPhysicalGraphDispatch,
    workspace: ScalarWorkspace,
    validation: Result<(), LaunchError>,
) -> (result: Result<PreparedTriadPhysicalGraphSequence, LaunchError>)
    requires
        prepared.serves(dispatch.op()),
    ensures
        scalar_graph_result(
            *prepared,
            logical_dtype,
            dispatch,
            workspace,
            validation,
            result,
        ),
{
    match validation {
        Ok(_) => {},
        Err(error) => {
            return Err(error);
        },
    }
    let plan = match prepared.kind {
        PreparedF32Kind::Scalar(plan) => plan,
        _ => {
            return Err(
                LaunchError::Rejected(
                    "prepared scalar graph package resolved a non-scalar F32 launch",
                ),
            );
        },
    };
    let frozen = PreparedScalar { plan, operands: prepared.operands };
    let (program, changed) = match dispatch {
        ScalarPhysicalGraphDispatch::Nn { y, x, w_ptr, bias_ptr, dims } => {
            let operands = GemmBiFwdSubOperands {
                x_ptr: prepared.operands.a,
                lda: prepared.request.shape.lda,
                w_ptr,
                bias_ptr,
            };
            let program = gemm_bi_forward_sub_with_control(
                y,
                operands,
                dims,
                Some(frozen),
                Ok(plan),
                workspace,
            );
            let changed = if x != prepared.operands.a {
                Some(LaunchError::Rejected("prepared scalar NN input binding changed"))
            } else {
                None
            };
            (program, changed)
        },
        ScalarPhysicalGraphDispatch::Tn { dw_ptr, dy, x_saved, dims } => (
            gemm_bi_backward_dw_with_control(
                dw_ptr,
                dy,
                x_saved,
                dims,
                Some(frozen),
                Ok(plan),
                workspace,
            ),
            None,
        ),
        ScalarPhysicalGraphDispatch::Nt { dx, dy, w_ptr, dims } => (
            gemm_bi_backward_dx_with_control(
                dx,
                dy,
                w_ptr,
                dims,
                Some(frozen),
                Ok(plan),
                workspace,
            ),
            None,
        ),
    };
    proof {
        scalar_graph_arguments_bounded(prepared.request, frozen, dispatch, workspace);
    }
    capture_program(
        &prepared.routes,
        &program,
        logical_dtype,
        prepared.physical_resources,
        changed,
    )
}

/// The dimensions of a prepared product.
#[verifier::allow_in_spec]
pub fn prepared_dims(request: F32TriadRequest) -> (usize, usize, usize)
    returns
        ((request.shape.m, request.shape.k, request.shape.n)),
{
    (request.shape.m, request.shape.k, request.shape.n)
}

/// Prepares the graph nodes of a prepared forward product.
pub fn prepare_prepared_f32_forward_graph_sequence(
    prepared: &PreparedF32TriadLaunch,
    y: u64,
    x: u64,
    workspace: ScalarWorkspace,
    validation: Result<(), LaunchError>,
) -> (result: Result<PreparedTriadPhysicalGraphSequence, LaunchError>)
    requires
        prepared.serves(prepared.request.op),
    ensures
        if prepared.request.op is Nn {
            scalar_graph_result(
                *prepared,
                PolicyDtype::F32,
                ScalarPhysicalGraphDispatch::Nn {
                    y,
                    x,
                    w_ptr: prepared.operands.b,
                    bias_ptr: bias_argument(prepared.operands),
                    dims: prepared_dims(prepared.request),
                },
                workspace,
                validation,
                result,
            )
        } else {
            result == Err::<PreparedTriadPhysicalGraphSequence, LaunchError>(
                LaunchError::Rejected(
                    "prepared F32 forward graph sequence requires an NN launch",
                ),
            )
        },
{
    if prepared.request.op != ResolvedGemmOp::Nn {
        return Err(
            LaunchError::Rejected("prepared F32 forward graph sequence requires an NN launch"),
        );
    }
    prepare_prepared_scalar_physical_graph_sequence(
        prepared,
        PolicyDtype::F32,
        ScalarPhysicalGraphDispatch::Nn {
            y,
            x,
            w_ptr: prepared.operands.b,
            bias_ptr: bias_argument(prepared.operands),
            dims: prepared_dims(prepared.request),
        },
        workspace,
        validation,
    )
}

/// Prepares the graph nodes of a prepared weight gradient.
pub fn prepare_prepared_f32_backward_dw_graph_sequence(
    prepared: &PreparedF32TriadLaunch,
    dy: u64,
    x_saved: u64,
    workspace: ScalarWorkspace,
    validation: Result<(), LaunchError>,
) -> (result: Result<PreparedTriadPhysicalGraphSequence, LaunchError>)
    requires
        prepared.serves(prepared.request.op),
    ensures
        if prepared.request.op is Tn {
            scalar_graph_result(
                *prepared,
                PolicyDtype::F32,
                ScalarPhysicalGraphDispatch::Tn {
                    dw_ptr: prepared.operands.output,
                    dy,
                    x_saved,
                    dims: prepared_dims(prepared.request),
                },
                workspace,
                validation,
                result,
            )
        } else {
            result == Err::<PreparedTriadPhysicalGraphSequence, LaunchError>(
                LaunchError::Rejected(
                    "prepared F32 backward-dW graph sequence requires a TN launch",
                ),
            )
        },
{
    if prepared.request.op != ResolvedGemmOp::Tn {
        return Err(
            LaunchError::Rejected("prepared F32 backward-dW graph sequence requires a TN launch"),
        );
    }
    prepare_prepared_scalar_physical_graph_sequence(
        prepared,
        PolicyDtype::F32,
        ScalarPhysicalGraphDispatch::Tn {
            dw_ptr: prepared.operands.output,
            dy,
            x_saved,
            dims: prepared_dims(prepared.request),
        },
        workspace,
        validation,
    )
}

/// Prepares the graph nodes of a prepared input gradient.
pub fn prepare_prepared_f32_backward_dx_graph_sequence(
    prepared: &PreparedF32TriadLaunch,
    dx: u64,
    dy: u64,
    workspace: ScalarWorkspace,
    validation: Result<(), LaunchError>,
) -> (result: Result<PreparedTriadPhysicalGraphSequence, LaunchError>)
    requires
        prepared.serves(prepared.request.op),
    ensures
        if prepared.request.op is Nt {
            scalar_graph_result(
                *prepared,
                PolicyDtype::F32,
                ScalarPhysicalGraphDispatch::Nt {
                    dx,
                    dy,
                    w_ptr: prepared.operands.b,
                    dims: prepared_dims(prepared.request),
                },
                workspace,
                validation,
                result,
            )
        } else {
            result == Err::<PreparedTriadPhysicalGraphSequence, LaunchError>(
                LaunchError::Rejected(
                    "prepared F32 backward-dX graph sequence requires an NT launch",
                ),
            )
        },
{
    if prepared.request.op != ResolvedGemmOp::Nt {
        return Err(
            LaunchError::Rejected("prepared F32 backward-dX graph sequence requires an NT launch"),
        );
    }
    prepare_prepared_scalar_physical_graph_sequence(
        prepared,
        PolicyDtype::F32,
        ScalarPhysicalGraphDispatch::Nt {
            dx,
            dy,
            w_ptr: prepared.operands.b,
            dims: prepared_dims(prepared.request),
        },
        workspace,
        validation,
    )
}

} // verus!
