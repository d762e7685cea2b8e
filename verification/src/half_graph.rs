//! Graph nodes of half-precision launches.

use crate::digest::Sha256Digest;
use crate::error::LaunchError;
use crate::half_kernel;
use crate::half_kernel::half_suffix;
use crate::half_kernel::HalfKernel;
use crate::half_launch::{HalfGemmArguments, HalfGemmObservation};
use crate::half_routes;
use crate::half_routes::{
    admit_half_recording, half_argument_allocations, resolve_half_gemm_observation,
    HalfAllocations, HalfCompilers,
};
use crate::identity::{GemmRouteIdentity, ResolvedGemmRoute, TableRevisions, WeightDtype};
use crate::kernel::{LaunchConfig, ResolvedKernelLaunch};
use crate::shape::{F32TriadShape, ResolvedGemmOp};
use crate::text;
use crate::text::strip_text_suffix;
use vstd::prelude::*;

verus! {

/// What a graph node expects of the kernel that it launches.
#[derive(Clone, Copy, Debug, PartialEq, Eq)]
pub struct ExpectedPhysicalKernel {
    pub symbol: &'static str,
    pub launch: ResolvedKernelLaunch,
    pub gemm_route: Option<ResolvedGemmRoute>,
    pub tile: Option<(u32, u32)>,
}

/// The product that a graph node computes.
#[derive(Clone, Copy, Debug, PartialEq, Eq)]
pub struct HalfPhysicalTraceRequest {
    pub op: ResolvedGemmOp,
    pub dtype: WeightDtype,
    pub dims: (usize, usize, usize),
    pub nn_strides: Option<(usize, usize, usize)>,
    pub output: u64,
    pub a: u64,
    pub b: u64,
    pub bias: u64,
}

/// A graph node: its kernel, geometry and recorded route.
#[derive(Clone, Copy, Debug, PartialEq, Eq)]
pub struct PreparedHalfGraphIdentity {
    pub kernel: HalfKernel,
    pub config: LaunchConfig,
    pub route: ResolvedGemmRoute,
    pub base: &'static str,
}

/// The kernel behind a symbol, for one element type.
pub open spec fn native_kernel(symbol: Seq<char>, dtype: WeightDtype, streamk_composed: bool)
    -> Result<HalfKernel, LaunchError> {
    match half_suffix(dtype) {
        None => Err(LaunchError::Rejected("native half graph identity does not accept f32")),
        Some(suffix) => match text::stripped(symbol, suffix@) {
            None => Err(
                LaunchError::Rejected("native half graph symbol has the wrong dtype suffix"),
            ),
            Some(base) => match HalfKernel::named(base) {
                None => Err(
                    LaunchError::Rejected("native half graph symbol is not a prepared typed route"),
                ),
                Some(kernel) => if kernel == HalfKernel::TnTc64StreamK && !streamk_composed {
                    Err(
                        LaunchError::Rejected(
                            "the portable stream-K dW kernel is not composed for this target",
                        ),
                    )
                } else {
                    Ok(kernel)
                },
            },
        },
    }
}

/// Finds the kernel behind a symbol. `streamk_composed` says whether the
/// stream-K kernel is part of the device's module.
pub fn native_half_kernel(symbol: &str, dtype: WeightDtype, streamk_composed: bool) -> (result:
    Result<HalfKernel, LaunchError>)
    ensures
        result == native_kernel(symbol@, dtype, streamk_composed),
{
    let suffix = match half_suffix(dtype) {
        Some(suffix) => suffix,
        None => {
            return Err(
                LaunchError::Rejected("native half graph identity does not accept f32"),
            );
        },
    };
    let base = match strip_text_suffix(symbol, suffix) {
        Some(base) => base,
        None => {
            return Err(
                LaunchError::Rejected("native half graph symbol has the wrong dtype suffix"),
            );
        },
    };
    match HalfKernel::find(base) {
        None => Err(
            LaunchError::Rejected("native half graph symbol is not a prepared typed route"),
        ),
        Some(kernel) => {
            if kernel == HalfKernel::TnTc64StreamK && !streamk_composed {
                return Err(
                    LaunchError::Rejected(
                        "the portable stream-K dW kernel is not composed for this target",
                    ),
                );
            }
            Ok(kernel)
        },
    }
}

/// The symbol of every kernel leads back to the kernel.
pub proof fn symbols_lead_back_to_their_kernel(
    kernel: HalfKernel,
    dtype: WeightDtype,
    streamk_composed: bool,
)
    requires
        half_suffix(dtype) is Some,
        kernel == HalfKernel::TnTc64StreamK ==> streamk_composed,
    ensures
        native_kernel(half_kernel::half_symbol(kernel, dtype)->0@, dtype, streamk_composed) == Ok::<
            HalfKernel,
            LaunchError,
        >(kernel),
{
    half_kernel::symbol_is_base_and_suffix(kernel, dtype);
    text::stripping_undoes_appending(kernel.base()@, half_suffix(dtype)->0@);
    half_kernel::base_names_their_kernel(kernel);
}

/// What a graph node is recorded under. Only forward products have a bias
/// and may be strided.
pub open spec fn native_observation(
    expected: ExpectedPhysicalKernel,
    request: HalfPhysicalTraceRequest,
    kernel: HalfKernel,
) -> Result<HalfGemmObservation, LaunchError> {
    let packed = F32TriadShape::contiguous(request.op, request.dims);
    match (expected.gemm_route, expected.tile) {
        (None, _) => Err(LaunchError::Rejected("native half graph node has no GEMM route")),
        (_, None) => Err(LaunchError::Rejected("native half graph node has no tile")),
        (Some(route), Some(tile)) => Ok(
            HalfGemmObservation {
                base: kernel.base(),
                op: request.op,
                dtype: request.dtype,
                dims: request.dims,
                strides: match request.nn_strides {
                    Some(strides) => strides,
                    None => (packed.lda, packed.ldb, packed.ldc),
                },
                tile,
                bk_stages: (route.bk, route.stages),
                arguments: HalfGemmArguments {
                    output: request.output,
                    a: request.a,
                    b: request.b,
                    bias: if request.op == ResolvedGemmOp::Nn {
                        request.bias
                    } else {
                        0
                    },
                },
            },
        ),
    }
}

/// Rebuilds what a graph node is recorded under.
pub fn native_half_observation(
    expected: &ExpectedPhysicalKernel,
    request: HalfPhysicalTraceRequest,
    kernel: HalfKernel,
) -> (result: Result<HalfGemmObservation, LaunchError>)
    ensures
        result == native_observation(*expected, request, kernel),
{
    let route = match expected.gemm_route {
        Some(route) => route,
        None => {
            return Err(LaunchError::Rejected("native half graph node has no GEMM route"));
        },
    };
    let tile = match expected.tile {
        Some(tile) => tile,
        None => {
            return Err(LaunchError::Rejected("native half graph node has no tile"));
        },
    };
    let strides = match request.nn_strides {
        Some(strides) => strides,
        None => {
            let packed = F32TriadShape::contiguous(request.op, request.dims);
            (packed.lda, packed.ldb, packed.ldc)
        },
    };
    Ok(
        HalfGemmObservation {
            base: kernel.base(),
            op: request.op,
            dtype: request.dtype,
            dims: request.dims,
            strides,
            tile,
            bk_stages: (route.bk, route.stages),
            arguments: HalfGemmArguments {
                output: request.output,
                a: request.a,
                b: request.b,
                bias: if request.op == ResolvedGemmOp::Nn {
                    request.bias
                } else {
                    0
                },
            },
        },
    )
}

/// What a graph node is prepared as.
pub open spec fn native_graph_identity(
    context: Option<GemmRouteIdentity>,
    compilers: HalfCompilers,
    revisions: TableRevisions,
    expected: ExpectedPhysicalKernel,
    request: HalfPhysicalTraceRequest,
    streamk_composed: bool,
    allocations: Result<HalfAllocations, LaunchError>,
) -> Result<PreparedHalfGraphIdentity, LaunchError> {
    match native_kernel(expected.symbol@, request.dtype, streamk_composed) {
        Err(error) => Err(error),
        Ok(kernel) => match native_observation(expected, request, kernel) {
            Err(error) => Err(error),
            Ok(observation) => match half_routes::observed_half_route(
                context,
                compilers,
                revisions,
                observation,
                expected.launch.config(),
                allocations,
            ) {
                Err(error) => Err(error),
                Ok(route) => Ok(
                    PreparedHalfGraphIdentity {
                        kernel,
                        config: expected.launch.config(),
                        route,
                        base: kernel.base(),
                    },
                ),
            },
        },
    }
}

/// Prepares a graph node from the kernel that it expects and the product
/// that it computes.
pub fn prepare_native_half_graph_identity(
    context: Option<GemmRouteIdentity>,
    compilers: &HalfCompilers,
    revisions: TableRevisions,
    expected: &ExpectedPhysicalKernel,
    request: HalfPhysicalTraceRequest,
    streamk_composed: bool,
    allocations: Result<HalfAllocations, LaunchError>,
) -> (result: Result<PreparedHalfGraphIdentity, LaunchError>)
    requires
        half_routes::block_countable(expected.launch.config()),
    ensures
        result == native_graph_identity(
            context,
            *compilers,
            revisions,
            *expected,
            request,
            streamk_composed,
            allocations,
        ),
{
    let kernel = native_half_kernel(expected.symbol, request.dtype, streamk_composed)?;
    let config = expected.launch.config();
    let observation = native_half_observation(expected, request, kernel)?;
    let route = resolve_half_gemm_observation(
        context,
        compilers,
        revisions,
        observation,
        config,
        allocations,
    )?;
    Ok(PreparedHalfGraphIdentity { kernel, config, route, base: kernel.base() })
}

/// How an observed graph node is prepared: only a node that may be recorded
/// asks for the memory behind its arguments.
pub open spec fn native_graph_observed<
    Identify: Fn(u64, u64) -> Result<Sha256Digest, LaunchError>,
>(
    context: Option<GemmRouteIdentity>,
    compilers: HalfCompilers,
    revisions: TableRevisions,
    expected: ExpectedPhysicalKernel,
    request: HalfPhysicalTraceRequest,
    streamk_composed: bool,
    identify: Identify,
    result: Result<PreparedHalfGraphIdentity, LaunchError>,
) -> bool {
    let refused = |error: LaunchError|
        result == Err::<PreparedHalfGraphIdentity, LaunchError>(error);
    match native_kernel(expected.symbol@, request.dtype, streamk_composed) {
        Err(error) => refused(error),
        Ok(kernel) => match native_observation(expected, request, kernel) {
            Err(error) => refused(error),
            Ok(observation) => match half_routes::half_recording_fault(context, observation) {
                Some(error) => refused(error),
                None => exists|allocations: Result<HalfAllocations, LaunchError>| #[trigger]
                    half_routes::allocations_answered(observation, identify, allocations) && result
                        == native_graph_identity(
                        context,
                        compilers,
                        revisions,
                        expected,
                        request,
                        streamk_composed,
                        allocations,
                    ),
            },
        },
    }
}

/// Prepares an observed graph node.
pub fn observe_native_half_graph<Identify: Fn(u64, u64) -> Result<Sha256Digest, LaunchError>>(
    context: Option<GemmRouteIdentity>,
    compilers: &HalfCompilers,
    revisions: TableRevisions,
    expected: &ExpectedPhysicalKernel,
    request: HalfPhysicalTraceRequest,
    streamk_composed: bool,
    identify: &Identify,
) -> (result: Result<PreparedHalfGraphIdentity, LaunchError>)
    requires
        half_routes::block_countable(expected.launch.config()),
        native_kernel(expected.symbol@, request.dtype, streamk_composed) matches Ok(kernel) ==> (
        native_observation(*expected, request, kernel) matches Ok(observation) ==> (
        half_routes::half_recording_fault(context, observation) is None
            ==> half_routes::asks_of_arguments(observation, *identify))),
    ensures
        native_graph_observed(
            context,
            *compilers,
            revisions,
            *expected,
            request,
            streamk_composed,
            *identify,
            result,
        ),
{
    let kernel = native_half_kernel(expected.symbol, request.dtype, streamk_composed)?;
    let observation = native_half_observation(expected, request, kernel)?;
    admit_half_recording(context, observation)?;
    let allocations = half_argument_allocations(observation, identify);
    assert(half_routes::allocations_answered(observation, *identify, allocations));
    prepare_native_half_graph_identity(
        context,
        compilers,
        revisions,
        expected,
        request,
        streamk_composed,
        allocations,
    )
}

/// Preparing the node of a recorded launch again, from its own route and
/// for the same product and allocations, gives back the route. The recorded
/// launch must be packed or a strided forward product, and only a forward
/// product may have a bias.
pub proof fn preparing_a_recorded_launch_is_idempotent(
    context: GemmRouteIdentity,
    compilers: HalfCompilers,
    revisions: TableRevisions,
    observation: HalfGemmObservation,
    kernel: HalfKernel,
    config: LaunchConfig,
    route: ResolvedGemmRoute,
    streamk_composed: bool,
    allocations: Result<HalfAllocations, LaunchError>,
)
    requires
        observation.base@ == kernel.base()@,
        kernel == HalfKernel::TnTc64StreamK ==> streamk_composed,
        observation.op == ResolvedGemmOp::Nn || observation.arguments.bias == 0,
        half_routes::observed_half_route(
            Some(context),
            compilers,
            revisions,
            observation,
            config,
            allocations,
        ) == Ok::<ResolvedGemmRoute, LaunchError>(route),
    ensures
        native_graph_identity(
            Some(context),
            compilers,
            revisions,
            ExpectedPhysicalKernel {
                symbol: route.symbol,
                launch: route.launch,
                gemm_route: Some(route),
                tile: Some(route.tile),
            },
            HalfPhysicalTraceRequest {
                op: observation.op,
                dtype: observation.dtype,
                dims: observation.dims,
                nn_strides: Some(observation.strides),
                output: observation.arguments.output,
                a: observation.arguments.a,
                b: observation.arguments.b,
                bias: observation.arguments.bias,
            },
            streamk_composed,
            allocations,
        ) == Ok::<PreparedHalfGraphIdentity, LaunchError>(
            PreparedHalfGraphIdentity { kernel, config, route, base: kernel.base() },
        ),
{
    half_kernel::base_names_their_kernel(kernel);
    symbols_lead_back_to_their_kernel(kernel, observation.dtype, streamk_composed);
    assert(route.launch.config() == config);
}

} // verus!
