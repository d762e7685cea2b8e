//! Forced tensor-map launches: the identity that a route is sealed under,
//! its preparation, its replay and its launch.

use crate::digest::Sha256Digest;
use crate::error::LaunchError;
use crate::identity::{
    same_digest, ArtifactIdentity, CompilerIdentity, DeviceCaps, DeviceIdentity, ModuleKind,
    WeightDtype,
};
use crate::kernel::{KernelLaunch, LaunchConfig, LaunchStep};
use crate::shape::{F32TriadShape, ResolvedGemmOp};
use crate::text::same_text;
use crate::tf32_plan::FoldLimits;
use crate::tma;
use crate::tma::{
    same_caps, same_target, sm120_streamk_workspace, sm90a_arguments, sm90a_launch_config,
    tma_arguments, tma_launch_config, tma_params, tma_texts, validate_tma_operands, TmaBinding,
    TmaFamily, TmaForcedRoute, TmaLaunchOperands, TmaPhysicalRoute, TmaPreparedMaps, TmaSchedule,
    TmaTargetCandidate,
};
use crate::tma_binding;
use crate::tma_binding::{family_map_binding, TmaModuleFacts};
use vstd::prelude::*;

verus! {

/// The kernel of a route.
#[derive(Clone, Copy, Debug, PartialEq, Eq)]
pub struct TmaKernelSpec {
    pub symbol: &'static str,
    pub threads: u32,
    pub dynamic_shared_bytes: u32,
}

/// The revisions that routes are recorded under.
#[derive(Clone, Copy, Debug, PartialEq, Eq, Structural)]
pub struct TmaRevisions {
    pub tensor_map: u32,
    pub tuning: u32,
    pub schedule: u32,
}

impl TmaRevisions {
    /// What a family records of them: SM90a routes are not revised, and
    /// SM100 has one schedule.
    #[verifier::allow_in_spec]
    pub fn recorded(self, family: TmaFamily) -> TmaRevisions
        returns
            (match family {
                TmaFamily::Sm90a => TmaRevisions { tensor_map: 0, tuning: 0, schedule: 0 },
                TmaFamily::Sm100 => TmaRevisions {
                    tensor_map: self.tensor_map,
                    tuning: self.tuning,
                    schedule: 0,
                },
                TmaFamily::Sm120 => self,
            }),
    {
        match family {
            TmaFamily::Sm90a => TmaRevisions { tensor_map: 0, tuning: 0, schedule: 0 },
            TmaFamily::Sm100 => TmaRevisions {
                tensor_map: self.tensor_map,
                tuning: self.tuning,
                schedule: 0,
            },
            TmaFamily::Sm120 => self,
        }
    }
}

/// The rounding and order contract of a half-precision tensor-map kernel.
#[derive(Clone, Copy, Debug, PartialEq, Eq, Structural)]
pub enum TmaNumericContract {
    WgmmaV1,
    Tcgen05F32V1,
    TmaMma16V1,
    TmaMma16StreamKV1,
}

/// The contract of a family: only SM120 has a schedule that folds partial
/// sums.
#[verifier::allow_in_spec]
pub fn tma_numeric_contract(family: TmaFamily, schedule: TmaSchedule) -> TmaNumericContract
    returns
        (match family {
            TmaFamily::Sm90a => TmaNumericContract::WgmmaV1,
            TmaFamily::Sm100 => TmaNumericContract::Tcgen05F32V1,
            TmaFamily::Sm120 => match schedule {
                TmaSchedule::Tiled => TmaNumericContract::TmaMma16V1,
                TmaSchedule::StreamK => TmaNumericContract::TmaMma16StreamKV1,
            },
        }),
{
    match family {
        TmaFamily::Sm90a => TmaNumericContract::WgmmaV1,
        TmaFamily::Sm100 => TmaNumericContract::Tcgen05F32V1,
        TmaFamily::Sm120 => match schedule {
            TmaSchedule::Tiled => TmaNumericContract::TmaMma16V1,
            TmaSchedule::StreamK => TmaNumericContract::TmaMma16StreamKV1,
        },
    }
}

/// The module of a family.
#[verifier::allow_in_spec]
pub fn tma_module_kind(family: TmaFamily) -> ModuleKind
    returns
        (match family {
            TmaFamily::Sm90a => ModuleKind::TriadSm90a,
            TmaFamily::Sm100 => ModuleKind::TriadSm100,
            TmaFamily::Sm120 => ModuleKind::TriadSm120,
        }),
{
    match family {
        TmaFamily::Sm90a => ModuleKind::TriadSm90a,
        TmaFamily::Sm100 => ModuleKind::TriadSm100,
        TmaFamily::Sm120 => ModuleKind::TriadSm120,
    }
}

/// Everything that a launch is sealed under: what it computes, the kernel
/// and module that it runs, the device, and the digests of its tensor maps
/// and allocations.
#[derive(Clone, Copy, Debug, PartialEq, Eq)]
pub struct TmaRouteIdentity {
    pub numeric_contract: TmaNumericContract,
    pub op: ResolvedGemmOp,
    pub dtype: WeightDtype,
    pub physical: TmaPhysicalRoute,
    pub shape: F32TriadShape,
    pub symbol: &'static str,
    pub module_kind: ModuleKind,
    pub target: Option<TmaTargetCandidate>,
    pub artifact: ArtifactIdentity,
    pub compiler: CompilerIdentity,
    pub device: DeviceIdentity,
    pub device_caps: Option<DeviceCaps>,
    pub revisions: TmaRevisions,
    pub tensor_maps_digest: Sha256Digest,
    pub resources_digest: Sha256Digest,
}

impl TmaRouteIdentity {
    /// Two identities agree in every field. Symbols are compared as text.
    pub open spec fn agrees(self, other: TmaRouteIdentity) -> bool {
        &&& self == (TmaRouteIdentity { symbol: self.symbol, ..other })
        &&& self.symbol@ == other.symbol@
    }

    /// Accepts a live identity that is still the captured one; otherwise
    /// refuses with the text of the caller.
    pub fn ensure_current(&self, live: &TmaRouteIdentity, changed: &'static str) -> (result: Result<
        (),
        LaunchError,
    >)
        ensures
            result == (if self.agrees(*live) {
                Ok::<(), LaunchError>(())
            } else {
                Err::<(), LaunchError>(LaunchError::Rejected(changed))
            }),
    {
        let current = self.numeric_contract == live.numeric_contract && self.op == live.op
            && self.dtype == live.dtype && self.physical == live.physical && self.shape
            == live.shape && same_text(self.symbol, live.symbol) && self.module_kind
            == live.module_kind && same_target(&self.target, &live.target) && self.artifact.same(
            &live.artifact,
        ) && self.compiler.same(&live.compiler) && self.device.same(&live.device) && same_caps(
            &self.device_caps,
            &live.device_caps,
        ) && self.revisions == live.revisions && same_digest(
            &self.tensor_maps_digest,
            &live.tensor_maps_digest,
        ) && same_digest(&self.resources_digest, &live.resources_digest);
        if !current {
            return Err(LaunchError::Rejected(changed));
        }
        Ok(())
    }
}

/// The allocations behind a launch: which they are, and the digest that
/// they are recorded under.
#[derive(Clone, Copy, Debug, PartialEq, Eq)]
pub struct TmaResources {
    pub allocations: Sha256Digest,
    pub digest: Sha256Digest,
}

/// What the driver counts of a loaded kernel.
#[derive(Clone, Copy, Debug, PartialEq, Eq, Structural)]
pub struct TmaKernelCensus {
    pub registers: i32,
    pub local_bytes: i32,
    pub static_shared_bytes: i32,
    pub max_threads: i32,
    pub active_blocks: u32,
}

/// What preparing a forced route finds beside its arguments: whether a graph
/// is captured, what the driver and the modules say, whether the allocations
/// behind the maps are alive, which route serves the product, its kernel,
/// what was counted of the kernel, and the allocations of the launch.
#[derive(Clone, Copy, Debug, PartialEq, Eq)]
pub struct TmaForcedFacts {
    pub capturing: bool,
    pub module: TmaModuleFacts,
    pub live_allocations: Result<(), LaunchError>,
    pub resolved: Result<Option<TmaForcedRoute>, LaunchError>,
    pub spec: Result<TmaKernelSpec, LaunchError>,
    pub census: Option<TmaKernelCensus>,
    pub resources: Result<TmaResources, LaunchError>,
    pub revisions: TmaRevisions,
}

/// Why maps cannot serve a route under a binding; the first rule broken
/// wins.
pub open spec fn forced_maps_fault(
    family: TmaFamily,
    route: TmaForcedRoute,
    maps: TmaPreparedMaps,
    binding: TmaBinding,
    facts: TmaForcedFacts,
) -> Option<LaunchError> {
    let texts = tma_texts(family);
    if maps.binding != binding {
        Some(LaunchError::Rejected(texts.foreign_maps))
    } else {
        match facts.live_allocations {
            Err(error) => Some(error),
            Ok(_) => if !maps.request.serves(family, route) {
                Some(LaunchError::Rejected(texts.other_maps))
            } else {
                match facts.resolved {
                    Err(error) => Some(error),
                    Ok(resolved) => if resolved != Some(route) {
                        Some(LaunchError::Rejected(texts.unavailable))
                    } else {
                        None
                    },
                }
            },
        }
    }
}

/// The sealed identity of a route.
pub open spec fn sealed_identity(
    family: TmaFamily,
    route: TmaForcedRoute,
    maps: TmaPreparedMaps,
    binding: TmaBinding,
    kernel: TmaKernelSpec,
    resources: TmaResources,
    revisions: TmaRevisions,
) -> TmaRouteIdentity {
    TmaRouteIdentity {
        numeric_contract: tma_numeric_contract(family, route.physical.schedule),
        op: route.op,
        dtype: route.dtype,
        physical: route.physical,
        shape: route.shape,
        symbol: kernel.symbol,
        module_kind: tma_module_kind(family),
        target: binding.target,
        artifact: binding.artifact,
        compiler: binding.compiler,
        device: binding.device,
        device_caps: binding.device_caps,
        revisions: revisions.recorded(family),
        tensor_maps_digest: maps.identity,
        resources_digest: resources.digest,
    }
}

/// The identity that a forced route is sealed under, or why it cannot be;
/// the first rule broken wins. SM90a routes may be looked at while a graph
/// is captured, and only SM120 kernels are censused.
pub open spec fn forced_identity(
    family: TmaFamily,
    route: TmaForcedRoute,
    maps: TmaPreparedMaps,
    operands: TmaLaunchOperands,
    facts: TmaForcedFacts,
) -> Result<TmaRouteIdentity, LaunchError> {
    let texts = tma_texts(family);
    if family != TmaFamily::Sm90a && facts.capturing {
        Err(LaunchError::Rejected(texts.capturing))
    } else {
        match (
            route.shape.validated(route.op),
            tma_binding::family_binding(family, facts.module),
        ) {
            (Err(error), _) => Err(error),
            (Ok(_), Err(error)) => Err(error),
            (Ok(_), Ok(binding)) => match (
                forced_maps_fault(family, route, maps, binding, facts),
                tma::tma_operand_fault(family, route.op, operands),
                facts.spec,
                facts.resources,
            ) {
                (Some(error), _, _, _) => Err(error),
                (None, Some(text), _, _) => Err(LaunchError::Rejected(text)),
                (None, None, Err(error), _) => Err(error),
                (None, None, Ok(kernel), resources) => if family == TmaFamily::Sm120
                    && facts.census is None {
                    Err(LaunchError::Unavailable(texts.census, kernel.symbol))
                } else {
                    match resources {
                        Err(error) => Err(error),
                        Ok(resources) => Ok(
                            sealed_identity(
                                family,
                                route,
                                maps,
                                binding,
                                kernel,
                                resources,
                                facts.revisions,
                            ),
                        ),
                    }
                },
            },
        }
    }
}

fn seal_forced(
    family: TmaFamily,
    route: TmaForcedRoute,
    maps: &TmaPreparedMaps,
    operands: TmaLaunchOperands,
    facts: &TmaForcedFacts,
) -> (result: Result<TmaRouteIdentity, LaunchError>)
    ensures
        result == forced_identity(family, route, *maps, operands, *facts),
{
    let texts = tma_texts(family);
    if family != TmaFamily::Sm90a && facts.capturing {
        return Err(LaunchError::Rejected(texts.capturing));
    }
    route.shape.validate(route.op)?;
    let binding = family_map_binding(family, &facts.module)?;
    if !maps.binding.same(&binding) {
        return Err(LaunchError::Rejected(texts.foreign_maps));
    }
    match facts.live_allocations {
        Ok(_) => {},
        Err(error) => {
            return Err(error);
        },
    }
    if !maps.request.serves(family, route) {
        return Err(LaunchError::Rejected(texts.other_maps));
    }
    let available = match facts.resolved {
        Err(error) => {
            return Err(error);
        },
        Ok(Some(resolved)) => resolved == route,
        Ok(None) => false,
    };
    if !available {
        return Err(LaunchError::Rejected(texts.unavailable));
    }
    validate_tma_operands(family, route.op, operands)?;
    let kernel = match facts.spec {
        Err(error) => {
            return Err(error);
        },
        Ok(kernel) => kernel,
    };
    if family == TmaFamily::Sm120 && facts.census.is_none() {
        return Err(LaunchError::Unavailable(texts.census, kernel.symbol));
    }
    let resources = match facts.resources {
        Err(error) => {
            return Err(error);
        },
        Ok(resources) => resources,
    };
    Ok(
        TmaRouteIdentity {
            numeric_contract: tma_numeric_contract(family, route.physical.schedule),
            op: route.op,
            dtype: route.dtype,
            physical: route.physical,
            shape: route.shape,
            symbol: kernel.symbol,
            module_kind: tma_module_kind(family),
            target: binding.target,
            artifact: binding.artifact,
            compiler: binding.compiler,
            device: binding.device,
            device_caps: binding.device_caps,
            revisions: facts.revisions.recorded(family),
            tensor_maps_digest: maps.identity,
            resources_digest: resources.digest,
        },
    )
}

/// The identity of a forced SM90a launch.
pub fn sm90a_forced_identity(
    route: TmaForcedRoute,
    maps: &TmaPreparedMaps,
    operands: TmaLaunchOperands,
    facts: &TmaForcedFacts,
) -> (result: Result<TmaRouteIdentity, LaunchError>)
    ensures
        result == forced_identity(TmaFamily::Sm90a, route, *maps, operands, *facts),
{
    seal_forced(TmaFamily::Sm90a, route, maps, operands, facts)
}

/// The text of an SM90a graph that may not be replayed.
pub const SM90A_REPLAY_CHANGED: &'static str =
    "SM90a graph replay route identity changed since capture";

/// Whether a captured SM90a launch may be replayed.
pub open spec fn sm90a_replay(
    route: TmaForcedRoute,
    maps: TmaPreparedMaps,
    operands: TmaLaunchOperands,
    facts: TmaForcedFacts,
    captured: TmaRouteIdentity,
    changed: &'static str,
) -> Result<(), LaunchError> {
    match forced_identity(TmaFamily::Sm90a, route, maps, operands, facts) {
        Err(error) => Err(error),
        Ok(live) => if captured.agrees(live) {
            Ok(())
        } else {
            Err(LaunchError::Rejected(changed))
        },
    }
}

/// Accepts a captured SM90a launch for replay: sealed again, it must have
/// the captured identity.
pub fn validate_sm90a_graph_replay(
    route: TmaForcedRoute,
    maps: &TmaPreparedMaps,
    operands: TmaLaunchOperands,
    facts: &TmaForcedFacts,
    captured: &TmaRouteIdentity,
) -> (result: Result<(), LaunchError>)
    ensures
        result == sm90a_replay(route, *maps, operands, *facts, *captured, SM90A_REPLAY_CHANGED),
{
    let live = sm90a_forced_identity(route, maps, operands, facts)?;
    captured.ensure_current(&live, SM90A_REPLAY_CHANGED)
}

/// The launch of a sealed SM90a route. `loaded` says whether the module has
/// its kernel.
pub open spec fn sm90a_step(
    route: TmaForcedRoute,
    maps: TmaPreparedMaps,
    operands: TmaLaunchOperands,
    kernel: TmaKernelSpec,
    loaded: bool,
) -> Result<LaunchStep, LaunchError> {
    if !loaded {
        Err(LaunchError::Unavailable(tma_texts(TmaFamily::Sm90a).kernel_missing, kernel.symbol))
    } else {
        match (
            tma::sm90a_config(route, kernel.dynamic_shared_bytes),
            tma::tma_extents(route.shape),
        ) {
            (Err(error), _) => Err(error),
            (Ok(_), Err(error)) => Err(error),
            (Ok(config), Ok(extents)) => Ok(
                LaunchStep {
                    symbol: kernel.symbol,
                    config,
                    args: tma::sm90a_args(operands, maps.a, maps.b, extents),
                },
            ),
        }
    }
}

/// A launch is built as described, or refused as described.
pub open spec fn builds(
    result: Result<KernelLaunch, LaunchError>,
    expected: Result<LaunchStep, LaunchError>,
) -> bool {
    match (result, expected) {
        (Ok(launch), Ok(step)) => launch@ == step,
        (Err(error), Err(reason)) => error == reason,
        _ => false,
    }
}

/// Builds the launch of a sealed SM90a route.
pub fn sm90a_launch(
    route: TmaForcedRoute,
    maps: &TmaPreparedMaps,
    operands: TmaLaunchOperands,
    kernel: TmaKernelSpec,
    loaded: bool,
) -> (result: Result<KernelLaunch, LaunchError>)
    ensures
        builds(result, sm90a_step(route, *maps, operands, kernel, loaded)),
{
    if !loaded {
        return Err(LaunchError::Unavailable(tma_texts(TmaFamily::Sm90a).kernel_missing, kernel.symbol));
    }
    let config = sm90a_launch_config(route, kernel.dynamic_shared_bytes)?;
    let args = sm90a_arguments(operands, maps, route.shape)?;
    Ok(KernelLaunch { symbol: kernel.symbol, config, args })
}

/// Launches a forced SM90a route and returns the identity that it ran under.
pub fn launch_sm90a_wgmma_forced(
    route: TmaForcedRoute,
    maps: &TmaPreparedMaps,
    operands: TmaLaunchOperands,
    facts: &TmaForcedFacts,
    loaded: bool,
) -> (result: Result<(KernelLaunch, TmaRouteIdentity), LaunchError>)
    ensures
        match forced_identity(TmaFamily::Sm90a, route, *maps, operands, *facts) {
            Err(error) => result == Err::<(KernelLaunch, TmaRouteIdentity), LaunchError>(error),
            Ok(identity) => match (
                result,
                sm90a_step(route, *maps, operands, facts.spec->Ok_0, loaded),
            ) {
                (Ok(launched), Ok(step)) => launched.0@ == step && launched.1 == identity,
                (Err(error), Err(reason)) => error == reason,
                _ => false,
            },
        },
{
    let identity = sm90a_forced_identity(route, maps, operands, facts)?;
    match facts.spec {
        Err(error) => Err(error),
        Ok(kernel) => {
            let launch = sm90a_launch(route, maps, operands, kernel, loaded)?;
            Ok((launch, identity))
        },
    }
}

/// How many kernels a launch enqueues, and the digest of their routes in
/// order.
#[derive(Clone, Copy, Debug, PartialEq, Eq)]
pub struct TmaLaunchSet {
    pub launch_count: usize,
    pub ordered_digest: Sha256Digest,
}

impl TmaLaunchSet {
    /// Whether two sets agree.
    pub fn same(&self, other: &TmaLaunchSet) -> (equal: bool)
        ensures
            equal == (*self == *other),
    {
        self.launch_count == other.launch_count && same_digest(
            &self.ordered_digest,
            &other.ordered_digest,
        )
    }
}

/// A prepared SM100 or SM120 launch. SM120 launches are tied to their stream
/// and know their launch set and what was counted of their kernel.
#[derive(Clone, Copy, Debug, PartialEq, Eq)]
pub struct TmaPreparedLaunch {
    pub family: TmaFamily,
    pub stream_handle: Option<u64>,
    pub route: TmaForcedRoute,
    pub maps: TmaPreparedMaps,
    pub operands: TmaLaunchOperands,
    pub params: [u32; 10],
    pub identity: TmaRouteIdentity,
    pub launch_set: Option<TmaLaunchSet>,
    pub resources: TmaResources,
    pub kernel_resources: Option<TmaKernelCensus>,
}

impl TmaPreparedLaunch {
    /// The identity is the one that the launch was sealed under.
    pub open spec fn sealed(self) -> bool {
        let binding = self.maps.binding;
        &&& self.identity.op == self.route.op
        &&& self.identity.dtype == self.route.dtype
        &&& self.identity.physical == self.route.physical
        &&& self.identity.shape == self.route.shape
        &&& self.identity.target == binding.target
        &&& self.identity.artifact == binding.artifact
        &&& self.identity.compiler == binding.compiler
        &&& self.identity.device == binding.device
        &&& self.identity.device_caps == binding.device_caps
        &&& self.identity.tensor_maps_digest == self.maps.identity
        &&& self.identity.resources_digest == self.resources.digest
    }
}

/// A prepared launch holds what it was prepared from.
pub open spec fn prepared_from(
    prepared: TmaPreparedLaunch,
    family: TmaFamily,
    stream_handle: Option<u64>,
    route: TmaForcedRoute,
    maps: TmaPreparedMaps,
    operands: TmaLaunchOperands,
    words: Seq<u32>,
    identity: TmaRouteIdentity,
    launch_set: Option<TmaLaunchSet>,
    resources: TmaResources,
    kernel_resources: Option<TmaKernelCensus>,
) -> bool {
    &&& prepared == (TmaPreparedLaunch {
        family,
        stream_handle,
        route,
        maps,
        operands,
        params: prepared.params,
        identity,
        launch_set,
        resources,
        kernel_resources,
    })
    &&& prepared.params@ == words
}

/// Prepares a forced SM100 route for launch or capture. Preparation is
/// refused during capture.
pub fn prepare_sm100_tcgen_forced(
    route: TmaForcedRoute,
    maps: &TmaPreparedMaps,
    operands: TmaLaunchOperands,
    facts: &TmaForcedFacts,
) -> (result: Result<TmaPreparedLaunch, LaunchError>)
    ensures
        match (
            forced_identity(TmaFamily::Sm100, route, *maps, operands, *facts),
            tma::tma_param_words(route.shape, maps.origins, operands),
        ) {
            (Err(error), _) => result == Err::<TmaPreparedLaunch, LaunchError>(error),
            (Ok(_), Err(error)) => result == Err::<TmaPreparedLaunch, LaunchError>(error),
            (Ok(identity), Ok(words)) => result is Ok && prepared_from(
                result->Ok_0,
                TmaFamily::Sm100,
                None,
                route,
                *maps,
                operands,
                words,
                identity,
                None,
                facts.resources->Ok_0,
                None,
            ),
        },
        result matches Ok(prepared) ==> prepared.sealed(),
{
    let identity = seal_forced(TmaFamily::Sm100, route, maps, operands, facts)?;
    let params = tma_params(route.shape, maps.origins, operands)?;
    match facts.resources {
        Err(error) => Err(error),
        Ok(resources) => Ok(
            TmaPreparedLaunch {
                family: TmaFamily::Sm100,
                stream_handle: None,
                route,
                maps: *maps,
                operands,
                params,
                identity,
                launch_set: None,
                resources,
                kernel_resources: None,
            },
        ),
    }
}

/// Prepares a forced SM120 route for launch or capture. The route, maps,
/// allocations, module, resources and factors are sealed into its identity,
/// and the launch set is built from that identity. Preparation is refused
/// during capture.
pub fn prepare_sm120_tma_forced<
    Build: FnOnce(TmaRouteIdentity) -> Result<TmaLaunchSet, LaunchError>,
>(
    stream_handle: u64,
    route: TmaForcedRoute,
    maps: &TmaPreparedMaps,
    operands: TmaLaunchOperands,
    facts: &TmaForcedFacts,
    build_launch_set: Build,
) -> (result: Result<TmaPreparedLaunch, LaunchError>)
    requires
        match (
            forced_identity(TmaFamily::Sm120, route, *maps, operands, *facts),
            tma::tma_param_words(route.shape, maps.origins, operands),
        ) {
            (Ok(identity), Ok(_)) => call_requires(build_launch_set, (identity,)),
            _ => true,
        },
    ensures
        match (
            forced_identity(TmaFamily::Sm120, route, *maps, operands, *facts),
            tma::tma_param_words(route.shape, maps.origins, operands),
        ) {
            (Err(error), _) => result == Err::<TmaPreparedLaunch, LaunchError>(error),
            (Ok(_), Err(error)) => result == Err::<TmaPreparedLaunch, LaunchError>(error),
            (Ok(identity), Ok(words)) => exists|built: Result<TmaLaunchSet, LaunchError>|
                #![trigger call_ensures(build_launch_set, (identity,), built)]
                call_ensures(build_launch_set, (identity,), built) && match built {
                    Err(error) => result == Err::<TmaPreparedLaunch, LaunchError>(error),
                    Ok(set) => result is Ok && prepared_from(
                        result->Ok_0,
                        TmaFamily::Sm120,
                        Some(stream_handle),
                        route,
                        *maps,
                        operands,
                        words,
                        identity,
                        Some(set),
                        facts.resources->Ok_0,
                        facts.census,
                    ),
                },
        },
        result matches Ok(prepared) ==> prepared.sealed() && prepared.kernel_resources is Some,
{
    let identity = seal_forced(TmaFamily::Sm120, route, maps, operands, facts)?;
    let params = tma_params(route.shape, maps.origins, operands)?;
    let resources = match facts.resources {
        Err(error) => {
            return Err(error);
        },
        Ok(resources) => resources,
    };
    match build_launch_set(identity) {
        Err(error) => Err(error),
        Ok(set) => Ok(
            TmaPreparedLaunch {
                family: TmaFamily::Sm120,
                stream_handle: Some(stream_handle),
                route,
                maps: *maps,
                operands,
                params,
                identity,
                launch_set: Some(set),
                resources,
                kernel_resources: facts.census,
            },
        ),
    }
}

/// The module and context of a prepared launch are the ones that are loaded.
/// SM100 launches also hold their target against the loaded one.
pub open spec fn module_is_current(prepared: TmaPreparedLaunch, module: TmaModuleFacts) -> bool {
    let binding = prepared.maps.binding;
    let identity = prepared.identity;
    &&& module.stream == binding.allocation_domain
    &&& module.kernels == binding.allocation_domain
    &&& module.compiler == Some(identity.compiler)
    &&& module.specialized == Some(identity.artifact)
    &&& prepared.family != TmaFamily::Sm100 || module.target == identity.target
    &&& binding.artifact == identity.artifact
    &&& binding.compiler == identity.compiler
    &&& binding.device == identity.device
    &&& binding.device_caps == identity.device_caps
    &&& binding.target == identity.target
}

/// Why a prepared launch does not run here: it is an SM120 launch of another
/// stream, or its module context changed.
pub open spec fn prepared_binding_fault(
    prepared: TmaPreparedLaunch,
    stream_handle: u64,
    module: TmaModuleFacts,
) -> Option<LaunchError> {
    if prepared.family == TmaFamily::Sm120 && prepared.stream_handle != Some(stream_handle) {
        Some(LaunchError::Rejected("SM120 prepared launch belongs to a different CUDA stream"))
    } else if !module_is_current(prepared, module) {
        Some(LaunchError::Rejected(tma_texts(prepared.family).module_context))
    } else {
        None
    }
}

/// Accepts a prepared launch on the stream and the module that it was
/// prepared on.
pub fn validate_tma_prepared_binding(
    prepared: &TmaPreparedLaunch,
    stream_handle: u64,
    module: &TmaModuleFacts,
) -> (result: Result<(), LaunchError>)
    ensures
        result == (match prepared_binding_fault(*prepared, stream_handle, *module) {
            Some(error) => Err::<(), LaunchError>(error),
            None => Ok::<(), LaunchError>(()),
        }),
{
    if prepared.family == TmaFamily::Sm120 {
        let own_stream = match prepared.stream_handle {
            Some(handle) => handle == stream_handle,
            None => false,
        };
        if !own_stream {
            return Err(
                LaunchError::Rejected("SM120 prepared launch belongs to a different CUDA stream"),
            );
        }
    }
    let binding = &prepared.maps.binding;
    let identity = &prepared.identity;
    let compiler_loaded = match &module.compiler {
        Some(compiler) => compiler.same(&identity.compiler),
        None => false,
    };
    let artifact_loaded = match &module.specialized {
        Some(artifact) => artifact.same(&identity.artifact),
        None => false,
    };
    let target_loaded = prepared.family != TmaFamily::Sm100 || same_target(
        &module.target,
        &identity.target,
    );
    let current = module.stream == binding.allocation_domain && module.kernels
        == binding.allocation_domain && compiler_loaded && artifact_loaded && target_loaded
        && binding.artifact.same(&identity.artifact) && binding.compiler.same(&identity.compiler)
        && binding.device.same(&identity.device) && same_caps(
        &binding.device_caps,
        &identity.device_caps,
    ) && same_target(&binding.target, &identity.target);
    if !current {
        return Err(LaunchError::Rejected(tma_texts(prepared.family).module_context));
    }
    Ok(())
}

/// The texts of a changed graph replay: its device or module, its
/// allocations, its resources, its launch set.
#[verifier::allow_in_spec]
pub fn tma_replay_texts(family: TmaFamily) -> (&'static str, &'static str, &'static str)
    returns
        (if family == TmaFamily::Sm120 {
            (
                "SM120 graph replay device or module identity changed since capture",
                "SM120 graph replay allocation identity changed since capture",
                "SM120 graph replay resource identity changed since capture",
            )
        } else {
            (
                "SM100 graph replay device or module identity changed since capture",
                "SM100 graph replay allocation identity changed since capture",
                "SM100 graph replay resource identity changed since capture",
            )
        }),
{
    if family == TmaFamily::Sm120 {
        (
            "SM120 graph replay device or module identity changed since capture",
            "SM120 graph replay allocation identity changed since capture",
            "SM120 graph replay resource identity changed since capture",
        )
    } else {
        (
            "SM100 graph replay device or module identity changed since capture",
            "SM100 graph replay allocation identity changed since capture",
            "SM100 graph replay resource identity changed since capture",
        )
    }
}

/// What a replay finds on the device.
#[derive(Clone, Copy, Debug, PartialEq, Eq)]
pub struct TmaReplayFacts {
    pub stream_handle: u64,
    pub module: TmaModuleFacts,
    pub live_allocations: Result<(), LaunchError>,
    pub resources: Result<TmaResources, LaunchError>,
}

/// Why a captured launch may not be replayed; the first rule broken wins.
/// SM120 replays bind the module again.
pub open spec fn replay_fault(prepared: TmaPreparedLaunch, facts: TmaReplayFacts) -> Option<
    LaunchError,
> {
    let texts = tma_replay_texts(prepared.family);
    match (
        prepared_binding_fault(prepared, facts.stream_handle, facts.module),
        tma_binding::sm120_binding(facts.module),
    ) {
        (Some(error), _) => Some(error),
        (None, bound) => if prepared.family == TmaFamily::Sm120 && bound is Err {
            Some(bound->Err_0)
        } else if prepared.family == TmaFamily::Sm120 && bound->Ok_0 != prepared.maps.binding {
            Some(LaunchError::Rejected(texts.0))
        } else {
            match (facts.live_allocations, facts.resources) {
                (Err(error), _) => Some(error),
                (Ok(_), Err(error)) => Some(error),
                (Ok(_), Ok(live)) => if live.allocations != prepared.resources.allocations {
                    Some(LaunchError::Rejected(texts.1))
                } else if live.digest != prepared.identity.resources_digest {
                    Some(LaunchError::Rejected(texts.2))
                } else {
                    None
                },
            }
        },
    }
}

fn check_replay(prepared: &TmaPreparedLaunch, facts: &TmaReplayFacts) -> (result: Result<
    (),
    LaunchError,
>)
    ensures
        result == (match replay_fault(*prepared, *facts) {
            Some(error) => Err::<(), LaunchError>(error),
            None => Ok::<(), LaunchError>(()),
        }),
{
    let texts = tma_replay_texts(prepared.family);
    validate_tma_prepared_binding(prepared, facts.stream_handle, &facts.module)?;
    if prepared.family == TmaFamily::Sm120 {
        let bound = family_map_binding(TmaFamily::Sm120, &facts.module)?;
        if !bound.same(&prepared.maps.binding) {
            return Err(LaunchError::Rejected(texts.0));
        }
    }
    match facts.live_allocations {
        Ok(_) => {},
        Err(error) => {
            return Err(error);
        },
    }
    let live = match facts.resources {
        Err(error) => {
            return Err(error);
        },
        Ok(live) => live,
    };
    if !same_digest(&live.allocations, &prepared.resources.allocations) {
        return Err(LaunchError::Rejected(texts.1));
    }
    if !same_digest(&live.digest, &prepared.identity.resources_digest) {
        return Err(LaunchError::Rejected(texts.2));
    }
    Ok(())
}

/// Accepts a captured SM100 launch for replay: a reused pointer, another
/// generation of an allocation or another module is refused.
pub fn validate_sm100_graph_replay(prepared: &TmaPreparedLaunch, facts: &TmaReplayFacts) -> (result:
    Result<(), LaunchError>)
    requires
        prepared.family == TmaFamily::Sm100,
    ensures
        result == (match replay_fault(*prepared, *facts) {
            Some(error) => Err::<(), LaunchError>(error),
            None => Ok::<(), LaunchError>(()),
        }),
{
    check_replay(prepared, facts)
}

/// The text of an SM120 graph whose launch set changed.
pub const SM120_REPLAY_SET_CHANGED: &'static str =
    "SM120 graph replay launch set changed since capture";

/// The identity that a replayed launch would be sealed under.
pub open spec fn live_identity(prepared: TmaPreparedLaunch, facts: TmaReplayFacts) -> TmaRouteIdentity {
    let bound = tma_binding::sm120_binding(facts.module)->Ok_0;
    TmaRouteIdentity {
        artifact: bound.artifact,
        compiler: bound.compiler,
        device: bound.device,
        device_caps: bound.device_caps,
        tensor_maps_digest: prepared.maps.identity,
        resources_digest: facts.resources->Ok_0.digest,
        ..prepared.identity
    }
}

/// How the replay of an SM120 launch is decided: its launch set is built
/// again from the live identity.
pub open spec fn sm120_replayed<
    Build: FnOnce(TmaRouteIdentity) -> Result<TmaLaunchSet, LaunchError>,
>(
    prepared: TmaPreparedLaunch,
    facts: TmaReplayFacts,
    build_launch_set: Build,
    result: Result<(), LaunchError>,
) -> bool {
    match replay_fault(prepared, facts) {
        Some(error) => result == Err::<(), LaunchError>(error),
        None => exists|built: Result<TmaLaunchSet, LaunchError>|
            #![trigger call_ensures(build_launch_set, (live_identity(prepared, facts),), built)]
            call_ensures(build_launch_set, (live_identity(prepared, facts),), built) && result == (
            match built {
                Err(error) => Err::<(), LaunchError>(error),
                Ok(set) => if prepared.launch_set == Some(set) {
                    Ok::<(), LaunchError>(())
                } else {
                    Err::<(), LaunchError>(LaunchError::Rejected(SM120_REPLAY_SET_CHANGED))
                },
            }),
    }
}

/// The launch set of a replayed launch may be built again, where nothing
/// else refuses the replay.
pub open spec fn rebuilds<Build: FnOnce(TmaRouteIdentity) -> Result<TmaLaunchSet, LaunchError>>(
    prepared: TmaPreparedLaunch,
    facts: TmaReplayFacts,
    build_launch_set: Build,
) -> bool {
    replay_fault(prepared, facts) is None ==> call_requires(
        build_launch_set,
        (live_identity(prepared, facts),),
    )
}

/// Accepts a captured SM120 launch for replay. Pointer reuse, changes of an
/// allocation's generation, changes of the module and stale revisions are
/// refused.
pub fn validate_sm120_graph_replay<
    Build: FnOnce(TmaRouteIdentity) -> Result<TmaLaunchSet, LaunchError>,
>(prepared: &TmaPreparedLaunch, facts: &TmaReplayFacts, build_launch_set: Build) -> (result: Result<
    (),
    LaunchError,
>)
    requires
        prepared.family == TmaFamily::Sm120,
        rebuilds(*prepared, *facts, build_launch_set),
    ensures
        sm120_replayed(*prepared, *facts, build_launch_set, result),
{
    check_replay(prepared, facts)?;
    let bound = family_map_binding(TmaFamily::Sm120, &facts.module)?;
    let live = match facts.resources {
        Err(error) => {
            return Err(error);
        },
        Ok(live) => live,
    };
    let identity = TmaRouteIdentity {
        artifact: bound.artifact,
        compiler: bound.compiler,
        device: bound.device,
        device_caps: bound.device_caps,
        tensor_maps_digest: prepared.maps.identity,
        resources_digest: live.digest,
        ..prepared.identity
    };
    assert(identity == live_identity(*prepared, *facts));
    match build_launch_set(identity) {
        Err(error) => Err(error),
        Ok(set) => {
            let current = match &prepared.launch_set {
                Some(captured) => captured.same(&set),
                None => false,
            };
            if !current {
                return Err(LaunchError::Rejected(SM120_REPLAY_SET_CHANGED));
            }
            Ok(())
        },
    }
}

/// A sealed launch that passes the checks of a replay runs under exactly the
/// identity that it was captured under.
pub proof fn replays_keep_the_captured_identity(
    prepared: TmaPreparedLaunch,
    facts: TmaReplayFacts,
)
    requires
        prepared.family == TmaFamily::Sm120,
        prepared.sealed(),
        replay_fault(prepared, facts) is None,
    ensures
        live_identity(prepared, facts) == prepared.identity,
{
}

/// A launch that was just prepared may be replayed where it was prepared.
pub proof fn prepared_launches_are_current(
    prepared: TmaPreparedLaunch,
    forced: TmaForcedFacts,
    facts: TmaReplayFacts,
)
    requires
        prepared.family != TmaFamily::Sm90a,
        forced_identity(
            prepared.family,
            prepared.route,
            prepared.maps,
            prepared.operands,
            forced,
        ) == Ok::<TmaRouteIdentity, LaunchError>(prepared.identity),
        forced.resources == Ok::<TmaResources, LaunchError>(prepared.resources),
        prepared.family == TmaFamily::Sm120 ==> prepared.stream_handle == Some(
            facts.stream_handle,
        ),
        facts.module == forced.module,
        facts.live_allocations == forced.live_allocations,
        facts.resources == forced.resources,
    ensures
        replay_fault(prepared, facts) is None,
{
}

/// The launch of a prepared SM100 or SM120 route, or why there is none; the
/// first rule broken wins. `kernel` is the route's kernel now, `loaded` says
/// whether the module has it, and `buffers` are the fixed workspaces.
pub open spec fn prepared_step(
    prepared: TmaPreparedLaunch,
    facts: TmaLaunchFacts,
) -> Result<LaunchStep, LaunchError> {
    let texts = tma_texts(prepared.family);
    match (
        prepared_binding_fault(prepared, facts.stream_handle, facts.module),
        facts.spec,
    ) {
        (Some(error), _) => Err(error),
        (None, Err(error)) => Err(error),
        (None, Ok(kernel)) => if kernel.symbol@ != prepared.identity.symbol@ {
            Err(LaunchError::Rejected(texts.symbol_changed))
        } else if !facts.loaded {
            Err(LaunchError::Unavailable(texts.kernel_missing, kernel.symbol))
        } else {
            match tma::tma_config(
                prepared.family,
                prepared.route,
                facts.module.multiprocessor_count,
                kernel.threads,
                kernel.dynamic_shared_bytes,
            ) {
                Err(error) => Err(error),
                Ok(config) => match launch_workspace(prepared, kernel, config, facts) {
                    Err(error) => Err(error),
                    Ok(workspace) => Ok(
                        LaunchStep {
                            symbol: kernel.symbol,
                            config,
                            args: tma::tma_args(
                                prepared.family,
                                prepared.operands,
                                prepared.maps.a,
                                prepared.maps.b,
                                prepared.params@,
                                workspace,
                            ),
                        },
                    ),
                },
            }
        },
    }
}

/// What launching a prepared route finds: the stream and the modules, the
/// route's kernel, whether it is loaded, and the fixed workspaces.
#[derive(Clone, Copy, Debug, PartialEq, Eq)]
pub struct TmaLaunchFacts {
    pub stream_handle: u64,
    pub module: TmaModuleFacts,
    pub spec: Result<TmaKernelSpec, LaunchError>,
    pub loaded: bool,
    pub limits: FoldLimits,
    pub buffers: Result<(u64, u64), LaunchError>,
}

/// The workspaces of a launch: SM120 stream-K launches take the partial
/// slabs and the flags, and the grid must fit them.
pub open spec fn launch_workspace(
    prepared: TmaPreparedLaunch,
    kernel: TmaKernelSpec,
    config: LaunchConfig,
    facts: TmaLaunchFacts,
) -> Result<Option<(u64, u64)>, LaunchError> {
    if prepared.family != TmaFamily::Sm120 {
        Ok(None)
    } else {
        match tma::sm120_workspace_fault(
            prepared.route,
            kernel.threads,
            config.grid_dim.0,
            facts.limits,
        ) {
            Some(error) => Err(error),
            None => if prepared.route.physical.schedule != TmaSchedule::StreamK {
                Ok(None)
            } else {
                match facts.buffers {
                    Err(error) => Err(error),
                    Ok(buffers) => Ok(Some(buffers)),
                }
            },
        }
    }
}

/// Looks up the workspaces of a launch.
pub fn find_launch_workspace(
    prepared: &TmaPreparedLaunch,
    kernel: TmaKernelSpec,
    config: LaunchConfig,
    facts: &TmaLaunchFacts,
) -> (result: Result<Option<(u64, u64)>, LaunchError>)
    ensures
        result == launch_workspace(*prepared, kernel, config, *facts),
{
    if prepared.family != TmaFamily::Sm120 {
        return Ok(None);
    }
    let taken = sm120_streamk_workspace(
        prepared.route,
        kernel.threads,
        config.grid_dim.0,
        facts.limits,
    )?;
    if !taken {
        return Ok(None);
    }
    match facts.buffers {
        Err(error) => Err(error),
        Ok(buffers) => Ok(Some(buffers)),
    }
}

/// Builds the launch of a prepared SM100 or SM120 route.
pub fn prepared_launch(prepared: &TmaPreparedLaunch, facts: &TmaLaunchFacts) -> (result: Result<
    KernelLaunch,
    LaunchError,
>)
    requires
        prepared.route.wf(),
    ensures
        builds(result, prepared_step(*prepared, *facts)),
{
    let texts = tma_texts(prepared.family);
    validate_tma_prepared_binding(prepared, facts.stream_handle, &facts.module)?;
    let kernel = match facts.spec {
        Err(error) => {
            return Err(error);
        },
        Ok(kernel) => kernel,
    };
    if !same_text(kernel.symbol, prepared.identity.symbol) {
        return Err(LaunchError::Rejected(texts.symbol_changed));
    }
    if !facts.loaded {
        return Err(LaunchError::Unavailable(texts.kernel_missing, kernel.symbol));
    }
    let config = tma_launch_config(
        prepared.family,
        prepared.route,
        facts.module.multiprocessor_count,
        kernel.threads,
        kernel.dynamic_shared_bytes,
    )?;
    let workspace = find_launch_workspace(prepared, kernel, config, facts)?;
    let args = tma_arguments(
        prepared.family,
        prepared.operands,
        &prepared.maps,
        prepared.params,
        workspace,
    );
    Ok(KernelLaunch { symbol: kernel.symbol, config, args })
}

/// A launch under an identity.
pub open spec fn launched(
    result: Result<(KernelLaunch, TmaRouteIdentity), LaunchError>,
    expected: Result<LaunchStep, LaunchError>,
    identity: TmaRouteIdentity,
) -> bool {
    match (result, expected) {
        (Ok(pair), Ok(step)) => pair.0@ == step && pair.1 == identity,
        (Err(error), Err(reason)) => error == reason,
        _ => false,
    }
}

/// Launches a prepared SM100 route and returns the identity that it ran
/// under.
pub fn launch_sm100_tcgen_prepared(prepared: &TmaPreparedLaunch, facts: &TmaLaunchFacts) -> (result:
    Result<(KernelLaunch, TmaRouteIdentity), LaunchError>)
    requires
        prepared.family == TmaFamily::Sm100,
        prepared.route.wf(),
    ensures
        launched(result, prepared_step(*prepared, *facts), prepared.identity),
{
    let launch = prepared_launch(prepared, facts)?;
    Ok((launch, prepared.identity))
}

/// Launches a prepared SM120 route without changing its plan and returns the
/// identity that it ran under.
pub fn launch_sm120_tma_prepared(prepared: &TmaPreparedLaunch, facts: &TmaLaunchFacts) -> (result:
    Result<(KernelLaunch, TmaRouteIdentity), LaunchError>)
    requires
        prepared.family == TmaFamily::Sm120,
        prepared.route.wf(),
    ensures
        launched(result, prepared_step(*prepared, *facts), prepared.identity),
{
    let launch = prepared_launch(prepared, facts)?;
    Ok((launch, prepared.identity))
}

} // verus!
