//! Automatic tensor-map launches: the route that serves a product, its
//! eager launch and the graph node that replays it.

use crate::control;
use crate::control::{
    capture_arguments, PhysicalGraphRecord, PreparedTriadPhysicalGraphLaunch,
    PreparedTriadPhysicalGraphSequence,
};
use crate::error::LaunchError;
use crate::identity::{DeviceCaps, PolicyDtype, ResolvedGemmRoute};
use crate::kernel::{KernelArg, KernelLaunch, LaunchStep};
use crate::tma;
use crate::tma::{
    sm90a_arguments, tma_arguments, tma_policy_dtype, TmaFamily, TmaForcedRoute, TmaLaunchOperands,
    TmaPreparedMaps,
};
use crate::tma_forced;
use crate::tma_forced::{
    find_launch_workspace, prepared_launch, sm90a_forced_identity, sm90a_launch,
    validate_sm100_graph_replay, validate_sm120_graph_replay, validate_sm90a_graph_replay,
    TmaForcedFacts, TmaKernelSpec, TmaLaunchFacts, TmaLaunchSet, TmaPreparedLaunch, TmaReplayFacts,
    TmaRouteIdentity, SM90A_REPLAY_CHANGED,
};
use vstd::prelude::*;

verus! {

/// What a family needs to be there before a route is looked for.
#[derive(Clone, Copy, Debug, PartialEq, Eq, Structural)]
pub struct TmaAvailability {
    pub module: bool,
    pub caps: bool,
    pub target: bool,
}

/// Why a family is not there: SM90a needs its module, SM100 its target, and
/// SM120 the capabilities of its board and its target.
#[verifier::allow_in_spec]
pub fn tma_absence(family: TmaFamily, available: TmaAvailability) -> Option<&'static str>
    returns
        (match family {
            TmaFamily::Sm90a => if !available.module {
                Some("prepared SM90a graph route has no module")
            } else {
                None::<&'static str>
            },
            TmaFamily::Sm100 => if !available.target {
                Some("prepared SM100 graph route has no module target")
            } else {
                None::<&'static str>
            },
            TmaFamily::Sm120 => if !available.caps {
                Some("prepared SM120 graph route has no device capabilities")
            } else if !available.target {
                Some("prepared SM120 graph route has no module target")
            } else {
                None::<&'static str>
            },
        }),
{
    match family {
        TmaFamily::Sm90a => if !available.module {
            Some("prepared SM90a graph route has no module")
        } else {
            None
        },
        TmaFamily::Sm100 => if !available.target {
            Some("prepared SM100 graph route has no module target")
        } else {
            None
        },
        TmaFamily::Sm120 => if !available.caps {
            Some("prepared SM120 graph route has no device capabilities")
        } else if !available.target {
            Some("prepared SM120 graph route has no module target")
        } else {
            None
        },
    }
}

/// The route that an eager launch takes, if the family serves the product.
/// Every other product declines to the portable kernels.
#[verifier::allow_in_spec]
pub fn tma_auto_route(
    family: TmaFamily,
    available: TmaAvailability,
    resolved: Option<TmaForcedRoute>,
) -> Option<TmaForcedRoute>
    returns
        (match tma_absence(family, available) {
            Some(_) => None::<TmaForcedRoute>,
            None => resolved,
        }),
{
    match tma_absence(family, available) {
        Some(_) => None,
        None => resolved,
    }
}

/// Why a family leaves a product to the portable kernels.
#[derive(Clone, Copy, Debug, PartialEq, Eq, Structural)]
pub enum TmaDecline {
    NoCaps,
    NoTarget,
    NoRoute,
}

/// Which decline is reported. A family whose module is not there declines in
/// silence. On a board of the SM120 family, which `own_board` says, every
/// SM120 decline is reported; off it, none is.
#[verifier::allow_in_spec]
pub fn tma_decline(
    family: TmaFamily,
    own_board: bool,
    available: TmaAvailability,
    resolved: Option<TmaForcedRoute>,
) -> Option<TmaDecline>
    returns
        (match family {
            TmaFamily::Sm120 => if !own_board {
                None::<TmaDecline>
            } else if !available.caps {
                Some(TmaDecline::NoCaps)
            } else if !available.target {
                Some(TmaDecline::NoTarget)
            } else if resolved.is_none() {
                Some(TmaDecline::NoRoute)
            } else {
                None
            },
            _ => if tma_absence(family, available).is_none() && resolved.is_none() {
                Some(TmaDecline::NoRoute)
            } else {
                None
            },
        }),
{
    match family {
        TmaFamily::Sm120 => if !own_board {
            None
        } else if !available.caps {
            Some(TmaDecline::NoCaps)
        } else if !available.target {
            Some(TmaDecline::NoTarget)
        } else if resolved.is_none() {
            Some(TmaDecline::NoRoute)
        } else {
            None
        },
        _ => if tma_absence(family, available).is_none() && resolved.is_none() {
            Some(TmaDecline::NoRoute)
        } else {
            None
        },
    }
}

/// Only products that decline are reported, and on its own board SM120
/// reports each of them.
pub proof fn reported_products_decline(
    family: TmaFamily,
    own_board: bool,
    available: TmaAvailability,
    resolved: Option<TmaForcedRoute>,
)
    ensures
        tma_decline(family, own_board, available, resolved) is Some ==> tma_auto_route(
            family,
            available,
            resolved,
        ) is None,
        family == TmaFamily::Sm120 && own_board && tma_auto_route(
            family,
            available,
            resolved,
        ) is None ==> tma_decline(family, own_board, available, resolved) is Some,
{
}

/// A prepared launch is one of the route that serves the product, wherever
/// the family serves it.
pub open spec fn on_the_served_route(
    family: TmaFamily,
    facts: TmaAutoFacts,
    route: TmaForcedRoute,
) -> bool {
    match tma_auto_route(family, facts.available, facts.qualified) {
        Some(served) => route == served,
        None => true,
    }
}

/// The text of a product that is no longer served.
#[verifier::allow_in_spec]
pub fn tma_unqualified_text(family: TmaFamily) -> &'static str
    returns
        (match family {
            TmaFamily::Sm90a => "prepared SM90a graph request is no longer qualified",
            TmaFamily::Sm100 => "prepared SM100 graph request is no longer qualified",
            TmaFamily::Sm120 => "prepared SM120 graph request is no longer qualified",
        }),
{
    match family {
        TmaFamily::Sm90a => "prepared SM90a graph request is no longer qualified",
        TmaFamily::Sm100 => "prepared SM100 graph request is no longer qualified",
        TmaFamily::Sm120 => "prepared SM120 graph request is no longer qualified",
    }
}

/// The text of a launch that was not prepared.
#[verifier::allow_in_spec]
pub fn tma_missing_text(family: TmaFamily) -> &'static str
    returns
        (match family {
            TmaFamily::Sm90a =>
                "prepared SM90a graph cache entry is missing; run eager warmup again",
            TmaFamily::Sm100 =>
                "prepared SM100 graph cache entry is missing; run eager warmup again",
            TmaFamily::Sm120 =>
                "prepared SM120 graph cache entry is missing; run eager warmup again",
        }),
{
    match family {
        TmaFamily::Sm90a => "prepared SM90a graph cache entry is missing; run eager warmup again",
        TmaFamily::Sm100 => "prepared SM100 graph cache entry is missing; run eager warmup again",
        TmaFamily::Sm120 => "prepared SM120 graph cache entry is missing; run eager warmup again",
    }
}

/// The route that a graph replays: a graph never declines, it is refused.
#[verifier::allow_in_spec]
pub fn tma_graph_route(
    family: TmaFamily,
    available: TmaAvailability,
    resolved: Option<TmaForcedRoute>,
) -> Result<TmaForcedRoute, LaunchError>
    returns
        (match tma_absence(family, available) {
            Some(text) => Err::<TmaForcedRoute, LaunchError>(LaunchError::Rejected(text)),
            None => match resolved {
                None => Err::<TmaForcedRoute, LaunchError>(
                    LaunchError::Rejected(tma_unqualified_text(family)),
                ),
                Some(route) => Ok::<TmaForcedRoute, LaunchError>(route),
            },
        }),
{
    match tma_absence(family, available) {
        Some(text) => Err(LaunchError::Rejected(text)),
        None => match resolved {
            None => Err(LaunchError::Rejected(tma_unqualified_text(family))),
            Some(route) => Ok(route),
        },
    }
}

/// A graph replays exactly the routes that eager launches take.
pub proof fn graphs_replay_eager_routes(
    family: TmaFamily,
    available: TmaAvailability,
    resolved: Option<TmaForcedRoute>,
)
    ensures
        tma_graph_route(family, available, resolved) matches Ok(route) ==> tma_auto_route(
            family,
            available,
            resolved,
        ) == Some(route),
        tma_graph_route(family, available, resolved) is Err ==> tma_auto_route(
            family,
            available,
            resolved,
        ) is None,
{
}

/// What a kernel that a module no longer has is called.
#[verifier::allow_in_spec]
pub fn tma_symbol_text(family: TmaFamily) -> &'static str
    returns
        (match family {
            TmaFamily::Sm90a => "qualified SM90a symbol",
            TmaFamily::Sm100 => "qualified SM100 symbol",
            TmaFamily::Sm120 => "qualified SM120 symbol",
        }),
{
    match family {
        TmaFamily::Sm90a => "qualified SM90a symbol",
        TmaFamily::Sm100 => "qualified SM100 symbol",
        TmaFamily::Sm120 => "qualified SM120 symbol",
    }
}

/// What looking for a route finds: what is there, the route that was
/// measured for the product, the capabilities of the board, and the resolved
/// route of the launch. SM120 does not ask for capabilities.
#[derive(Clone, Copy, Debug, PartialEq, Eq)]
pub struct TmaAutoFacts {
    pub available: TmaAvailability,
    pub qualified: Option<TmaForcedRoute>,
    pub caps: Result<DeviceCaps, LaunchError>,
    pub resolved: Result<ResolvedGemmRoute, LaunchError>,
}

/// An eager launch: what is enqueued, how it is recorded and the route that
/// it took.
#[derive(Debug, PartialEq, Eq)]
pub struct TmaAutoLaunch {
    pub launch: KernelLaunch,
    pub record: PhysicalGraphRecord,
    pub route: TmaForcedRoute,
}

/// How a launch on a resolved route is recorded.
pub open spec fn auto_record(
    logical_dtype: PolicyDtype,
    route: ResolvedGemmRoute,
) -> PhysicalGraphRecord {
    PhysicalGraphRecord { logical_dtype, physical_resources: None, route }
}

/// What an eager launch needs before its launch is built: the route, the
/// recorded capabilities, the prepared launch, the resolved route and the
/// element type, in this order.
pub open spec fn auto_parts<P>(
    family: TmaFamily,
    facts: TmaAutoFacts,
    route: TmaForcedRoute,
    prepared: Result<P, LaunchError>,
) -> Result<(P, PhysicalGraphRecord), LaunchError> {
    if family != TmaFamily::Sm120 && facts.caps is Err {
        Err(facts.caps->Err_0)
    } else {
        match (prepared, facts.resolved, tma_policy_dtype(family, route.dtype)) {
            (Err(error), _, _) => Err(error),
            (Ok(_), Err(error), _) => Err(error),
            (Ok(_), Ok(_), Err(error)) => Err(error),
            (Ok(launch), Ok(resolved), Ok(dtype)) => Ok((launch, auto_record(dtype, resolved))),
        }
    }
}

fn find_auto_parts<'a, P>(
    family: TmaFamily,
    facts: &TmaAutoFacts,
    route: TmaForcedRoute,
    prepared: Result<&'a P, LaunchError>,
) -> (result: Result<(&'a P, PhysicalGraphRecord), LaunchError>)
    ensures
        result == auto_parts(family, *facts, route, prepared),
{
    if family != TmaFamily::Sm120 {
        match facts.caps {
            Err(error) => {
                return Err(error);
            },
            Ok(_) => {},
        }
    }
    let launch = match prepared {
        Err(error) => {
            return Err(error);
        },
        Ok(launch) => launch,
    };
    let resolved = match facts.resolved {
        Err(error) => {
            return Err(error);
        },
        Ok(resolved) => resolved,
    };
    let logical_dtype = tma_policy_dtype(family, route.dtype)?;
    Ok(
        (
            launch,
            PhysicalGraphRecord { logical_dtype, physical_resources: None, route: resolved },
        ),
    )
}

/// An eager launch ends as described: it declines, it is refused, or it
/// enqueues a step under a record.
pub open spec fn auto_launched(
    result: Result<Option<TmaAutoLaunch>, LaunchError>,
    route: TmaForcedRoute,
    record: PhysicalGraphRecord,
    expected: Result<LaunchStep, LaunchError>,
) -> bool {
    match (result, expected) {
        (Ok(Some(taken)), Ok(step)) => taken.launch@ == step && taken.record == record
            && taken.route == route,
        (Err(error), Err(reason)) => error == reason,
        _ => false,
    }
}

/// How an eager SM100 or SM120 launch ends.
pub open spec fn auto_taken(
    family: TmaFamily,
    facts: TmaAutoFacts,
    prepared: Result<TmaPreparedLaunch, LaunchError>,
    launch: TmaLaunchFacts,
    result: Result<Option<TmaAutoLaunch>, LaunchError>,
) -> bool {
    match tma_auto_route(family, facts.available, facts.qualified) {
        None => result == Ok::<Option<TmaAutoLaunch>, LaunchError>(None),
        Some(route) => match auto_parts(family, facts, route, prepared) {
            Err(error) => result == Err::<Option<TmaAutoLaunch>, LaunchError>(error),
            Ok((prepared, record)) => auto_launched(
                result,
                route,
                record,
                tma_forced::prepared_step(prepared, launch),
            ),
        },
    }
}

/// A prepared launch without its reference.
pub open spec fn cached<P>(prepared: Result<&P, LaunchError>) -> Result<P, LaunchError> {
    match prepared {
        Ok(launch) => Ok(*launch),
        Err(error) => Err(error),
    }
}

fn take_auto(
    family: TmaFamily,
    facts: &TmaAutoFacts,
    prepared: Result<&TmaPreparedLaunch, LaunchError>,
    launch: &TmaLaunchFacts,
) -> (result: Result<Option<TmaAutoLaunch>, LaunchError>)
    requires
        prepared matches Ok(prepared) ==> prepared.route.wf() && prepared.family == family
            && on_the_served_route(family, *facts, prepared.route),
    ensures
        auto_taken(family, *facts, cached(prepared), *launch, result),
        result matches Ok(Some(taken)) ==> prepared matches Ok(prepared) && taken.route
            == prepared.route,
{
    let route = match tma_auto_route(family, facts.available, facts.qualified) {
        None => {
            return Ok(None);
        },
        Some(route) => route,
    };
    let (found, record) = find_auto_parts(family, facts, route, prepared)?;
    let built = prepared_launch(found, launch)?;
    Ok(Some(TmaAutoLaunch { launch: built, record, route }))
}

/// The automatic SM100 launch: a measured product runs its prepared launch,
/// every other one declines to the portable kernels. `prepared` is what the
/// cache gave.
pub fn launch_sm100_auto(
    facts: &TmaAutoFacts,
    prepared: Result<&TmaPreparedLaunch, LaunchError>,
    launch: &TmaLaunchFacts,
) -> (result: Result<Option<TmaAutoLaunch>, LaunchError>)
    requires
        prepared matches Ok(prepared) ==> prepared.route.wf() && prepared.family
            == TmaFamily::Sm100 && on_the_served_route(TmaFamily::Sm100, *facts, prepared.route),
    ensures
        auto_taken(TmaFamily::Sm100, *facts, cached(prepared), *launch, result),
        result matches Ok(Some(taken)) ==> prepared matches Ok(prepared) && taken.route
            == prepared.route,
{
    take_auto(TmaFamily::Sm100, facts, prepared, launch)
}

/// The automatic SM120 launch: a measured product runs its prepared launch,
/// every other one declines to the portable kernels. `prepared` is what the
/// cache gave.
pub fn launch_sm120_auto(
    facts: &TmaAutoFacts,
    prepared: Result<&TmaPreparedLaunch, LaunchError>,
    launch: &TmaLaunchFacts,
) -> (result: Result<Option<TmaAutoLaunch>, LaunchError>)
    requires
        prepared matches Ok(prepared) ==> prepared.route.wf() && prepared.family
            == TmaFamily::Sm120 && on_the_served_route(TmaFamily::Sm120, *facts, prepared.route),
    ensures
        auto_taken(TmaFamily::Sm120, *facts, cached(prepared), *launch, result),
        result matches Ok(Some(taken)) ==> prepared matches Ok(prepared) && taken.route
            == prepared.route,
{
    take_auto(TmaFamily::Sm120, facts, prepared, launch)
}

/// A prepared SM90a launch with the identity that it was sealed under.
#[derive(Clone, Copy, Debug, PartialEq, Eq)]
pub struct Sm90aPreparedLaunch {
    pub route: TmaForcedRoute,
    pub maps: TmaPreparedMaps,
    pub operands: TmaLaunchOperands,
    pub identity: TmaRouteIdentity,
}

/// The text of an SM90a launch whose identity changed.
pub const SM90A_LAUNCH_CHANGED: &'static str =
    "SM90a automatic launch route identity changed since preparation";

/// The launch of a prepared SM90a route: sealed again, it must have the
/// identity that it was prepared under.
pub open spec fn sm90a_prepared_step(
    prepared: Sm90aPreparedLaunch,
    forced: TmaForcedFacts,
    loaded: bool,
) -> Result<LaunchStep, LaunchError> {
    match tma_forced::sm90a_replay(
        prepared.route,
        prepared.maps,
        prepared.operands,
        forced,
        prepared.identity,
        SM90A_LAUNCH_CHANGED,
    ) {
        Err(error) => Err(error),
        Ok(_) => tma_forced::sm90a_step(
            prepared.route,
            prepared.maps,
            prepared.operands,
            forced.spec->Ok_0,
            loaded,
        ),
    }
}

fn sm90a_prepared_launch(
    prepared: &Sm90aPreparedLaunch,
    forced: &TmaForcedFacts,
    loaded: bool,
) -> (result: Result<KernelLaunch, LaunchError>)
    ensures
        tma_forced::builds(result, sm90a_prepared_step(*prepared, *forced, loaded)),
{
    let live = sm90a_forced_identity(
        prepared.route,
        &prepared.maps,
        prepared.operands,
        forced,
    )?;
    prepared.identity.ensure_current(&live, SM90A_LAUNCH_CHANGED)?;
    match forced.spec {
        Err(error) => Err(error),
        Ok(kernel) => sm90a_launch(
            prepared.route,
            &prepared.maps,
            prepared.operands,
            kernel,
            loaded,
        ),
    }
}

/// The automatic SM90a launch: a product with a route runs its prepared
/// launch, every other one declines to the portable kernels. `prepared` is
/// what the cache gave.
pub fn launch_sm90a_auto(
    facts: &TmaAutoFacts,
    prepared: Result<&Sm90aPreparedLaunch, LaunchError>,
    forced: &TmaForcedFacts,
    loaded: bool,
) -> (result: Result<Option<TmaAutoLaunch>, LaunchError>)
    requires
        prepared matches Ok(prepared) ==> on_the_served_route(
            TmaFamily::Sm90a,
            *facts,
            prepared.route,
        ),
    ensures
        result matches Ok(Some(taken)) ==> prepared matches Ok(prepared) && taken.route
            == prepared.route,
        match tma_auto_route(TmaFamily::Sm90a, facts.available, facts.qualified) {
            None => result == Ok::<Option<TmaAutoLaunch>, LaunchError>(None),
            Some(route) => match auto_parts(TmaFamily::Sm90a, *facts, route, cached(prepared)) {
                Err(error) => result == Err::<Option<TmaAutoLaunch>, LaunchError>(error),
                Ok((prepared, record)) => auto_launched(
                    result,
                    route,
                    record,
                    sm90a_prepared_step(prepared, *forced, loaded),
                ),
            },
        },
{
    let route = match tma_auto_route(TmaFamily::Sm90a, facts.available, facts.qualified) {
        None => {
            return Ok(None);
        },
        Some(route) => route,
    };
    let (found, record) = find_auto_parts(TmaFamily::Sm90a, facts, route, prepared)?;
    let built = sm90a_prepared_launch(found, forced, loaded)?;
    Ok(Some(TmaAutoLaunch { launch: built, record, route }))
}

/// A product that no family serves enqueues nothing and is not refused.
pub proof fn unserved_products_decline(
    family: TmaFamily,
    facts: TmaAutoFacts,
    prepared: Result<TmaPreparedLaunch, LaunchError>,
    launch: TmaLaunchFacts,
    result: Result<Option<TmaAutoLaunch>, LaunchError>,
)
    requires
        auto_taken(family, facts, prepared, launch, result),
        facts.qualified is None || tma_absence(family, facts.available) is Some,
    ensures
        result == Ok::<Option<TmaAutoLaunch>, LaunchError>(None),
{
}

/// A graph node on a resolved route.
pub open spec fn tma_node(
    node: PreparedTriadPhysicalGraphLaunch,
    record: PhysicalGraphRecord,
    args: Seq<KernelArg>,
) -> bool {
    &&& node.symbol == record.route.symbol
    &&& node.config == record.route.launch.config()
    &&& node.record == record
    &&& node.arguments.arguments() == control::captured_bytes(args)
}

fn build_tma_node(record: PhysicalGraphRecord, args: &Vec<KernelArg>) -> (sequence:
    PreparedTriadPhysicalGraphSequence)
    requires
        args@.len() <= 16,
    ensures
        sequence.launches@.len() == 1,
        tma_node(sequence.launches@[0], record, args@),
{
    let node = PreparedTriadPhysicalGraphLaunch {
        symbol: record.route.symbol,
        config: record.route.launch.config(),
        record,
        arguments: capture_arguments(args),
    };
    PreparedTriadPhysicalGraphSequence { launches: vec![node] }
}

/// A graph is one node, or it is refused.
pub open spec fn graph_is(
    result: Result<PreparedTriadPhysicalGraphSequence, LaunchError>,
    record: PhysicalGraphRecord,
    args: Seq<KernelArg>,
) -> bool {
    &&& result is Ok
    &&& result->Ok_0.launches@.len() == 1
    &&& tma_node(result->Ok_0.launches@[0], record, args)
}

/// What a graph starts from: a route, the recorded capabilities and the
/// launch that an eager run left in the cache, in this order.
pub open spec fn graph_start<P>(
    family: TmaFamily,
    facts: TmaAutoFacts,
    prepared: Option<P>,
) -> Result<(TmaForcedRoute, P), LaunchError> {
    match tma_graph_route(family, facts.available, facts.qualified) {
        Err(error) => Err(error),
        Ok(route) => if family != TmaFamily::Sm120 && facts.caps is Err {
            Err(facts.caps->Err_0)
        } else {
            match prepared {
                None => Err(LaunchError::Rejected(tma_missing_text(family))),
                Some(launch) => Ok((route, launch)),
            }
        },
    }
}

fn start_graph<'a, P>(
    family: TmaFamily,
    facts: &TmaAutoFacts,
    prepared: Option<&'a P>,
) -> (result: Result<(TmaForcedRoute, &'a P), LaunchError>)
    ensures
        result == graph_start(family, *facts, prepared),
{
    let route = tma_graph_route(family, facts.available, facts.qualified)?;
    if family != TmaFamily::Sm120 {
        match facts.caps {
            Err(error) => {
                return Err(error);
            },
            Ok(_) => {},
        }
    }
    match prepared {
        None => Err(LaunchError::Rejected(tma_missing_text(family))),
        Some(launch) => Ok((route, launch)),
    }
}

/// How a node is recorded: the resolved route, the element type and the
/// loaded kernel are looked at in this order.
pub open spec fn graph_record(
    family: TmaFamily,
    facts: TmaAutoFacts,
    route: TmaForcedRoute,
    loaded: bool,
) -> Result<PhysicalGraphRecord, LaunchError> {
    match (facts.resolved, tma_policy_dtype(family, route.dtype)) {
        (Err(error), _) => Err(error),
        (Ok(_), Err(error)) => Err(error),
        (Ok(resolved), Ok(dtype)) => if !loaded {
            Err(LaunchError::Unavailable(tma_symbol_text(family), resolved.symbol))
        } else {
            Ok(auto_record(dtype, resolved))
        },
    }
}

fn record_graph(
    family: TmaFamily,
    facts: &TmaAutoFacts,
    route: TmaForcedRoute,
    loaded: bool,
) -> (result: Result<PhysicalGraphRecord, LaunchError>)
    ensures
        result == graph_record(family, *facts, route, loaded),
{
    let resolved = match facts.resolved {
        Err(error) => {
            return Err(error);
        },
        Ok(resolved) => resolved,
    };
    let logical_dtype = tma_policy_dtype(family, route.dtype)?;
    if !loaded {
        return Err(LaunchError::Unavailable(tma_symbol_text(family), resolved.symbol));
    }
    Ok(PhysicalGraphRecord { logical_dtype, physical_resources: None, route: resolved })
}

/// A prepared launch without its reference.
pub open spec fn kept<P>(prepared: Option<&P>) -> Option<P> {
    match prepared {
        Some(launch) => Some(*launch),
        None => None,
    }
}

/// Prepares the graph node of an SM90a product. The launch that an eager run
/// left in the cache is held against the device first.
pub fn prepare_sm90a_auto_graph_sequence(
    facts: &TmaAutoFacts,
    prepared: Option<&Sm90aPreparedLaunch>,
    forced: &TmaForcedFacts,
    loaded: bool,
) -> (result: Result<PreparedTriadPhysicalGraphSequence, LaunchError>)
    requires
        prepared matches Some(prepared) ==> on_the_served_route(
            TmaFamily::Sm90a,
            *facts,
            prepared.route,
        ),
    ensures
        match graph_start(TmaFamily::Sm90a, *facts, kept(prepared)) {
            Err(error) => result == Err::<PreparedTriadPhysicalGraphSequence, LaunchError>(error),
            Ok((route, launch)) => match (
                tma_forced::sm90a_replay(
                    launch.route,
                    launch.maps,
                    launch.operands,
                    *forced,
                    launch.identity,
                    SM90A_REPLAY_CHANGED,
                ),
                graph_record(TmaFamily::Sm90a, *facts, route, loaded),
                tma::tma_extents(launch.route.shape),
            ) {
                (Err(error), _, _) => result == Err::<
                    PreparedTriadPhysicalGraphSequence,
                    LaunchError,
                >(error),
                (Ok(_), Err(error), _) => result == Err::<
                    PreparedTriadPhysicalGraphSequence,
                    LaunchError,
                >(error),
                (Ok(_), Ok(_), Err(error)) => result == Err::<
                    PreparedTriadPhysicalGraphSequence,
                    LaunchError,
                >(error),
                (Ok(_), Ok(record), Ok(extents)) => graph_is(
                    result,
                    record,
                    tma::sm90a_args(launch.operands, launch.maps.a, launch.maps.b, extents),
                ),
            },
        },
{
    let (route, launch) = start_graph(TmaFamily::Sm90a, facts, prepared)?;
    validate_sm90a_graph_replay(
        launch.route,
        &launch.maps,
        launch.operands,
        forced,
        &launch.identity,
    )?;
    let record = record_graph(TmaFamily::Sm90a, facts, route, loaded)?;
    let args = sm90a_arguments(launch.operands, &launch.maps, launch.route.shape)?;
    Ok(build_tma_node(record, &args))
}

/// The arguments of a prepared launch.
pub open spec fn prepared_args(
    prepared: TmaPreparedLaunch,
    workspace: Option<(u64, u64)>,
) -> Seq<KernelArg> {
    tma::tma_args(
        prepared.family,
        prepared.operands,
        prepared.maps.a,
        prepared.maps.b,
        prepared.params@,
        workspace,
    )
}

/// Prepares the graph node of an SM100 product. The launch that an eager run
/// left in the cache is held against the device before and after.
pub fn prepare_sm100_auto_graph_sequence(
    facts: &TmaAutoFacts,
    prepared: Option<&TmaPreparedLaunch>,
    before: &TmaReplayFacts,
    loaded: bool,
    after: &TmaReplayFacts,
) -> (result: Result<PreparedTriadPhysicalGraphSequence, LaunchError>)
    requires
        prepared matches Some(prepared) ==> prepared.family == TmaFamily::Sm100
            && on_the_served_route(TmaFamily::Sm100, *facts, prepared.route),
    ensures
        match graph_start(TmaFamily::Sm100, *facts, kept(prepared)) {
            Err(error) => result == Err::<PreparedTriadPhysicalGraphSequence, LaunchError>(error),
            Ok((route, launch)) => match (
                tma_forced::replay_fault(launch, *before),
                graph_record(TmaFamily::Sm100, *facts, route, loaded),
                tma_forced::replay_fault(launch, *after),
            ) {
                (Some(error), _, _) => result == Err::<
                    PreparedTriadPhysicalGraphSequence,
                    LaunchError,
                >(error),
                (None, Err(error), _) => result == Err::<
                    PreparedTriadPhysicalGraphSequence,
                    LaunchError,
                >(error),
                (None, Ok(_), Some(error)) => result == Err::<
                    PreparedTriadPhysicalGraphSequence,
                    LaunchError,
                >(error),
                (None, Ok(record), None) => graph_is(result, record, prepared_args(launch, None)),
            },
        },
{
    let (route, launch) = start_graph(TmaFamily::Sm100, facts, prepared)?;
    validate_sm100_graph_replay(launch, before)?;
    let record = record_graph(TmaFamily::Sm100, facts, route, loaded)?;
    let args = tma_arguments(launch.family, launch.operands, &launch.maps, launch.params, None);
    validate_sm100_graph_replay(launch, after)?;
    Ok(build_tma_node(record, &args))
}

/// The record and the workspaces of an SM120 node. The grid is the one of
/// the resolved route.
pub open spec fn sm120_graph_parts(
    facts: TmaAutoFacts,
    route: TmaForcedRoute,
    launch: TmaPreparedLaunch,
    live: TmaLaunchFacts,
) -> Result<(PhysicalGraphRecord, Option<(u64, u64)>), LaunchError> {
    match (graph_record(TmaFamily::Sm120, facts, route, live.loaded), live.spec) {
        (Err(error), _) => Err(error),
        (Ok(_), Err(error)) => Err(error),
        (Ok(record), Ok(kernel)) => match tma_forced::launch_workspace(
            launch,
            kernel,
            record.route.launch.config(),
            live,
        ) {
            Err(error) => Err(error),
            Ok(workspace) => Ok((record, workspace)),
        },
    }
}

fn find_sm120_graph_parts(
    facts: &TmaAutoFacts,
    route: TmaForcedRoute,
    launch: &TmaPreparedLaunch,
    live: &TmaLaunchFacts,
) -> (result: Result<(PhysicalGraphRecord, Option<(u64, u64)>), LaunchError>)
    ensures
        result == sm120_graph_parts(*facts, route, *launch, *live),
{
    let record = record_graph(TmaFamily::Sm120, facts, route, live.loaded)?;
    let kernel: TmaKernelSpec = match live.spec {
        Err(error) => {
            return Err(error);
        },
        Ok(kernel) => kernel,
    };
    let workspace = find_launch_workspace(launch, kernel, record.route.launch.config(), live)?;
    Ok((record, workspace))
}

/// How the graph of an SM120 product is prepared: the cached launch is
/// validated, its node is put together, and it is validated again.
pub open spec fn sm120_graphed<Build: Fn(TmaRouteIdentity) -> Result<TmaLaunchSet, LaunchError>>(
    facts: TmaAutoFacts,
    prepared: Option<TmaPreparedLaunch>,
    before: TmaReplayFacts,
    live: TmaLaunchFacts,
    after: TmaReplayFacts,
    build_launch_set: Build,
    result: Result<PreparedTriadPhysicalGraphSequence, LaunchError>,
) -> bool {
    match graph_start(TmaFamily::Sm120, facts, prepared) {
        Err(error) => result == Err::<PreparedTriadPhysicalGraphSequence, LaunchError>(error),
        Ok((route, launch)) => exists|first: Result<(), LaunchError>|
            #![trigger tma_forced::sm120_replayed(launch, before, build_launch_set, first)]
            tma_forced::sm120_replayed(launch, before, build_launch_set, first) && match (
                first,
                sm120_graph_parts(facts, route, launch, live),
            ) {
                (Err(error), _) => result == Err::<PreparedTriadPhysicalGraphSequence, LaunchError>(
                    error,
                ),
                (Ok(_), Err(error)) => result == Err::<
                    PreparedTriadPhysicalGraphSequence,
                    LaunchError,
                >(error),
                (Ok(_), Ok((record, workspace))) => exists|second: Result<(), LaunchError>|
                    #![trigger tma_forced::sm120_replayed(launch, after, build_launch_set, second)]
                    tma_forced::sm120_replayed(launch, after, build_launch_set, second)
                        && match second {
                        Err(error) => result == Err::<
                            PreparedTriadPhysicalGraphSequence,
                            LaunchError,
                        >(error),
                        Ok(_) => graph_is(result, record, prepared_args(launch, workspace)),
                    },
            },
    }
}

fn replay_sm120<Build: Fn(TmaRouteIdentity) -> Result<TmaLaunchSet, LaunchError>>(
    prepared: &TmaPreparedLaunch,
    facts: &TmaReplayFacts,
    build_launch_set: &Build,
) -> (result: Result<(), LaunchError>)
    requires
        prepared.family == TmaFamily::Sm120,
        tma_forced::rebuilds(*prepared, *facts, *build_launch_set),
    ensures
        tma_forced::sm120_replayed(*prepared, *facts, *build_launch_set, result),
{
    let build = |identity: TmaRouteIdentity| -> (built: Result<TmaLaunchSet, LaunchError>)
        requires
            call_requires(*build_launch_set, (identity,)),
        ensures
            call_ensures(*build_launch_set, (identity,), built),
        { build_launch_set(identity) };
    let result = validate_sm120_graph_replay(prepared, facts, build);
    proof {
        if tma_forced::replay_fault(*prepared, *facts) is None {
            let identity = tma_forced::live_identity(*prepared, *facts);
            let built = choose|built: Result<TmaLaunchSet, LaunchError>|
                #![trigger call_ensures(build, (identity,), built)]
                call_ensures(build, (identity,), built) && result == (match built {
                    Err(error) => Err::<(), LaunchError>(error),
                    Ok(set) => if prepared.launch_set == Some(set) {
                        Ok::<(), LaunchError>(())
                    } else {
                        Err::<(), LaunchError>(
                            LaunchError::Rejected(tma_forced::SM120_REPLAY_SET_CHANGED),
                        )
                    },
                });
            assert(call_ensures(*build_launch_set, (identity,), built));
        }
    }
    result
}

/// Prepares the graph node of an SM120 product. The launch that an eager run
/// left in the cache is held against the device before and after.
pub fn prepare_sm120_auto_graph_sequence<
    Build: Fn(TmaRouteIdentity) -> Result<TmaLaunchSet, LaunchError>,
>(
    facts: &TmaAutoFacts,
    prepared: Option<&TmaPreparedLaunch>,
    before: &TmaReplayFacts,
    live: &TmaLaunchFacts,
    after: &TmaReplayFacts,
    build_launch_set: &Build,
) -> (result: Result<PreparedTriadPhysicalGraphSequence, LaunchError>)
    requires
        prepared matches Some(prepared) ==> prepared.family == TmaFamily::Sm120
            && on_the_served_route(TmaFamily::Sm120, *facts, prepared.route),
        graph_start(TmaFamily::Sm120, *facts, kept(prepared)) matches Ok((route, launch)) ==> {
            &&& tma_forced::rebuilds(launch, *before, *build_launch_set)
            &&& tma_forced::sm120_replayed(
                launch,
                *before,
                *build_launch_set,
                Ok::<(), LaunchError>(()),
            ) && sm120_graph_parts(*facts, route, launch, *live) is Ok ==> tma_forced::rebuilds(
                launch,
                *after,
                *build_launch_set,
            )
        },
    ensures
        sm120_graphed(
            *facts,
            kept(prepared),
            *before,
            *live,
            *after,
            *build_launch_set,
            result,
        ),
{
    let (route, launch) = start_graph(TmaFamily::Sm120, facts, prepared)?;
    replay_sm120(launch, before, build_launch_set)?;
    let (record, workspace) = find_sm120_graph_parts(facts, route, launch, live)?;
    let args = tma_arguments(
        launch.family,
        launch.operands,
        &launch.maps,
        launch.params,
        workspace,
    );
    replay_sm120(launch, after, build_launch_set)?;
    Ok(build_tma_node(record, &args))
}

/// A graph node replays the arguments of the eager launch, wherever both
/// take the same workspaces.
pub proof fn graph_nodes_hold_the_eager_arguments(
    prepared: TmaPreparedLaunch,
    live: TmaLaunchFacts,
    workspace: Option<(u64, u64)>,
)
    requires
        tma_forced::prepared_step(prepared, live) is Ok,
        tma_forced::launch_workspace(
            prepared,
            live.spec->Ok_0,
            tma_forced::prepared_step(prepared, live)->Ok_0.config,
            live,
        ) == Ok::<Option<(u64, u64)>, LaunchError>(workspace),
    ensures
        tma_forced::prepared_step(prepared, live)->Ok_0.args == prepared_args(prepared, workspace),
{
}

} // verus!
