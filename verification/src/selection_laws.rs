//! What is prepared for a product, and when a prepared launch may run.

use crate::control;
use crate::error::LaunchError;
use crate::f32_launch::{PreparedF32Kind, PreparedF32TriadLaunch};
use crate::f32_prepare;
use crate::f32_prepare::{F32LiveFacts, Tf32Tables};
use crate::f32_select;
use crate::f32_select::{F32Preparation, F32PreparationFacts, F32TriadSelection, Tf32Layout};
use crate::identity::ResolvedGemmRoute;
use crate::kernel::Program;
use crate::prepared::F32PreparedSelection;
use crate::shape;
use crate::shape::{F32TriadOperands, F32TriadRequest, ResolvedGemmOp};
use crate::tf32_plan;
use crate::tf32_plan::{Tf32PhysicalRoute, Tf32SplitKLaunchPlan, Tf32StreamKLaunchPlan};
use vstd::prelude::*;

verus! {

/// A product is prepared exactly where its shape and its operands are usable,
/// no graph is being captured, the stream runs where the kernels were loaded,
/// and the output is allocated.
pub proof fn prepared_products_are_usable(
    request: F32TriadRequest,
    operands: F32TriadOperands,
    facts: F32PreparationFacts,
)
    ensures
        f32_select::preparation_fault(request, operands, facts) is None <==> {
            &&& request.shape.valid(request.op)
            &&& shape::operand_fault(request, operands) is None
            &&& facts.capturing == Ok::<bool, LaunchError>(false)
            &&& facts.stream == facts.kernels
            &&& facts.output is Ok
        },
{
}

/// What a product sums over is empty.
pub open spec fn sums_nothing(request: F32TriadRequest) -> bool {
    match request.op {
        ResolvedGemmOp::Nn => request.shape.k == 0,
        ResolvedGemmOp::Tn => request.shape.m == 0,
        ResolvedGemmOp::Nt => request.shape.n == 0,
    }
}

/// A forced route is prepared as it is. Without one, an empty sum runs its
/// epilogue alone, the scalar kernels are prepared where they are asked for,
/// and otherwise the policy decides: a TF32 kernel that is excluded gives way
/// to the exact kernel that replaces it, or to the scalar ones.
pub proof fn the_policy_decides_unless_told(
    selection: F32PreparedSelection,
    request: F32TriadRequest,
    operands: F32TriadOperands,
    facts: F32PreparationFacts,
)
    requires
        f32_select::preparation_fault(request, operands, facts) is None,
    ensures
        ({
            let chosen = f32_select::selected_preparation(selection, request, operands, facts);
            match selection {
                F32PreparedSelection::Forced(route) => chosen == Ok::<F32Preparation, LaunchError>(
                    F32Preparation::Tf32(route),
                ),
                F32PreparedSelection::ExactScalar => chosen == Ok::<F32Preparation, LaunchError>(
                    if sums_nothing(request) {
                        F32Preparation::ScalarZero
                    } else {
                        F32Preparation::Scalar
                    },
                ),
                F32PreparedSelection::Automatic => if sums_nothing(request) {
                    chosen == Ok::<F32Preparation, LaunchError>(F32Preparation::ScalarZero)
                } else {
                    match facts.selection {
                        Err(error) => chosen == Err::<F32Preparation, LaunchError>(error),
                        Ok(selected) => {
                            let served = if selected is Tf32 && facts.excluded {
                                match facts.fallback {
                                    F32TriadSelection::ExactSm120Fma(_) => facts.fallback,
                                    _ => F32TriadSelection::ScalarFmaV1,
                                }
                            } else {
                                selected
                            };
                            chosen == Ok::<F32Preparation, LaunchError>(
                                match served {
                                    F32TriadSelection::ScalarFmaV1 => F32Preparation::Scalar,
                                    F32TriadSelection::ExactSm120Fma(exact) =>
                                        F32Preparation::Tf32(
                                        Tf32PhysicalRoute::Sm120TmaFmaExactV1(exact),
                                    ),
                                    F32TriadSelection::Tf32(route) => F32Preparation::Tf32(route),
                                },
                            )
                        },
                    }
                },
            }
        }),
{
}

/// A refused product is prepared by no selection, for the same reason.
pub proof fn refused_products_are_never_prepared(
    selection: F32PreparedSelection,
    request: F32TriadRequest,
    operands: F32TriadOperands,
    facts: F32PreparationFacts,
)
    ensures
        f32_select::preparation_fault(request, operands, facts) matches Some(error)
            ==> f32_select::selected_preparation(selection, request, operands, facts) == Err::<
            F32Preparation,
            LaunchError,
        >(error),
{
}

/// The routes that split the sum have partitions of their own, the stream-K
/// route deals it out, and the exact route has its splits; every other route
/// has one block per tile.
pub proof fn routes_have_their_layout(route: Tf32PhysicalRoute)
    ensures
        f32_select::tf32_layout(route) is SplitK <==> route is MmaTf32RnaSplitK2V1
            || route is MmaTf32RnaSplitK4V1 || route is MmaTf32RnaSplitK8V1,
        f32_select::tf32_layout(route) is StreamK <==> route is Sm120TmaMmaTf32RnaStreamKV1,
        f32_select::tf32_layout(route) is Exact <==> route is Sm120TmaFmaExactV1,
        f32_select::tf32_layout(route) matches Tf32Layout::Exact(exact) ==> route
            == Tf32PhysicalRoute::Sm120TmaFmaExactV1(exact),
{
}

/// A folding launch is current exactly where its one route still names the
/// kernel of the table and its plan and its blocks are the ones that would be
/// planned now.
pub open spec fn folding_is_current(
    prepared: PreparedF32TriadLaunch,
    plan: Tf32StreamKLaunchPlan,
    tables: Tf32Tables,
) -> bool {
    &&& tables.kernel is Ok
    &&& prepared.routes@.len() == 1
    &&& prepared.routes@[0].symbol@ == tables.kernel->Ok_0.symbol@
    &&& f32_prepare::folding_plan(
        prepared.request,
        tables.kernel->Ok_0,
        tables.multiprocessor_count,
        tables.limits,
        tables.fma,
    ) == Ok::<Tf32StreamKLaunchPlan, LaunchError>(plan)
    &&& prepared.routes@[0].launch.grid_dim == (plan.grid, 1u32, 1u32)
    &&& prepared.routes@[0].launch.block_dim == (tables.kernel->Ok_0.threads, 1u32, 1u32)
    &&& prepared.routes@[0].launch.shared_mem_bytes == tables.kernel->Ok_0.dynamic_shared_bytes
}

/// A split-K launch is current exactly where its one route still names the
/// kernel of the table and its plan and its blocks are the ones that would be
/// planned now.
pub open spec fn splitk_is_current(
    prepared: PreparedF32TriadLaunch,
    plan: Tf32SplitKLaunchPlan,
    tables: Tf32Tables,
) -> bool {
    &&& tables.splitk is Ok
    &&& prepared.routes@.len() == 1
    &&& prepared.routes@[0].symbol@ == tables.splitk->Ok_0.symbol@
    &&& tf32_plan::splitk_plan(
        prepared.request,
        tables.splitk->Ok_0,
        tables.covered,
        tables.limits.counter_capacity,
    ) == Ok::<Tf32SplitKLaunchPlan, LaunchError>(plan)
    &&& prepared.routes@[0].launch.grid_dim == plan.fused.grid_dim
    &&& prepared.routes@[0].launch.block_dim == plan.fused.block_dim
    &&& prepared.routes@[0].launch.shared_mem_bytes == plan.fused.shared_mem_bytes
}

/// A prepared launch may run exactly where it was prepared, on allocations and
/// routes that still answer, and as long as what it reads through tensor maps
/// is still bound and what it planned would be planned again.
pub proof fn launches_run_while_they_are_current(
    prepared: PreparedF32TriadLaunch,
    live: F32LiveFacts,
    tables: Tf32Tables,
)
    ensures
        f32_prepare::validation_fault(prepared, live, tables) is None <==> {
            &&& prepared.context_token == live.context_token
            &&& prepared.stream_token == live.stream_token
            &&& live.resources is Ok
            &&& live.routes is Ok
            &&& match prepared.kind {
                PreparedF32Kind::Scalar(_) => true,
                PreparedF32Kind::ScalarZero { .. } => live.maps is Ok,
                PreparedF32Kind::Tf32 { maps, .. } => maps is Some ==> live.maps is Ok
                    && live.binding == Ok::<bool, LaunchError>(true),
                PreparedF32Kind::Tf32SplitK { plan, .. } => live.binding is Ok
                    && splitk_is_current(prepared, plan, tables),
                PreparedF32Kind::Tf32StreamK { plan, .. } => live.maps is Ok && live.binding
                    == Ok::<bool, LaunchError>(true) && folding_is_current(prepared, plan, tables),
            }
        },
{
}

/// A launch is the one that was prepared at its position: the same kernel on
/// the same blocks, with the digest of its arguments.
pub open spec fn launched_as_prepared(
    routes: Seq<ResolvedGemmRoute>,
    program: Program,
    index: int,
) -> bool {
    &&& index < routes.len()
    &&& routes[index].symbol@ == program.launches[index].symbol@
    &&& routes[index].launch.grid_dim == program.launches[index].config.grid_dim
    &&& routes[index].launch.block_dim == program.launches[index].config.block_dim
    &&& routes[index].launch.shared_mem_bytes == program.launches[index].config.shared_mem_bytes
    &&& !control::zero(routes[index].launch.arguments_digest)
}

/// A program runs on its prepared routes exactly where it completes, no binding
/// changed, and its launches are the prepared ones, one for each route.
pub proof fn programs_run_as_prepared(
    routes: Seq<ResolvedGemmRoute>,
    program: Program,
    changed: Option<LaunchError>,
    from: int,
)
    requires
        0 <= from <= program.launches.len(),
    ensures
        control::run_fault(routes, program, changed, from) is None <==> {
            &&& forall|i: int|
                from <= i < program.launches.len() ==> #[trigger] launched_as_prepared(
                    routes,
                    program,
                    i,
                )
            &&& program.outcome is Ok
            &&& changed is None
            &&& routes.len() == program.launches.len()
        },
    decreases program.launches.len() - from,
{
    if from < program.launches.len() {
        programs_run_as_prepared(routes, program, changed, from + 1);
        let fault = control::bind_fault(
            routes,
            from,
            program.launches[from].symbol,
            program.launches[from].config,
        );
        assert(fault is None <==> launched_as_prepared(routes, program, from));
    }
}

} // verus!
