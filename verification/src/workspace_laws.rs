//! The folding kernels cover their output and have a place for every partial
//! sum that they publish.

use crate::arith;
use crate::device;
use crate::error::LaunchError;
use crate::f32_prepare;
use crate::half_tc;
use crate::shape::{F32TriadRequest, ResolvedGemmOp};
use crate::tf32_plan;
use crate::tf32_plan::{
    FoldLimits, Sm120FmaFacts, Sm120FmaLaunchPlan, Sm120FmaRoute, Sm120FmaTile, Tf32KernelSpec,
    Tf32StreamKLaunchPlan,
};
use crate::tma;
use crate::tma::{TmaForcedRoute, TmaSchedule};
use vstd::prelude::*;

verus! {

/// The floats of the split workspace.
pub open spec fn workspace_floats() -> int {
    8_388_608
}

/// The output rows, the output columns and the summed extent of a product.
pub open spec fn product_extents(request: F32TriadRequest) -> (int, int, int) {
    let (m, k, n) = (request.shape.m as int, request.shape.k as int, request.shape.n as int);
    match request.op {
        ResolvedGemmOp::Nn => (m, n, k),
        ResolvedGemmOp::Tn => (k, n, m),
        ResolvedGemmOp::Nt => (m, k, n),
    }
}

/// An exact launch has a block for every tile and split. The splits cover the
/// sum, none of them is empty, and all but one of each tile publish a tile of
/// sums and a flag.
pub proof fn exact_launches_cover_their_product(
    request: F32TriadRequest,
    route: Sm120FmaRoute,
    facts: Sm120FmaFacts,
    plan: Sm120FmaLaunchPlan,
)
    requires
        facts.bk > 0,
        route.splits > 0,
        tf32_plan::fma_plan(request, route, facts) == Ok::<Sm120FmaLaunchPlan, LaunchError>(plan),
    ensures
        ({
            let (rows, columns, summed) = product_extents(request);
            let (tile_rows, tile_columns) = match route.tile {
                Sm120FmaTile::M128N64 => (128int, 64int),
                Sm120FmaTile::M64N128 => (64int, 128int),
            };
            let tiles = device::tiles(rows, tile_rows) * device::tiles(columns, tile_columns);
            let slabs = device::tiles(summed, facts.bk as int);
            &&& plan.tiles == tiles
            &&& plan.units == tiles * route.splits
            &&& plan.tiles_per_split * route.splits >= slabs
            &&& plan.tiles_per_split * (route.splits - 1) < slabs
            &&& slabs * facts.bk >= summed
            &&& plan.slab_elements == tiles * (tile_rows * tile_columns) * (route.splits - 1)
            &&& plan.flag_elements == tiles * (route.splits - 1)
            &&& plan.slab_elements <= workspace_floats()
            &&& plan.flag_elements <= facts.counter_capacity
        }),
{
    let (rows, columns, summed) = product_extents(request);
    tf32_plan::fma_splits_partition_the_reduction(request, route, facts);
    arith::ceil_div_is_least_cover(summed, facts.bk as int);
    let slabs = arith::ceil_div(summed, facts.bk as int);
    arith::ceil_div_is_least_cover(slabs, route.splits as int);
    let (tile_rows, tile_columns) = route.tile.dims();
    arith::ceil_div_is_least_cover(rows, tile_rows as int);
    arith::ceil_div_is_least_cover(columns, tile_columns as int);
    let tiles = tf32_plan::tile_count(request, route.tile.dims());
    let splits = route.splits as int;
    let area = (tile_rows * tile_columns) as int;
    assert(tiles >= 0) by (nonlinear_arith)
        requires
            tiles == arith::ceil_div(rows, tile_rows as int) * arith::ceil_div(
                columns,
                tile_columns as int,
            ),
            arith::ceil_div(rows, tile_rows as int) >= 0,
            arith::ceil_div(columns, tile_columns as int) >= 0,
    ;
    assert(tiles * splits >= 0 && tiles * (splits - 1) >= 0 && tiles * area * (splits - 1) >= 0)
        by (nonlinear_arith)
        requires
            tiles >= 0,
            splits >= 1,
            area >= 0,
    ;
    let per = arith::ceil_div(slabs, splits);
    assert(per * (splits - 1) >= 0) by (nonlinear_arith)
        requires
            per >= 0,
            splits >= 1,
    ;
}

/// A stream-K launch runs one block per multiprocessor, each of which has a
/// slab and a flag for every slot.
pub proof fn streamk_launches_have_their_slots(
    request: F32TriadRequest,
    spec: Tf32KernelSpec,
    multiprocessors: u32,
    limits: FoldLimits,
    fma: Sm120FmaFacts,
    plan: Tf32StreamKLaunchPlan,
)
    requires
        spec.route.exact_fma() is None,
        f32_prepare::folding_plan(request, spec, multiprocessors, limits, fma) == Ok::<
            Tf32StreamKLaunchPlan,
            LaunchError,
        >(plan),
    ensures
        request.op == spec.op,
        request.shape.valid(request.op),
        plan.grid == multiprocessors,
        plan.grid >= 1,
        plan.flag_elements == plan.grid * limits.slots_per_cta,
        plan.partial_elements == plan.grid * limits.slots_per_cta * limits.slab_floats,
        plan.partial_elements <= workspace_floats(),
        plan.flag_elements <= limits.counter_capacity,
{
    assert(multiprocessors * limits.slots_per_cta >= 0 && multiprocessors * limits.slots_per_cta
        * limits.slab_floats >= 0) by (nonlinear_arith);
}

/// The stream-K grid of a half-precision weight gradient is accepted exactly
/// where two slabs of 64 by 64 sums and two flags per block fit the workspaces.
pub proof fn accepted_grids_fit_the_workspaces(grid: u32, counter_capacity: usize)
    ensures
        half_tc::streamk_workspace_fault(grid, counter_capacity) is None <==> {
            &&& grid * 2 * (64 * 64) <= workspace_floats()
            &&& grid * 2 <= counter_capacity
        },
{
}

/// The stream-K grid of an SM120 route is accepted exactly where the slots of
/// every block fit the workspaces. A slab has sixteen sums for each row atom of
/// a thread, and a wide warp has four row atoms in place of two.
pub proof fn accepted_sm120_grids_fit_the_workspaces(
    route: TmaForcedRoute,
    threads: u32,
    grid: u32,
    limits: FoldLimits,
)
    ensures
        route.physical.schedule == TmaSchedule::Tiled ==> tma::sm120_workspace_fault(
            route,
            threads,
            grid,
            limits,
        ) is None,
        route.physical.schedule == TmaSchedule::StreamK ==> (tma::sm120_workspace_fault(
            route,
            threads,
            grid,
            limits,
        ) is None <==> {
            let slab = threads * (if route.physical.wide_m_warp {
                64int
            } else {
                32int
            });
            &&& grid * limits.slots_per_cta * slab <= workspace_floats()
            &&& grid * limits.slots_per_cta <= limits.counter_capacity
        }),
{
    let atoms = if route.physical.wide_m_warp {
        4int
    } else {
        2int
    };
    assert(threads * atoms * 16 == threads * (atoms * 16)) by (nonlinear_arith);
}

} // verus!
