//! The launches that read their inputs through tensor maps pass the product
//! of their route to its kernel.

use crate::device;
use crate::error::LaunchError;
use crate::kernel::{KernelArg, LaunchStep};
use crate::params::{Sm100KernelParams, Sm120KernelParams};
use crate::scalar_products;
use crate::shape::ResolvedGemmOp;
use crate::tf32_products;
use crate::tma;
use crate::tma::{
    TmaAutoRequest, TmaFamily, TmaForcedRoute, TmaLaunchOperands, TmaMapRequest, TmaPreparedMaps,
    TmaSchedule,
};
use crate::tma_forced;
use crate::tma_forced::{TmaKernelSpec, TmaLaunchFacts, TmaPreparedLaunch};
use vstd::prelude::*;

verus! {

/// The output rows and columns of a route.
pub open spec fn route_outputs(route: TmaForcedRoute) -> (int, int) {
    match route.op {
        ResolvedGemmOp::Nn => (route.shape.m as int, route.shape.n as int),
        ResolvedGemmOp::Tn => (route.shape.k as int, route.shape.n as int),
        ResolvedGemmOp::Nt => (route.shape.m as int, route.shape.k as int),
    }
}

/// Tensor maps are asked for on the A and the B of a product, in its shape and
/// for the tile of its route.
pub proof fn maps_are_asked_for_the_inputs(route: TmaForcedRoute, request: TmaAutoRequest)
    ensures
        TmaMapRequest::of(route, request).a_ptr == request.a_ptr,
        TmaMapRequest::of(route, request).b_ptr == request.b_ptr,
        TmaMapRequest::of(route, request).shape == route.shape,
        TmaMapRequest::of(route, request).op == route.op,
        TmaMapRequest::of(route, request).dtype == route.dtype,
        TmaMapRequest::of(route, request).tile == route.physical.tile,
        TmaMapRequest::of(route, request).bk == route.physical.bk,
{
}

/// An SM90a launch writes the output, reads A and B through their maps, and
/// gets the bias, the factors, the extents of its shape and the output stride,
/// in this order. Each block has an output tile of 64 rows and 128 columns.
pub proof fn sm90a_launches_pass_the_product(
    route: TmaForcedRoute,
    maps: TmaPreparedMaps,
    operands: TmaLaunchOperands,
    kernel: TmaKernelSpec,
    loaded: bool,
    step: LaunchStep,
)
    requires
        tma_forced::sm90a_step(route, maps, operands, kernel, loaded) == Ok::<
            LaunchStep,
            LaunchError,
        >(step),
    ensures
        step.args == seq![
            KernelArg::Pointer(operands.output_ptr),
            KernelArg::TensorMap(maps.a),
            KernelArg::TensorMap(maps.b),
            KernelArg::Pointer(operands.bias_ptr),
            KernelArg::Float(operands.alpha),
            KernelArg::Float(operands.beta),
            KernelArg::Int(route.shape.m as i32),
            KernelArg::Int(route.shape.k as i32),
            KernelArg::Int(route.shape.n as i32),
            KernelArg::Int(route.shape.ldc as i32),
        ],
        device::grid_is(
            step.config,
            device::tiles(route_outputs(route).0, 64) * device::tiles(route_outputs(route).1, 128),
            1,
            1,
        ),
        device::threads_are(step.config, route.physical.threads as int),
        step.symbol == kernel.symbol,
{
    scalar_products::tiles_are_counted(route_outputs(route).0, 64);
    scalar_products::tiles_are_counted(route_outputs(route).1, 128);
}

/// A prepared SM100 or SM120 launch writes the output, reads A and B through
/// their maps, and gets the bias and a parameter block that speaks of its
/// product. A stream-K launch gets the partial sums and the flags behind the
/// output and runs one block per multiprocessor; any other runs one block per
/// output tile.
pub proof fn prepared_launches_pass_the_product(
    prepared: TmaPreparedLaunch,
    facts: TmaLaunchFacts,
    step: LaunchStep,
)
    requires
        prepared.family != TmaFamily::Sm90a,
        prepared.route.wf(),
        tma::tma_param_words(prepared.route.shape, prepared.maps.origins, prepared.operands)
            == Ok::<Seq<u32>, LaunchError>(prepared.params@),
        tma_forced::prepared_step(prepared, facts) == Ok::<LaunchStep, LaunchError>(step),
    ensures
        ({
            let operands = prepared.operands;
            let route = prepared.route;
            let args = step.args;
            let folds = prepared.family == TmaFamily::Sm120 && route.physical.schedule
                == TmaSchedule::StreamK;
            let first = if folds {
                3int
            } else {
                1int
            };
            let tiles = device::tiles(route_outputs(route).0, route.physical.tile.rows as int)
                * device::tiles(route_outputs(route).1, route.physical.tile.columns as int);
            &&& args.len() == first + 4
            &&& args[0] == KernelArg::Pointer(operands.output_ptr)
            &&& folds ==> facts.buffers is Ok && args[1] == KernelArg::Pointer(
                facts.buffers->Ok_0.0,
            ) && args[2] == KernelArg::Pointer(facts.buffers->Ok_0.1)
            &&& args[first] == KernelArg::TensorMap(prepared.maps.a)
            &&& args[first + 1] == KernelArg::TensorMap(prepared.maps.b)
            &&& args[first + 2] == KernelArg::Pointer(operands.bias_ptr)
            &&& tf32_products::block_speaks_of(
                args[first + 3],
                route.op,
                route.shape,
                prepared.maps.origins,
                operands.alpha,
                operands.beta,
            )
            &&& args[first + 3] is Sm120 == (prepared.family == TmaFamily::Sm120)
            &&& args[first + 3] is Sm100 == (prepared.family == TmaFamily::Sm100)
            &&& device::grid_is(
                step.config,
                if folds {
                    facts.module.multiprocessor_count as int
                } else {
                    tiles
                },
                1,
                1,
            )
        }),
{
    let route = prepared.route;
    let origins = prepared.maps.origins;
    let operands = prepared.operands;
    let extents = tma::tma_extents(route.shape)->Ok_0;
    scalar_products::tiles_are_counted(route_outputs(route).0, route.physical.tile.rows);
    scalar_products::tiles_are_counted(route_outputs(route).1, route.physical.tile.columns);
    let sm100 = Sm100KernelParams {
        a_x: origins.a_x,
        a_y: origins.a_y,
        b_x: origins.b_x,
        b_y: origins.b_y,
        alpha: operands.alpha,
        beta: operands.beta,
        m: extents.0,
        k: extents.1,
        n: extents.2,
        ldc: extents.3,
    };
    let sm120 = Sm120KernelParams {
        a_x: origins.a_x,
        a_y: origins.a_y,
        b_x: origins.b_x,
        b_y: origins.b_y,
        alpha: operands.alpha,
        beta: operands.beta,
        m: extents.0,
        k: extents.1,
        n: extents.2,
        ldc: extents.3,
    };
    tma::parameters_are_read_back(sm100, sm120);
    tma::sm100_and_sm120_blocks_agree(sm100, sm120);
}

} // verus!
