//! What the tensor-map kernels are bound to, and what their launches are
//! sealed under.

use crate::error::LaunchError;
use crate::identity::ModuleKind;
use crate::shape::{
    ResolvedGemmOp, F32_NEGATIVE_ZERO_BITS, F32_ONE_BITS, F32_ZERO_BITS,
};
use crate::tma;
use crate::tma::{TmaBinding, TmaFamily, TmaForcedRoute, TmaLaunchOperands, TmaPreparedMaps};
use crate::tma_auto;
use crate::tma_auto::TmaAvailability;
use crate::tma_binding;
use crate::tma_binding::TmaModuleFacts;
use crate::tma_forced;
use crate::tma_forced::{TmaForcedFacts, TmaPreparedLaunch, TmaReplayFacts};
use vstd::prelude::*;

verus! {

/// The stream runs where the kernels of a kind were loaded.
pub open spec fn loaded_beside_the_stream(facts: TmaModuleFacts, kind: ModuleKind) -> bool {
    &&& facts.stream == facts.kernels
    &&& facts.specialized matches Some(artifact) && artifact.module_kind == kind
    &&& facts.compiler is Some
    &&& facts.capability.0 >= 0
    &&& facts.capability.1 >= 0
}

/// A binding holds the image, the compiler, the context and the device that the
/// modules and the driver report.
pub open spec fn binds_what_is_loaded(binding: TmaBinding, facts: TmaModuleFacts) -> bool {
    &&& binding.allocation_domain == facts.stream
    &&& Some(binding.artifact) == facts.specialized
    &&& Some(binding.compiler) == facts.compiler
    &&& binding.device.compute_capability.0 == facts.capability.0
    &&& binding.device.compute_capability.1 == facts.capability.1
    &&& binding.device.multiprocessor_count == facts.multiprocessor_count
    &&& binding.device.driver == facts.driver
}

/// The SM90a kernels are bound exactly where they were compiled for the
/// accelerated 9.0 target, loaded beside the stream, and the board reads tensor
/// maps.
pub proof fn sm90a_kernels_are_bound_where_they_run(facts: TmaModuleFacts)
    ensures
        tma_binding::sm90a_binding(facts) is Ok <==> {
            &&& facts.tensor_map_access != 0
            &&& loaded_beside_the_stream(facts, ModuleKind::TriadSm90a)
            &&& facts.compiler->Some_0.target.arch == 90
            &&& facts.compiler->Some_0.target.accelerated
            &&& !facts.compiler->Some_0.target.virtual_arch
        },
        tma_binding::sm90a_binding(facts) matches Ok(binding) ==> {
            &&& binds_what_is_loaded(binding, facts)
            &&& binding.device.target == facts.compiler->Some_0.target
            &&& binding.device_caps is None
            &&& binding.target is None
        },
{
}

/// The SM100 kernels are bound exactly where they were compiled for a target
/// of this very board, loaded beside the stream, and the board reads tensor
/// maps.
pub proof fn sm100_kernels_are_bound_where_they_run(facts: TmaModuleFacts)
    ensures
        tma_binding::sm100_binding(facts) is Ok <==> {
            &&& facts.tensor_map_access != 0
            &&& loaded_beside_the_stream(facts, ModuleKind::TriadSm100)
            &&& facts.target matches Some(target) && target.device_cc == facts.capability
                && facts.compiler->Some_0.target == target.nvrtc_arch
        },
        tma_binding::sm100_binding(facts) matches Ok(binding) ==> {
            &&& binds_what_is_loaded(binding, facts)
            &&& binding.device.target == facts.portable_target
            &&& binding.device_caps is None
            &&& binding.target == facts.target
        },
{
}

/// The SM120 kernels are bound exactly where they were compiled for a target
/// of this very board, loaded beside the stream, and the board can do what it
/// could when the module was qualified.
pub proof fn sm120_kernels_are_bound_where_they_run(facts: TmaModuleFacts)
    ensures
        tma_binding::sm120_binding(facts) is Ok <==> {
            &&& loaded_beside_the_stream(facts, ModuleKind::TriadSm120)
            &&& facts.optin_shared >= 0
            &&& facts.target matches Some(target) && target.device_cc == facts.capability
                && facts.compiler->Some_0.target == target.nvrtc_arch
            &&& facts.qualified_caps matches Some(caps) && {
                &&& caps.compute_capability.0 == facts.capability.0
                &&& caps.compute_capability.1 == facts.capability.1
                &&& caps.optin_shared_bytes == facts.optin_shared
                &&& caps.tensor_map_access == (facts.tensor_map_access != 0)
                &&& caps.nvrtc_version == facts.compiler->Some_0.nvrtc_version
                &&& caps.accepted_target == Some(facts.compiler->Some_0.target)
            }
        },
        tma_binding::sm120_binding(facts) matches Ok(binding) ==> {
            &&& binds_what_is_loaded(binding, facts)
            &&& binding.device.target == facts.target->Some_0.ptx_target
            &&& binding.device_caps == facts.qualified_caps
            &&& binding.target == facts.target
        },
{
}

/// Tensor maps are encoded under the binding of the family, once all of its
/// kernels are loaded. Only SM90a encodes them while a graph is captured, and
/// only on a board of 9.0.
pub proof fn maps_are_encoded_under_the_binding(
    family: TmaFamily,
    facts: TmaModuleFacts,
    complete: bool,
    capturing: bool,
)
    ensures
        tma_binding::maps_gate(family, facts, complete, capturing) matches Ok(binding) ==> {
            &&& binds_what_is_loaded(binding, facts)
            &&& binding.artifact.module_kind == (match family {
                TmaFamily::Sm90a => ModuleKind::TriadSm90a,
                TmaFamily::Sm100 => ModuleKind::TriadSm100,
                TmaFamily::Sm120 => ModuleKind::TriadSm120,
            })
            &&& complete
            &&& capturing ==> family == TmaFamily::Sm90a
            &&& family == TmaFamily::Sm90a ==> facts.capability.0 == 9 && facts.capability.1 == 0
        },
        complete && !capturing && family != TmaFamily::Sm90a ==> tma_binding::maps_gate(
            family,
            facts,
            complete,
            capturing,
        ) == (match family {
            TmaFamily::Sm100 => tma_binding::sm100_binding(facts),
            _ => tma_binding::sm120_binding(facts),
        }),
{
}

/// Operands are accepted exactly where the kernels may use them: a usable
/// output, an aligned bias. Weight gradients are single precision and add to
/// what is there, input gradients replace it, neither has a bias, and a bias is
/// seeded into an unscaled product where the family seeds it.
pub proof fn accepted_operands_suit_the_family(
    family: TmaFamily,
    op: ResolvedGemmOp,
    operands: TmaLaunchOperands,
)
    ensures
        tma::tma_operand_fault(family, op, operands) is None <==> {
            &&& operands.output_ptr != 0
            &&& operands.output_ptr % (if op is Tn {
                4u64
            } else {
                2u64
            }) == 0
            &&& operands.bias_ptr % 4 == 0
            &&& op is Nn && operands.bias_ptr != 0 && family != TmaFamily::Sm90a ==> operands.alpha
                == F32_ONE_BITS
            &&& op is Tn ==> operands.bias_ptr == 0 && operands.beta == F32_ONE_BITS
            &&& op is Nt ==> operands.bias_ptr == 0 && (operands.beta == F32_ZERO_BITS
                || operands.beta == F32_NEGATIVE_ZERO_BITS)
        },
{
}

/// A route is sealed under what it computes, the kernel that it runs, the image
/// and the device that it is bound to, and its own maps and allocations. It is
/// the route that serves the product, and its maps were encoded for it.
pub proof fn sealed_routes_are_the_served_ones(
    family: TmaFamily,
    route: TmaForcedRoute,
    maps: TmaPreparedMaps,
    operands: TmaLaunchOperands,
    facts: TmaForcedFacts,
)
    ensures
        tma_forced::forced_identity(family, route, maps, operands, facts) matches Ok(identity)
            ==> {
            &&& identity.op == route.op
            &&& identity.dtype == route.dtype
            &&& identity.physical == route.physical
            &&& identity.shape == route.shape
            &&& facts.spec matches Ok(kernel) && identity.symbol == kernel.symbol
            &&& Some(identity.artifact) == facts.module.specialized
            &&& identity.artifact.module_kind == identity.module_kind
            &&& Some(identity.compiler) == facts.module.compiler
            &&& identity.device.multiprocessor_count == facts.module.multiprocessor_count
            &&& identity.tensor_maps_digest == maps.identity
            &&& facts.resources matches Ok(resources) && identity.resources_digest
                == resources.digest
            &&& facts.resolved matches Ok(Some(served)) && served == route
            &&& facts.live_allocations is Ok
            &&& maps.request.op == route.op
            &&& maps.request.dtype == route.dtype
            &&& maps.request.shape == route.shape
            &&& family != TmaFamily::Sm90a ==> maps.request.tile == route.physical.tile
                && !facts.capturing
            &&& family == TmaFamily::Sm120 ==> maps.request.bk == route.physical.bk
                && facts.census is Some
            &&& binds_what_is_loaded(maps.binding, facts.module)
            &&& tma::tma_operand_fault(family, route.op, operands) is None
            &&& route.shape.valid(route.op)
        },
{
}

/// A family takes the route that was measured for a product exactly where what
/// it runs on is there: the SM90a module, the target of the SM100 module, the
/// capabilities of the board and the target of the SM120 module.
pub proof fn families_serve_where_they_are_loaded(
    family: TmaFamily,
    available: TmaAvailability,
    resolved: Option<TmaForcedRoute>,
)
    ensures
        tma_auto::tma_auto_route(family, available, resolved) == (if match family {
            TmaFamily::Sm90a => available.module,
            TmaFamily::Sm100 => available.target,
            TmaFamily::Sm120 => available.caps && available.target,
        } {
            resolved
        } else {
            None
        }),
{
}

/// A prepared launch runs exactly on the context, the compiler and the image
/// that it was sealed under, an SM120 launch on its own stream, and an SM100
/// launch on its own target.
pub proof fn prepared_launches_run_where_they_were_sealed(
    prepared: TmaPreparedLaunch,
    stream_handle: u64,
    module: TmaModuleFacts,
)
    requires
        prepared.sealed(),
    ensures
        tma_forced::prepared_binding_fault(prepared, stream_handle, module) is None <==> {
            &&& module.stream == prepared.maps.binding.allocation_domain
            &&& module.kernels == prepared.maps.binding.allocation_domain
            &&& module.compiler == Some(prepared.maps.binding.compiler)
            &&& module.specialized == Some(prepared.maps.binding.artifact)
            &&& prepared.family == TmaFamily::Sm120 ==> prepared.stream_handle == Some(
                stream_handle,
            )
            &&& prepared.family == TmaFamily::Sm100 ==> module.target
                == prepared.maps.binding.target
        },
{
}

/// A captured launch is replayed exactly while it runs where it was sealed, on
/// the allocations that it was captured with. An SM120 launch must still be
/// bound as it was.
pub proof fn replays_run_on_the_captured_allocations(
    prepared: TmaPreparedLaunch,
    facts: TmaReplayFacts,
)
    ensures
        tma_forced::replay_fault(prepared, facts) is None <==> {
            &&& tma_forced::prepared_binding_fault(prepared, facts.stream_handle, facts.module)
                is None
            &&& facts.live_allocations is Ok
            &&& facts.resources matches Ok(live) && live.allocations
                == prepared.resources.allocations && live.digest
                == prepared.identity.resources_digest
            &&& prepared.family == TmaFamily::Sm120 ==> tma_binding::sm120_binding(facts.module)
                == Ok::<TmaBinding, LaunchError>(prepared.maps.binding)
        },
{
}

} // verus!
