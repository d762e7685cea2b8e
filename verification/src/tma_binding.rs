//! What the tensor-map kernels of a family are bound to, and the tensor
//! maps that are encoded for them.

use crate::error::LaunchError;
use crate::identity::{
    specialized_device_identity, validated_allocation_domain, AllocationDomain, ArtifactIdentity,
    CompilerIdentity, CudaTarget, DeviceCaps, DeviceIdentity, DriverIdentity, ModuleKind,
};
use crate::tma::{tma_texts, TmaBinding, TmaFamily, TmaMapRequest, TmaTargetCandidate};
use vstd::prelude::*;

verus! {

/// The target of the SM90a kernels.
#[verifier::allow_in_spec]
pub fn sm90a_target() -> CudaTarget
    returns
        (CudaTarget { virtual_arch: false, arch: 90, accelerated: true }),
{
    CudaTarget { virtual_arch: false, arch: 90, accelerated: true }
}

/// A compute capability as it is recorded.
#[verifier::allow_in_spec]
pub fn recorded_capability(capability: (i32, i32)) -> Result<(u32, u32), LaunchError>
    returns
        (if capability.0 < 0 {
            Err::<(u32, u32), LaunchError>(LaunchError::NegativeAnswer("CUDA CC major", capability.0))
        } else if capability.1 < 0 {
            Err::<(u32, u32), LaunchError>(LaunchError::NegativeAnswer("CUDA CC minor", capability.1))
        } else {
            Ok::<(u32, u32), LaunchError>((capability.0 as u32, capability.1 as u32))
        }),
{
    if capability.0 < 0 {
        Err(LaunchError::NegativeAnswer("CUDA CC major", capability.0))
    } else if capability.1 < 0 {
        Err(LaunchError::NegativeAnswer("CUDA CC minor", capability.1))
    } else {
        Ok((capability.0 as u32, capability.1 as u32))
    }
}

/// The capabilities of a board, as a module that is bound on it records
/// them.
pub open spec fn board_caps(
    optin: &'static str,
    accepted_target: CudaTarget,
    nvrtc_version: (i32, i32),
    capability: (i32, i32),
    optin_shared: i32,
    tensor_map_access: i32,
) -> Result<DeviceCaps, LaunchError> {
    match recorded_capability(capability) {
        Err(error) => Err(error),
        Ok(compute_capability) => if optin_shared < 0 {
            Err(LaunchError::NegativeAnswer(optin, optin_shared))
        } else {
            Ok(
                DeviceCaps {
                    compute_capability,
                    nvrtc_version,
                    accepted_target: Some(accepted_target),
                    optin_shared_bytes: optin_shared as u32,
                    tensor_map_access: tensor_map_access != 0,
                },
            )
        },
    }
}

fn record_board_caps(
    optin: &'static str,
    accepted_target: CudaTarget,
    nvrtc_version: (i32, i32),
    capability: (i32, i32),
    optin_shared: i32,
    tensor_map_access: i32,
) -> (result: Result<DeviceCaps, LaunchError>)
    ensures
        result == board_caps(
            optin,
            accepted_target,
            nvrtc_version,
            capability,
            optin_shared,
            tensor_map_access,
        ),
{
    let compute_capability = recorded_capability(capability)?;
    if optin_shared < 0 {
        return Err(LaunchError::NegativeAnswer(optin, optin_shared));
    }
    Ok(
        DeviceCaps {
            compute_capability,
            nvrtc_version,
            accepted_target: Some(accepted_target),
            optin_shared_bytes: optin_shared as u32,
            tensor_map_access: tensor_map_access != 0,
        },
    )
}

/// What opt-in shared memory is called where a board is recorded.
pub const OPTIN_SHARED: &'static str = "opt-in shared memory";

/// What opt-in shared memory is called where an SM120 module is bound.
pub const SM120_OPTIN_SHARED: &'static str = "SM120 opt-in shared memory";

/// Records the capabilities of a board from what its driver answers.
pub fn query_specialized_device_caps(
    accepted_target: CudaTarget,
    nvrtc_version: (i32, i32),
    capability: (i32, i32),
    optin_shared: i32,
    tensor_map_access: i32,
) -> (result: Result<DeviceCaps, LaunchError>)
    ensures
        result == board_caps(
            OPTIN_SHARED,
            accepted_target,
            nvrtc_version,
            capability,
            optin_shared,
            tensor_map_access,
        ),
{
    record_board_caps(
        OPTIN_SHARED,
        accepted_target,
        nvrtc_version,
        capability,
        optin_shared,
        tensor_map_access,
    )
}

/// What the driver and the loaded modules say of a family: where the stream
/// and the kernels live, what the board can do, how the module was compiled
/// and for which target, what was qualified, and what the device is recorded
/// as.
#[derive(Clone, Copy, Debug, PartialEq, Eq)]
pub struct TmaModuleFacts {
    pub stream: AllocationDomain,
    pub kernels: AllocationDomain,
    pub tensor_map_access: i32,
    pub optin_shared: i32,
    pub capability: (i32, i32),
    pub compiler: Option<CompilerIdentity>,
    pub target: Option<TmaTargetCandidate>,
    pub specialized: Option<ArtifactIdentity>,
    pub qualified_caps: Option<DeviceCaps>,
    pub multiprocessor_count: u32,
    pub portable_target: CudaTarget,
    pub driver: DriverIdentity,
}

/// The specialized image, if it is of this family.
pub open spec fn family_artifact(facts: TmaModuleFacts, kind: ModuleKind) -> Option<
    ArtifactIdentity,
> {
    match facts.specialized {
        Some(artifact) => if artifact.module_kind == kind {
            Some(artifact)
        } else {
            None
        },
        None => None,
    }
}

fn find_family_artifact(facts: &TmaModuleFacts, kind: ModuleKind) -> (artifact: Option<
    ArtifactIdentity,
>)
    ensures
        artifact == family_artifact(*facts, kind),
{
    match facts.specialized {
        Some(artifact) => if artifact.module_kind == kind {
            Some(artifact)
        } else {
            None
        },
        None => None,
    }
}

/// The device as a binding records it.
pub open spec fn bound_device(
    facts: TmaModuleFacts,
    compute_capability: (u32, u32),
    target: CudaTarget,
) -> DeviceIdentity {
    DeviceIdentity {
        compute_capability,
        multiprocessor_count: facts.multiprocessor_count,
        target,
        driver: facts.driver,
    }
}

/// What the SM90a kernels are bound to.
pub open spec fn sm90a_binding(facts: TmaModuleFacts) -> Result<TmaBinding, LaunchError> {
    if facts.tensor_map_access == 0 {
        Err(LaunchError::Rejected("SM90a WGMMA requires CUDA tensor-map access support"))
    } else if facts.stream != facts.kernels {
        Err(LaunchError::ForeignDomain("SM90a", facts.stream, facts.kernels))
    } else if !(facts.compiler matches Some(compiler) && compiler.target == sm90a_target()) {
        Err(LaunchError::Rejected("exact-sm_90a compiler identity is unavailable"))
    } else {
        match (
            family_artifact(facts, ModuleKind::TriadSm90a),
            recorded_capability(facts.capability),
        ) {
            (None, _) => Err(
                LaunchError::Rejected("exact-sm_90a artifact identity is unavailable"),
            ),
            (Some(_), Err(error)) => Err(error),
            (Some(artifact), Ok(capability)) => Ok(
                TmaBinding {
                    allocation_domain: facts.stream,
                    artifact,
                    compiler: facts.compiler->Some_0,
                    device: bound_device(facts, capability, sm90a_target()),
                    device_caps: None,
                    target: None,
                },
            ),
        }
    }
}

/// Binds the SM90a kernels.
pub fn sm90a_map_binding(facts: &TmaModuleFacts) -> (result: Result<TmaBinding, LaunchError>)
    ensures
        result == sm90a_binding(*facts),
{
    if facts.tensor_map_access == 0 {
        return Err(LaunchError::Rejected("SM90a WGMMA requires CUDA tensor-map access support"));
    }
    let allocation_domain = validated_allocation_domain(facts.stream, facts.kernels, "SM90a")?;
    let compiler = match facts.compiler {
        Some(compiler) => {
            if compiler.target != sm90a_target() {
                return Err(
                    LaunchError::Rejected("exact-sm_90a compiler identity is unavailable"),
                );
            }
            compiler
        },
        None => {
            return Err(LaunchError::Rejected("exact-sm_90a compiler identity is unavailable"));
        },
    };
    let artifact = match find_family_artifact(facts, ModuleKind::TriadSm90a) {
        Some(artifact) => artifact,
        None => {
            return Err(LaunchError::Rejected("exact-sm_90a artifact identity is unavailable"));
        },
    };
    let capability = recorded_capability(facts.capability)?;
    let device = specialized_device_identity(
        capability,
        facts.multiprocessor_count,
        sm90a_target(),
        facts.driver,
    );
    Ok(
        TmaBinding {
            allocation_domain,
            artifact,
            compiler,
            device,
            device_caps: None,
            target: None,
        },
    )
}

/// What the SM100 kernels are bound to.
pub open spec fn sm100_binding(facts: TmaModuleFacts) -> Result<TmaBinding, LaunchError> {
    if facts.tensor_map_access == 0 {
        Err(LaunchError::Rejected("SM100 TCGEN requires CUDA tensor-map access support"))
    } else if facts.stream != facts.kernels {
        Err(LaunchError::ForeignDomain("SM100", facts.stream, facts.kernels))
    } else {
        match facts.target {
            None => Err(LaunchError::Rejected("SM100 target identity is unavailable")),
            Some(target) => if !(facts.compiler matches Some(compiler) && compiler.target
                == target.nvrtc_arch) {
                Err(LaunchError::Rejected("SM100 compiler identity is unavailable"))
            } else {
                match family_artifact(facts, ModuleKind::TriadSm100) {
                    None => Err(LaunchError::Rejected("SM100 artifact identity is unavailable")),
                    Some(artifact) => if facts.capability != target.device_cc {
                        Err(
                            LaunchError::Rejected(
                                "SM100 module target does not match the CUDA device minor",
                            ),
                        )
                    } else {
                        match recorded_capability(facts.capability) {
                            Err(error) => Err(error),
                            Ok(capability) => Ok(
                                TmaBinding {
                                    allocation_domain: facts.stream,
                                    artifact,
                                    compiler: facts.compiler->Some_0,
                                    device: bound_device(
                                        facts,
                                        capability,
                                        facts.portable_target,
                                    ),
                                    device_caps: None,
                                    target: Some(target),
                                },
                            ),
                        }
                    },
                }
            },
        }
    }
}

/// Binds the SM100 kernels.
pub fn sm100_map_binding(facts: &TmaModuleFacts) -> (result: Result<TmaBinding, LaunchError>)
    ensures
        result == sm100_binding(*facts),
{
    if facts.tensor_map_access == 0 {
        return Err(LaunchError::Rejected("SM100 TCGEN requires CUDA tensor-map access support"));
    }
    let allocation_domain = validated_allocation_domain(facts.stream, facts.kernels, "SM100")?;
    let target = match facts.target {
        Some(target) => target,
        None => {
            return Err(LaunchError::Rejected("SM100 target identity is unavailable"));
        },
    };
    let compiler = match facts.compiler {
        Some(compiler) => {
            if compiler.target != target.nvrtc_arch {
                return Err(LaunchError::Rejected("SM100 compiler identity is unavailable"));
            }
            compiler
        },
        None => {
            return Err(LaunchError::Rejected("SM100 compiler identity is unavailable"));
        },
    };
    let artifact = match find_family_artifact(facts, ModuleKind::TriadSm100) {
        Some(artifact) => artifact,
        None => {
            return Err(LaunchError::Rejected("SM100 artifact identity is unavailable"));
        },
    };
    if facts.capability.0 != target.device_cc.0 || facts.capability.1 != target.device_cc.1 {
        return Err(
            LaunchError::Rejected("SM100 module target does not match the CUDA device minor"),
        );
    }
    let capability = recorded_capability(facts.capability)?;
    let device = specialized_device_identity(
        capability,
        facts.multiprocessor_count,
        facts.portable_target,
        facts.driver,
    );
    Ok(
        TmaBinding {
            allocation_domain,
            artifact,
            compiler,
            device,
            device_caps: None,
            target: Some(target),
        },
    )
}

/// What the SM120 kernels are bound to. The board must still be the one that
/// the module was qualified on.
pub open spec fn sm120_binding(facts: TmaModuleFacts) -> Result<TmaBinding, LaunchError> {
    if facts.stream != facts.kernels {
        Err(LaunchError::ForeignDomain("SM120", facts.stream, facts.kernels))
    } else {
        match (facts.compiler, facts.target) {
            (None, _) => Err(LaunchError::Rejected("SM120 compiler identity is unavailable")),
            (Some(_), None) => Err(
                LaunchError::Rejected("SM120 generic target identity is unavailable"),
            ),
            (Some(compiler), Some(target)) => if target.device_cc != facts.capability {
                Err(
                    LaunchError::Rejected(
                        "SM120 module target does not match the CUDA device minor",
                    ),
                )
            } else if compiler.target != target.nvrtc_arch {
                Err(
                    LaunchError::Rejected(
                        "SM120 compiler target does not match the accepted transaction",
                    ),
                )
            } else {
                match (
                    family_artifact(facts, ModuleKind::TriadSm120),
                    board_caps(
                        SM120_OPTIN_SHARED,
                        target.nvrtc_arch,
                        compiler.nvrtc_version,
                        facts.capability,
                        facts.optin_shared,
                        facts.tensor_map_access,
                    ),
                ) {
                    (None, _) => Err(
                        LaunchError::Rejected("SM120 artifact identity is unavailable"),
                    ),
                    (Some(_), Err(error)) => Err(error),
                    (Some(artifact), Ok(caps)) => if facts.qualified_caps != Some(caps) {
                        Err(
                            LaunchError::Rejected(
                                "SM120 device capabilities changed since module qualification",
                            ),
                        )
                    } else {
                        Ok(
                            TmaBinding {
                                allocation_domain: facts.stream,
                                artifact,
                                compiler,
                                device: bound_device(
                                    facts,
                                    caps.compute_capability,
                                    target.ptx_target,
                                ),
                                device_caps: Some(caps),
                                target: Some(target),
                            },
                        )
                    },
                }
            },
        }
    }
}

/// Binds the SM120 kernels.
pub fn sm120_map_binding(facts: &TmaModuleFacts) -> (result: Result<TmaBinding, LaunchError>)
    ensures
        result == sm120_binding(*facts),
{
    let allocation_domain = validated_allocation_domain(facts.stream, facts.kernels, "SM120")?;
    let compiler = match facts.compiler {
        Some(compiler) => compiler,
        None => {
            return Err(LaunchError::Rejected("SM120 compiler identity is unavailable"));
        },
    };
    let target = match facts.target {
        Some(target) => target,
        None => {
            return Err(LaunchError::Rejected("SM120 generic target identity is unavailable"));
        },
    };
    if facts.capability.0 != target.device_cc.0 || facts.capability.1 != target.device_cc.1 {
        return Err(
            LaunchError::Rejected("SM120 module target does not match the CUDA device minor"),
        );
    }
    if compiler.target != target.nvrtc_arch {
        return Err(
            LaunchError::Rejected("SM120 compiler target does not match the accepted transaction"),
        );
    }
    let artifact = match find_family_artifact(facts, ModuleKind::TriadSm120) {
        Some(artifact) => artifact,
        None => {
            return Err(LaunchError::Rejected("SM120 artifact identity is unavailable"));
        },
    };
    let caps = record_board_caps(
        SM120_OPTIN_SHARED,
        target.nvrtc_arch,
        compiler.nvrtc_version,
        facts.capability,
        facts.optin_shared,
        facts.tensor_map_access,
    )?;
    let current = match facts.qualified_caps {
        Some(qualified) => qualified.same(&caps),
        None => false,
    };
    if !current {
        return Err(
            LaunchError::Rejected("SM120 device capabilities changed since module qualification"),
        );
    }
    let device = specialized_device_identity(
        caps.compute_capability,
        facts.multiprocessor_count,
        target.ptx_target,
        facts.driver,
    );
    Ok(
        TmaBinding {
            allocation_domain,
            artifact,
            compiler,
            device,
            device_caps: Some(caps),
            target: Some(target),
        },
    )
}

/// A family is only ever bound to an image of its own.
pub proof fn bindings_hold_their_own_image(facts: TmaModuleFacts)
    ensures
        sm90a_binding(facts) matches Ok(binding) ==> binding.artifact.module_kind is TriadSm90a,
        sm100_binding(facts) matches Ok(binding) ==> binding.artifact.module_kind is TriadSm100,
        sm120_binding(facts) matches Ok(binding) ==> binding.artifact.module_kind is TriadSm120,
{
}

/// What the kernels of a family are bound to.
pub open spec fn family_binding(family: TmaFamily, facts: TmaModuleFacts) -> Result<
    TmaBinding,
    LaunchError,
> {
    match family {
        TmaFamily::Sm90a => sm90a_binding(facts),
        TmaFamily::Sm100 => sm100_binding(facts),
        TmaFamily::Sm120 => sm120_binding(facts),
    }
}

/// Binds the kernels of a family.
pub fn family_map_binding(family: TmaFamily, facts: &TmaModuleFacts) -> (result: Result<
    TmaBinding,
    LaunchError,
>)
    ensures
        result == family_binding(family, *facts),
{
    match family {
        TmaFamily::Sm90a => sm90a_map_binding(facts),
        TmaFamily::Sm100 => sm100_map_binding(facts),
        TmaFamily::Sm120 => sm120_map_binding(facts),
    }
}

/// What tensor maps are encoded under, or why none are. `complete` says
/// whether every kernel of the family is loaded. Only SM90a maps may be
/// asked for while a graph is captured.
pub open spec fn maps_gate(
    family: TmaFamily,
    facts: TmaModuleFacts,
    complete: bool,
    capturing: bool,
) -> Result<TmaBinding, LaunchError> {
    if family != TmaFamily::Sm90a && capturing {
        Err(LaunchError::Rejected(tma_texts(family).maps_capturing))
    } else {
        match family_binding(family, facts) {
            Err(error) => Err(error),
            Ok(binding) => if !complete || (family == TmaFamily::Sm90a && facts.capability != (
                9i32,
                0i32,
            )) {
                Err(LaunchError::Rejected(tma_texts(family).maps_module))
            } else {
                Ok(binding)
            },
        }
    }
}

fn pass_maps_gate(
    family: TmaFamily,
    facts: &TmaModuleFacts,
    complete: bool,
    capturing: bool,
) -> (result: Result<TmaBinding, LaunchError>)
    ensures
        result == maps_gate(family, *facts, complete, capturing),
{
    if family != TmaFamily::Sm90a && capturing {
        return Err(LaunchError::Rejected(tma_texts(family).maps_capturing));
    }
    let binding = family_map_binding(family, facts)?;
    if !complete || (family == TmaFamily::Sm90a && (facts.capability.0 != 9 || facts.capability.1
        != 0)) {
        return Err(LaunchError::Rejected(tma_texts(family).maps_module));
    }
    Ok(binding)
}

/// What preparing tensor maps gives. The plan is made in the allocation
/// domain of the binding, and the encoding is told whether a graph is
/// captured.
pub open spec fn tensor_maps_prepared<
    MapPlan,
    Maps,
    Plan: FnOnce(TmaMapRequest, AllocationDomain) -> Result<MapPlan, LaunchError>,
    Encode: FnOnce(TmaMapRequest, MapPlan, bool, TmaBinding) -> Result<Maps, LaunchError>,
>(
    gate: Result<TmaBinding, LaunchError>,
    request: TmaMapRequest,
    capturing: bool,
    plan: Plan,
    encode: Encode,
    result: Result<Maps, LaunchError>,
) -> bool {
    match gate {
        Err(error) => result == Err::<Maps, LaunchError>(error),
        Ok(binding) => exists|planned: Result<MapPlan, LaunchError>|
            #![trigger call_ensures(plan, (request, binding.allocation_domain), planned)]
            call_ensures(plan, (request, binding.allocation_domain), planned) && match planned {
                Err(error) => result == Err::<Maps, LaunchError>(error),
                Ok(map_plan) => call_ensures(
                    encode,
                    (request, map_plan, capturing, binding),
                    result,
                ),
            },
    }
}

/// Maps may be planned in the domain of an accepted binding, and encoded
/// from what the plan may answer.
pub open spec fn maps_due<
    MapPlan,
    Maps,
    Plan: FnOnce(TmaMapRequest, AllocationDomain) -> Result<MapPlan, LaunchError>,
    Encode: FnOnce(TmaMapRequest, MapPlan, bool, TmaBinding) -> Result<Maps, LaunchError>,
>(
    gate: Result<TmaBinding, LaunchError>,
    request: TmaMapRequest,
    capturing: bool,
    plan: Plan,
    encode: Encode,
) -> bool {
    gate matches Ok(binding) ==> {
        &&& call_requires(plan, (request, binding.allocation_domain))
        &&& forall|map_plan: MapPlan| #[trigger]
            call_ensures(
                plan,
                (request, binding.allocation_domain),
                Ok::<MapPlan, LaunchError>(map_plan),
            ) ==> call_requires(encode, (request, map_plan, capturing, binding))
    }
}

fn prepare_family_tensor_maps<
    MapPlan,
    Maps,
    Plan: FnOnce(TmaMapRequest, AllocationDomain) -> Result<MapPlan, LaunchError>,
    Encode: FnOnce(TmaMapRequest, MapPlan, bool, TmaBinding) -> Result<Maps, LaunchError>,
>(
    gate: Result<TmaBinding, LaunchError>,
    request: TmaMapRequest,
    capturing: bool,
    plan: Plan,
    encode: Encode,
) -> (result: Result<Maps, LaunchError>)
    requires
        maps_due(gate, request, capturing, plan, encode),
    ensures
        tensor_maps_prepared(gate, request, capturing, plan, encode, result),
{
    let binding = match gate {
        Err(error) => {
            return Err(error);
        },
        Ok(binding) => binding,
    };
    match plan(request, binding.allocation_domain) {
        Err(error) => Err(error),
        Ok(map_plan) => encode(request, map_plan, capturing, binding),
    }
}

/// Encodes the tensor maps of an SM90a product. A loaded exact module is
/// needed on a device of capability 9.0.
pub fn prepare_sm90a_tensor_maps<
    MapPlan,
    Maps,
    Plan: FnOnce(TmaMapRequest, AllocationDomain) -> Result<MapPlan, LaunchError>,
    Encode: FnOnce(TmaMapRequest, MapPlan, bool, TmaBinding) -> Result<Maps, LaunchError>,
>(
    request: TmaMapRequest,
    facts: &TmaModuleFacts,
    complete: bool,
    capturing: bool,
    plan: Plan,
    encode: Encode,
) -> (result: Result<Maps, LaunchError>)
    requires
        maps_due(
            maps_gate(TmaFamily::Sm90a, *facts, complete, capturing),
            request,
            capturing,
            plan,
            encode,
        ),
    ensures
        tensor_maps_prepared(
            maps_gate(TmaFamily::Sm90a, *facts, complete, capturing),
            request,
            capturing,
            plan,
            encode,
            result,
        ),
{
    let gate = pass_maps_gate(TmaFamily::Sm90a, facts, complete, capturing);
    prepare_family_tensor_maps(gate, request, capturing, plan, encode)
}

/// Encodes the tensor maps of an SM100 product before graph capture begins.
pub fn prepare_sm100_tensor_maps<
    MapPlan,
    Maps,
    Plan: FnOnce(TmaMapRequest, AllocationDomain) -> Result<MapPlan, LaunchError>,
    Encode: FnOnce(TmaMapRequest, MapPlan, bool, TmaBinding) -> Result<Maps, LaunchError>,
>(
    request: TmaMapRequest,
    facts: &TmaModuleFacts,
    complete: bool,
    capturing: bool,
    plan: Plan,
    encode: Encode,
) -> (result: Result<Maps, LaunchError>)
    requires
        maps_due(
            maps_gate(TmaFamily::Sm100, *facts, complete, capturing),
            request,
            capturing,
            plan,
            encode,
        ),
    ensures
        tensor_maps_prepared(
            maps_gate(TmaFamily::Sm100, *facts, complete, capturing),
            request,
            capturing,
            plan,
            encode,
            result,
        ),
{
    let gate = pass_maps_gate(TmaFamily::Sm100, facts, complete, capturing);
    prepare_family_tensor_maps(gate, request, capturing, plan, encode)
}

/// Encodes the tensor maps of an SM120 product before graph capture begins.
pub fn prepare_sm120_tensor_maps<
    MapPlan,
    Maps,
    Plan: FnOnce(TmaMapRequest, AllocationDomain) -> Result<MapPlan, LaunchError>,
    Encode: FnOnce(TmaMapRequest, MapPlan, bool, TmaBinding) -> Result<Maps, LaunchError>,
>(
    request: TmaMapRequest,
    facts: &TmaModuleFacts,
    complete: bool,
    capturing: bool,
    plan: Plan,
    encode: Encode,
) -> (result: Result<Maps, LaunchError>)
    requires
        maps_due(
            maps_gate(TmaFamily::Sm120, *facts, complete, capturing),
            request,
            capturing,
            plan,
            encode,
        ),
    ensures
        tensor_maps_prepared(
            maps_gate(TmaFamily::Sm120, *facts, complete, capturing),
            request,
            capturing,
            plan,
            encode,
            result,
        ),
{
    let gate = pass_maps_gate(TmaFamily::Sm120, facts, complete, capturing);
    prepare_family_tensor_maps(gate, request, capturing, plan, encode)
}

/// Outside of SM90a nothing is encoded while a graph is captured: no binding
/// is accepted, so neither a plan nor an encoding is called for.
pub proof fn captures_encode_nothing<
    MapPlan,
    Maps,
    Plan: FnOnce(TmaMapRequest, AllocationDomain) -> Result<MapPlan, LaunchError>,
    Encode: FnOnce(TmaMapRequest, MapPlan, bool, TmaBinding) -> Result<Maps, LaunchError>,
>(
    family: TmaFamily,
    facts: TmaModuleFacts,
    complete: bool,
    request: TmaMapRequest,
    plan: Plan,
    encode: Encode,
)
    requires
        family != TmaFamily::Sm90a,
    ensures
        maps_due::<MapPlan, Maps, Plan, Encode>(
            maps_gate(family, facts, complete, true),
            request,
            true,
            plan,
            encode,
        ),
        maps_gate(family, facts, complete, true) == Err::<TmaBinding, LaunchError>(
            LaunchError::Rejected(tma_texts(family).maps_capturing),
        ),
{
}

} // verus!
