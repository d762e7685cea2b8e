use gemm_bi_triad::error::LaunchError;
use gemm_bi_triad::identity::{
    AllocationDomain, ArtifactIdentity, ArtifactKind, CompilerIdentity, CudaTarget, DeviceCaps,
    DriverIdentity, HalfTriadPolicy, ModuleKind, PhysicalGemmBackend, PolicyDtype,
    ResolvedGemmRoute, ResolvedInstructionFamily, ResolvedInstructionShape,
    ResolvedNumericContract, ResolvedOperandConversion, ResolvedOutputOwnership, WeightDtype,
};
use gemm_bi_triad::kernel::{KernelArg, ResolvedKernelLaunch, TensorMap};
use gemm_bi_triad::params::{Sm100KernelParams, Sm120KernelParams};
use gemm_bi_triad::shape::{F32TriadShape, ResolvedGemmOp};
use gemm_bi_triad::tf32_plan::FoldLimits;
use gemm_bi_triad::tf32_routes::Tf32TensorOrigins;
use gemm_bi_triad::tma::{
    sm120_launch_grid, sm120_streamk_workspace, sm90a_launch_config, tma_policy_dtype, tma_texts,
    validate_tma_operands, TmaBinding, TmaFamily, TmaForcedRoute, TmaLaunchOperands,
    TmaMapRequest, TmaPhysicalRoute, TmaPreparedMaps, TmaSchedule, TmaTargetCandidate, TmaTile,
};
use gemm_bi_triad::tma_auto::{
    tma_decline, TmaDecline,
    launch_sm100_auto, launch_sm120_auto, launch_sm90a_auto, prepare_sm100_auto_graph_sequence,
    prepare_sm120_auto_graph_sequence, prepare_sm90a_auto_graph_sequence, tma_auto_route,
    tma_graph_route, tma_missing_text, tma_symbol_text, tma_unqualified_text, Sm90aPreparedLaunch,
    TmaAutoFacts, TmaAvailability, SM90A_LAUNCH_CHANGED,
};
use gemm_bi_triad::tma_binding::{
    prepare_sm100_tensor_maps, prepare_sm120_tensor_maps, prepare_sm90a_tensor_maps,
    query_specialized_device_caps, recorded_capability, sm100_map_binding, sm120_map_binding,
    sm90a_map_binding, sm90a_target, TmaModuleFacts,
};
use gemm_bi_triad::tma_forced::{
    launch_sm100_tcgen_prepared, launch_sm120_tma_prepared, launch_sm90a_wgmma_forced,
    prepare_sm100_tcgen_forced, prepare_sm120_tma_forced, sm90a_forced_identity, tma_replay_texts,
    validate_sm100_graph_replay, validate_sm120_graph_replay, validate_sm90a_graph_replay,
    TmaForcedFacts, TmaKernelCensus, TmaKernelSpec, TmaLaunchFacts, TmaLaunchSet, TmaNumericContract,
    TmaPreparedLaunch, TmaReplayFacts, TmaResources, TmaRevisions, TmaRouteIdentity,
    SM120_REPLAY_SET_CHANGED, SM90A_REPLAY_CHANGED,
};

const ONE: u32 = 0x3f80_0000;
const ZERO: u32 = 0;
const STREAM: u64 = 77;

const CENSUS: TmaKernelCensus = TmaKernelCensus {
    registers: 168,
    local_bytes: 0,
    static_shared_bytes: 64,
    max_threads: 256,
    active_blocks: 1,
};

fn module_kind(family: TmaFamily) -> ModuleKind {
    match family {
        TmaFamily::Sm90a => ModuleKind::TriadSm90a,
        TmaFamily::Sm100 => ModuleKind::TriadSm100,
        TmaFamily::Sm120 => ModuleKind::TriadSm120,
    }
}

fn target(family: TmaFamily) -> TmaTargetCandidate {
    match family {
        TmaFamily::Sm90a => TmaTargetCandidate {
            device_cc: (9, 0),
            nvrtc_arch: sm90a_target(),
            ptx_target: sm90a_target(),
        },
        TmaFamily::Sm100 => TmaTargetCandidate {
            device_cc: (10, 0),
            nvrtc_arch: CudaTarget::sm(100),
            ptx_target: CudaTarget::sm(100),
        },
        TmaFamily::Sm120 => TmaTargetCandidate {
            device_cc: (12, 0),
            nvrtc_arch: CudaTarget::compute(120),
            ptx_target: CudaTarget::sm(120),
        },
    }
}

fn module(family: TmaFamily) -> TmaModuleFacts {
    let target = target(family);
    let domain = AllocationDomain {
        context_handle: 5,
        device_ordinal: 0,
    };
    let mut facts = TmaModuleFacts {
        stream: domain,
        kernels: domain,
        tensor_map_access: 1,
        optin_shared: 101_376,
        capability: target.device_cc,
        compiler: Some(CompilerIdentity {
            source_digest: [1; 32],
            invocation_digest: [2; 32],
            header_manifest_digest: [3; 32],
            target: target.nvrtc_arch,
            nvrtc_version: (12, 8),
            nvrtc_library_domain: [4; 32],
            nvrtc_library_known: true,
            output_kind: ArtifactKind::Ptx,
            composer_revision: 1,
            compiler_revision: 1,
            numeric_abi_revision: 1,
            schedule_revision: 1,
        }),
        target: Some(target),
        specialized: Some(ArtifactIdentity {
            module_kind: module_kind(family),
            artifact_kind: ArtifactKind::Ptx,
            compile_key: [5; 32],
            artifact_digest: [6; 32],
        }),
        qualified_caps: None,
        multiprocessor_count: 170,
        portable_target: CudaTarget::sm(100),
        driver: DriverIdentity {
            api_version: 12_800,
            build_sources: 1,
            build_digest: [7; 32],
        },
    };
    facts.qualified_caps = Some(
        query_specialized_device_caps(
            target.nvrtc_arch,
            (12, 8),
            target.device_cc,
            101_376,
            1,
        )
        .unwrap(),
    );
    facts
}

fn binding(family: TmaFamily) -> TmaBinding {
    let facts = module(family);
    match family {
        TmaFamily::Sm90a => sm90a_map_binding(&facts),
        TmaFamily::Sm100 => sm100_map_binding(&facts),
        TmaFamily::Sm120 => sm120_map_binding(&facts),
    }
    .unwrap()
}

fn route(schedule: TmaSchedule) -> TmaForcedRoute {
    TmaForcedRoute {
        op: ResolvedGemmOp::Nn,
        dtype: WeightDtype::Bf16,
        physical: TmaPhysicalRoute {
            tile: TmaTile {
                rows: 128,
                columns: 64,
            },
            bk: 64,
            stages: 3,
            schedule,
            threads: 384,
            wide_m_warp: false,
        },
        shape: F32TriadShape::contiguous(ResolvedGemmOp::Nn, (300, 128, 200)),
    }
}

fn maps(family: TmaFamily, route: TmaForcedRoute) -> TmaPreparedMaps {
    TmaPreparedMaps {
        request: TmaMapRequest {
            op: route.op,
            dtype: route.dtype,
            tile: route.physical.tile,
            bk: route.physical.bk,
            a_ptr: 0x1_0000,
            b_ptr: 0x2_0000,
            shape: route.shape,
        },
        binding: binding(family),
        origins: Tf32TensorOrigins {
            a_x: 1,
            a_y: 2,
            b_x: 3,
            b_y: 4,
        },
        a: TensorMap { bytes: [1; 128] },
        b: TensorMap { bytes: [2; 128] },
        identity: [8; 32],
    }
}

fn operands() -> TmaLaunchOperands {
    TmaLaunchOperands {
        output_ptr: 0x3_0000,
        bias_ptr: 0x4_0000,
        alpha: ONE,
        beta: ZERO,
    }
}

fn resources() -> TmaResources {
    TmaResources {
        allocations: [9; 32],
        digest: [10; 32],
    }
}

fn kernel() -> TmaKernelSpec {
    TmaKernelSpec {
        symbol: "gemm_bi_nn_tma",
        threads: 256,
        dynamic_shared_bytes: 65_536,
    }
}

fn forced(family: TmaFamily, route: TmaForcedRoute) -> TmaForcedFacts {
    TmaForcedFacts {
        capturing: false,
        module: module(family),
        live_allocations: Ok(()),
        resolved: Ok(Some(route)),
        spec: Ok(kernel()),
        census: Some(CENSUS),
        resources: Ok(resources()),
        revisions: TmaRevisions {
            tensor_map: 3,
            tuning: 4,
            schedule: 5,
        },
    }
}

fn launch_set(identity: TmaRouteIdentity) -> Result<TmaLaunchSet, LaunchError> {
    Ok(TmaLaunchSet {
        launch_count: 1,
        ordered_digest: identity.resources_digest,
    })
}

fn sm100_prepared(route: TmaForcedRoute) -> TmaPreparedLaunch {
    prepare_sm100_tcgen_forced(
        route,
        &maps(TmaFamily::Sm100, route),
        operands(),
        &forced(TmaFamily::Sm100, route),
    )
    .unwrap()
}

fn sm120_prepared(route: TmaForcedRoute) -> TmaPreparedLaunch {
    prepare_sm120_tma_forced(
        STREAM,
        route,
        &maps(TmaFamily::Sm120, route),
        operands(),
        &forced(TmaFamily::Sm120, route),
        launch_set,
    )
    .unwrap()
}

fn replay(family: TmaFamily) -> TmaReplayFacts {
    TmaReplayFacts {
        stream_handle: STREAM,
        module: module(family),
        live_allocations: Ok(()),
        resources: Ok(resources()),
    }
}

fn live(family: TmaFamily) -> TmaLaunchFacts {
    TmaLaunchFacts {
        stream_handle: STREAM,
        module: module(family),
        spec: Ok(kernel()),
        loaded: true,
        limits: FoldLimits {
            slots_per_cta: 2,
            slab_floats: 2_048,
            counter_capacity: 4_096,
        },
        buffers: Ok((0x7_0000, 0x8_0000)),
    }
}

fn resolved(family: TmaFamily, route: TmaForcedRoute) -> ResolvedGemmRoute {
    let bound = binding(family);
    ResolvedGemmRoute {
        op: route.op,
        dtype: PolicyDtype::Bf16,
        backend: PhysicalGemmBackend::Sm80Mma16V1,
        numeric_contract: ResolvedNumericContract::MmaSyncF32V1,
        instruction_family: ResolvedInstructionFamily::MmaSync,
        instruction_shape: ResolvedInstructionShape { m: 16, n: 8, k: 16 },
        operand_conversion: ResolvedOperandConversion::Unconverted,
        ownership: ResolvedOutputOwnership::OneCtaPerOutputTileV1,
        symbol: "gemm_bi_nn_tma",
        module_kind: module_kind(family),
        target: bound.device.target,
        artifact: bound.artifact,
        compiler: bound.compiler,
        device: bound.device,
        device_caps: module(family).qualified_caps.unwrap(),
        shape: (300, 128, 200),
        strides: (128, 200, 200),
        tile: (128, 64),
        bk: 64,
        stages: 3,
        threads: 256,
        launch: ResolvedKernelLaunch {
            grid_dim: (12, 1, 1),
            block_dim: (256, 1, 1),
            shared_mem_bytes: 65_536,
            arguments_digest: [11; 32],
        },
        tensor_map_revision: 3,
        tensor_maps_digest: [8; 32],
        resources_digest: [10; 32],
        tuning_table_revision: 4,
        schedule_revision: 5,
    }
}

fn auto_facts(family: TmaFamily, route: TmaForcedRoute) -> TmaAutoFacts {
    TmaAutoFacts {
        available: TmaAvailability {
            module: true,
            caps: true,
            target: true,
        },
        qualified: Some(route),
        caps: Ok(module(family).qualified_caps.unwrap()),
        resolved: Ok(resolved(family, route)),
    }
}

fn rejected<T>(text: &'static str) -> Result<T, LaunchError> {
    Err(LaunchError::Rejected(text))
}

#[test]
fn operands_follow_the_epilogue_of_their_product() {
    for family in [TmaFamily::Sm90a, TmaFamily::Sm100, TmaFamily::Sm120] {
        let texts = tma_texts(family);
        let check = |op, operands| validate_tma_operands(family, op, operands);
        let forward = operands();
        assert_eq!(check(ResolvedGemmOp::Nn, forward), Ok(()));
        let null = TmaLaunchOperands {
            output_ptr: 0,
            ..forward
        };
        assert_eq!(check(ResolvedGemmOp::Nn, null), rejected(texts.null_output));
        let odd = TmaLaunchOperands {
            output_ptr: 0x3_0001,
            ..forward
        };
        assert_eq!(
            check(ResolvedGemmOp::Nn, odd),
            rejected(texts.output_alignment)
        );
        let half = TmaLaunchOperands {
            output_ptr: 0x3_0002,
            bias_ptr: 0,
            alpha: ONE,
            beta: ONE,
        };
        assert_eq!(
            check(ResolvedGemmOp::Tn, half),
            rejected(texts.tn_output_alignment)
        );
        let bias = TmaLaunchOperands {
            bias_ptr: 0x4_0002,
            ..forward
        };
        assert_eq!(
            check(ResolvedGemmOp::Nn, bias),
            rejected(texts.bias_alignment)
        );
        let scaled = TmaLaunchOperands {
            alpha: 0x4000_0000,
            ..forward
        };
        let seeded = if family == TmaFamily::Sm90a {
            Ok(())
        } else {
            rejected(texts.nn_bias_seed)
        };
        assert_eq!(check(ResolvedGemmOp::Nn, scaled), seeded);
        assert_eq!(
            check(ResolvedGemmOp::Tn, forward),
            rejected(texts.tn_epilogue)
        );
        assert_eq!(
            check(ResolvedGemmOp::Nt, forward),
            rejected(texts.nt_epilogue)
        );
        let input = TmaLaunchOperands {
            bias_ptr: 0,
            beta: 0x8000_0000,
            ..forward
        };
        assert_eq!(check(ResolvedGemmOp::Nt, input), Ok(()));
    }
}

#[test]
fn element_types_of_routes_are_half() {
    assert_eq!(
        tma_policy_dtype(TmaFamily::Sm90a, WeightDtype::F16),
        Ok(PolicyDtype::F16)
    );
    assert_eq!(
        tma_policy_dtype(TmaFamily::Sm120, WeightDtype::F32),
        rejected("SM120 automatic route requires BF16 or F16")
    );
}

#[test]
fn sm90a_grids_cover_the_output_in_fixed_tiles() {
    let config = sm90a_launch_config(route(TmaSchedule::Tiled), 4_096).unwrap();
    assert_eq!(config.grid_dim, (5 * 2, 1, 1));
    assert_eq!(config.block_dim, (384, 1, 1));
    assert_eq!(config.shared_mem_bytes, 4_096);
}

#[test]
fn sm120_grids_are_tiled_or_persistent() {
    assert_eq!(
        sm120_launch_grid(route(TmaSchedule::Tiled), 170, 300, 200),
        Ok(3 * 4)
    );
    assert_eq!(
        sm120_launch_grid(route(TmaSchedule::StreamK), 170, 300, 200),
        Ok(170)
    );
    assert_eq!(
        sm120_launch_grid(route(TmaSchedule::StreamK), 0, 300, 200),
        rejected("SM120 stream-K launch requires at least one multiprocessor")
    );
    let mut long = route(TmaSchedule::StreamK);
    long.shape.k = 1 << 31;
    assert_eq!(
        sm120_launch_grid(long, 170, 12_800, 6_400),
        rejected("SM120 stream-K unit count exceeds the kernel's 32-bit range")
    );
}

#[test]
fn sm120_stream_k_workspaces_are_bounded() {
    let limits = FoldLimits {
        slots_per_cta: 2,
        slab_floats: 0,
        counter_capacity: 340,
    };
    let folding = route(TmaSchedule::StreamK);
    assert_eq!(
        sm120_streamk_workspace(route(TmaSchedule::Tiled), 256, 170, limits),
        Ok(false)
    );
    // 256 threads of two atoms: 8192 floats per slab, 1024 slabs at most.
    assert_eq!(sm120_streamk_workspace(folding, 256, 170, limits), Ok(true));
    assert_eq!(
        sm120_streamk_workspace(folding, 256, 171, limits),
        rejected("SM120 stream-K flags exceed the fixed counter workspace")
    );
    let roomy = FoldLimits {
        counter_capacity: 4_096,
        ..limits
    };
    assert_eq!(sm120_streamk_workspace(folding, 256, 512, roomy), Ok(true));
    assert_eq!(
        sm120_streamk_workspace(folding, 256, 513, roomy),
        rejected("SM120 stream-K slabs exceed the fixed workspace")
    );
    let mut wide = folding;
    wide.physical.wide_m_warp = true;
    assert_eq!(sm120_streamk_workspace(wide, 256, 256, roomy), Ok(true));
    assert!(sm120_streamk_workspace(wide, 256, 257, roomy).is_err());
}

#[test]
fn capabilities_are_recorded_from_what_the_driver_answers() {
    assert_eq!(recorded_capability((12, 1)), Ok((12, 1)));
    assert_eq!(
        recorded_capability((-1, 0)),
        Err(LaunchError::NegativeAnswer("CUDA CC major", -1))
    );
    assert_eq!(
        recorded_capability((9, -1)),
        Err(LaunchError::NegativeAnswer("CUDA CC minor", -1))
    );
    assert_eq!(
        query_specialized_device_caps(sm90a_target(), (12, 4), (9, 0), 232_448, 0),
        Ok(DeviceCaps {
            compute_capability: (9, 0),
            nvrtc_version: (12, 4),
            accepted_target: Some(sm90a_target()),
            optin_shared_bytes: 232_448,
            tensor_map_access: false,
        })
    );
    assert_eq!(
        query_specialized_device_caps(sm90a_target(), (12, 4), (9, 0), -1, 1),
        Err(LaunchError::NegativeAnswer("opt-in shared memory", -1))
    );
}

#[test]
fn bindings_hold_only_their_own_module() {
    assert_eq!(binding(TmaFamily::Sm90a).target, None);
    assert_eq!(
        binding(TmaFamily::Sm100).device.target,
        CudaTarget::sm(100)
    );
    let bound = binding(TmaFamily::Sm120);
    assert_eq!(bound.device.target, CudaTarget::sm(120));
    assert_eq!(bound.device.multiprocessor_count, 170);
    assert!(bound.device_caps.is_some());

    let mut facts = module(TmaFamily::Sm90a);
    facts.tensor_map_access = 0;
    assert_eq!(
        sm90a_map_binding(&facts),
        rejected("SM90a WGMMA requires CUDA tensor-map access support")
    );
    let mut facts = module(TmaFamily::Sm90a);
    facts.kernels.context_handle = 6;
    assert_eq!(
        sm90a_map_binding(&facts),
        Err(LaunchError::ForeignDomain(
            "SM90a",
            facts.stream,
            facts.kernels
        ))
    );
    let mut facts = module(TmaFamily::Sm90a);
    facts.compiler = None;
    assert_eq!(
        sm90a_map_binding(&facts),
        rejected("exact-sm_90a compiler identity is unavailable")
    );
    assert_eq!(
        sm100_map_binding(&module(TmaFamily::Sm120)),
        rejected("SM100 artifact identity is unavailable")
    );
    let mut facts = module(TmaFamily::Sm100);
    facts.capability = (10, 3);
    assert_eq!(
        sm100_map_binding(&facts),
        rejected("SM100 module target does not match the CUDA device minor")
    );
    let mut facts = module(TmaFamily::Sm120);
    facts.optin_shared += 1;
    assert_eq!(
        sm120_map_binding(&facts),
        rejected("SM120 device capabilities changed since module qualification")
    );
    facts.target = None;
    assert_eq!(
        sm120_map_binding(&facts),
        rejected("SM120 generic target identity is unavailable")
    );
}

#[test]
fn tensor_maps_are_planned_and_encoded_behind_their_gate() {
    let request = maps(TmaFamily::Sm100, route(TmaSchedule::Tiled)).request;
    let encode = |_: TmaMapRequest, plan: u32, capturing: bool, bound: TmaBinding| {
        Ok::<(u32, bool, u64), LaunchError>((
            plan + 1,
            capturing,
            bound.allocation_domain.context_handle,
        ))
    };
    let plan = |_: TmaMapRequest, domain: AllocationDomain| {
        Ok::<u32, LaunchError>(domain.device_ordinal + 41)
    };
    assert_eq!(
        prepare_sm90a_tensor_maps(request, &module(TmaFamily::Sm90a), true, true, plan, encode),
        Ok((42, true, 5))
    );
    assert_eq!(
        prepare_sm100_tensor_maps(request, &module(TmaFamily::Sm100), true, false, plan, encode),
        Ok((42, false, 5))
    );
    assert_eq!(
        prepare_sm120_tensor_maps(request, &module(TmaFamily::Sm120), true, false, plan, encode),
        Ok((42, false, 5))
    );
    let unplanned = |_: TmaMapRequest, _: AllocationDomain| -> Result<u32, LaunchError> {
        panic!("nothing is planned")
    };
    assert_eq!(
        prepare_sm100_tensor_maps(
            request,
            &module(TmaFamily::Sm100),
            true,
            true,
            unplanned,
            encode
        ),
        rejected("SM100 tensor maps must be prepared before graph capture")
    );
    assert_eq!(
        prepare_sm120_tensor_maps(
            request,
            &module(TmaFamily::Sm120),
            false,
            false,
            unplanned,
            encode
        ),
        rejected("SM120 tensor maps require a complete specialized module")
    );
    let mut later = module(TmaFamily::Sm90a);
    later.capability = (9, 1);
    assert_eq!(
        prepare_sm90a_tensor_maps(request, &later, true, false, unplanned, encode),
        rejected("SM90a tensor maps require a loaded exact-sm_90a module")
    );
    let refused = |_: TmaMapRequest, _: AllocationDomain| rejected::<u32>("no plan");
    assert_eq!(
        prepare_sm100_tensor_maps(
            request,
            &module(TmaFamily::Sm100),
            true,
            false,
            refused,
            encode
        ),
        rejected("no plan")
    );
}

#[test]
fn a_forced_sm90a_launch_runs_under_its_identity() {
    let route = route(TmaSchedule::Tiled);
    let maps = maps(TmaFamily::Sm90a, route);
    let facts = forced(TmaFamily::Sm90a, route);
    let (launch, identity) =
        launch_sm90a_wgmma_forced(route, &maps, operands(), &facts, true).unwrap();
    assert_eq!(launch.symbol, "gemm_bi_nn_tma");
    assert_eq!(launch.config.grid_dim, (10, 1, 1));
    assert_eq!(launch.config.block_dim, (384, 1, 1));
    assert_eq!(
        launch.args,
        vec![
            KernelArg::Pointer(0x3_0000),
            KernelArg::TensorMap(maps.a),
            KernelArg::TensorMap(maps.b),
            KernelArg::Pointer(0x4_0000),
            KernelArg::Float(ONE),
            KernelArg::Float(ZERO),
            KernelArg::Int(300),
            KernelArg::Int(128),
            KernelArg::Int(200),
            KernelArg::Int(200),
        ]
    );
    assert_eq!(identity.numeric_contract, TmaNumericContract::WgmmaV1);
    assert_eq!(identity.module_kind, ModuleKind::TriadSm90a);
    assert_eq!(
        identity.revisions,
        TmaRevisions {
            tensor_map: 0,
            tuning: 0,
            schedule: 0
        }
    );
    assert_eq!(identity.tensor_maps_digest, [8; 32]);
    assert_eq!(identity.resources_digest, [10; 32]);
    assert_eq!(
        validate_sm90a_graph_replay(route, &maps, operands(), &facts, &identity),
        Ok(())
    );
    let mut captured = identity;
    captured.resources_digest = [0; 32];
    assert_eq!(
        validate_sm90a_graph_replay(route, &maps, operands(), &facts, &captured),
        rejected(SM90A_REPLAY_CHANGED)
    );
    let mut capturing = facts;
    capturing.capturing = true;
    assert_eq!(
        sm90a_forced_identity(route, &maps, operands(), &capturing),
        Ok(identity)
    );
    assert!(matches!(
        launch_sm90a_wgmma_forced(route, &maps, operands(), &facts, false),
        Err(LaunchError::Unavailable("SM90a kernel", "gemm_bi_nn_tma"))
    ));
}

#[test]
fn forced_routes_are_refused_for_the_first_rule_that_they_break() {
    let route = route(TmaSchedule::Tiled);
    let maps = maps(TmaFamily::Sm120, route);
    let facts = forced(TmaFamily::Sm120, route);
    let prepare = |route, maps: &TmaPreparedMaps, operands, facts: &TmaForcedFacts| {
        prepare_sm120_tma_forced(STREAM, route, maps, operands, facts, launch_set).map(|_| ())
    };
    let texts = tma_texts(TmaFamily::Sm120);
    assert_eq!(prepare(route, &maps, operands(), &facts), Ok(()));
    assert_eq!(sm120_prepared(route).kernel_resources, Some(CENSUS));
    assert_eq!(sm100_prepared(route).kernel_resources, None);

    let mut broken = facts;
    broken.census = None;
    broken.resources = rejected("gone");
    assert_eq!(
        prepare(route, &maps, operands(), &broken),
        Err(LaunchError::Unavailable(
            "SM120 resource census for",
            kernel().symbol
        ))
    );
    broken.spec = rejected("no kernel");
    assert_eq!(
        prepare(route, &maps, operands(), &broken),
        rejected("no kernel")
    );
    broken.resolved = Ok(None);
    assert_eq!(
        prepare(route, &maps, operands(), &broken),
        rejected(texts.unavailable)
    );
    let mut other = maps;
    other.request.bk = 32;
    assert_eq!(
        prepare(route, &other, operands(), &broken),
        rejected(texts.other_maps)
    );
    broken.live_allocations = rejected("freed");
    assert_eq!(
        prepare(route, &other, operands(), &broken),
        rejected("freed")
    );
    other.binding.artifact.artifact_digest = [0; 32];
    assert_eq!(
        prepare(route, &other, operands(), &broken),
        rejected(texts.foreign_maps)
    );
    broken.module.compiler = None;
    assert_eq!(
        prepare(route, &other, operands(), &broken),
        rejected("SM120 compiler identity is unavailable")
    );
    let mut short = route;
    short.shape.ldc = 1;
    assert!(matches!(
        prepare(short, &other, operands(), &broken),
        Err(LaunchError::InvalidDimensions(_))
    ));
    broken.capturing = true;
    assert_eq!(
        prepare(short, &other, operands(), &broken),
        rejected(texts.capturing)
    );
    assert_eq!(
        prepare_sm120_tma_forced(STREAM, route, &maps, operands(), &facts, |_| {
            rejected("no launch set")
        })
        .map(|_| ()),
        rejected("no launch set")
    );
}

#[test]
fn prepared_launches_seal_their_parameters_and_identity() {
    let route = route(TmaSchedule::StreamK);
    let prepared = sm120_prepared(route);
    assert_eq!(
        Sm120KernelParams::from_words(prepared.params),
        Sm120KernelParams {
            a_x: 1,
            a_y: 2,
            b_x: 3,
            b_y: 4,
            alpha: ONE,
            beta: ZERO,
            m: 300,
            k: 128,
            n: 200,
            ldc: 200,
        }
    );
    assert_eq!(
        prepared.identity.numeric_contract,
        TmaNumericContract::TmaMma16StreamKV1
    );
    assert_eq!(prepared.identity.revisions.schedule, 5);
    assert_eq!(prepared.stream_handle, Some(STREAM));
    assert_eq!(
        prepared.launch_set,
        Some(TmaLaunchSet {
            launch_count: 1,
            ordered_digest: [10; 32]
        })
    );

    let prepared = sm100_prepared(route);
    assert_eq!(
        prepared.identity.numeric_contract,
        TmaNumericContract::Tcgen05F32V1
    );
    assert_eq!(
        prepared.identity.revisions,
        TmaRevisions {
            tensor_map: 3,
            tuning: 4,
            schedule: 0
        }
    );
    assert_eq!(prepared.stream_handle, None);
    assert_eq!(prepared.launch_set, None);
}

#[test]
fn captured_launches_replay_only_where_nothing_changed() {
    let route = route(TmaSchedule::Tiled);
    let prepared = sm100_prepared(route);
    let texts = tma_replay_texts(TmaFamily::Sm100);
    let facts = replay(TmaFamily::Sm100);
    assert_eq!(validate_sm100_graph_replay(&prepared, &facts), Ok(()));
    // An SM100 launch is not tied to its stream.
    let mut moved = facts;
    moved.stream_handle = 1;
    assert_eq!(validate_sm100_graph_replay(&prepared, &moved), Ok(()));
    let mut changed = facts;
    changed.resources = Ok(TmaResources {
        digest: [0; 32],
        ..resources()
    });
    assert_eq!(
        validate_sm100_graph_replay(&prepared, &changed),
        rejected(texts.2)
    );
    changed.resources = Ok(TmaResources {
        allocations: [0; 32],
        digest: [0; 32],
    });
    assert_eq!(
        validate_sm100_graph_replay(&prepared, &changed),
        rejected(texts.1)
    );
    changed.live_allocations = rejected("freed");
    assert_eq!(
        validate_sm100_graph_replay(&prepared, &changed),
        rejected("freed")
    );
    changed.module.target = None;
    assert_eq!(
        validate_sm100_graph_replay(&prepared, &changed),
        rejected("SM100 prepared launch no longer matches its module context")
    );

    let prepared = sm120_prepared(route);
    let texts = tma_replay_texts(TmaFamily::Sm120);
    let facts = replay(TmaFamily::Sm120);
    assert_eq!(
        validate_sm120_graph_replay(&prepared, &facts, |identity| {
            assert_eq!(identity, prepared.identity);
            launch_set(identity)
        }),
        Ok(())
    );
    assert_eq!(
        validate_sm120_graph_replay(&prepared, &facts, |_| Ok(TmaLaunchSet {
            launch_count: 2,
            ordered_digest: [10; 32]
        })),
        rejected(SM120_REPLAY_SET_CHANGED)
    );
    let unbuilt = |_: TmaRouteIdentity| -> Result<TmaLaunchSet, LaunchError> {
        panic!("a refused replay builds nothing")
    };
    let mut moved = facts;
    moved.stream_handle = 1;
    assert_eq!(
        validate_sm120_graph_replay(&prepared, &moved, unbuilt),
        rejected("SM120 prepared launch belongs to a different CUDA stream")
    );
    let streamless = TmaPreparedLaunch {
        stream_handle: None,
        ..prepared
    };
    assert_eq!(
        validate_sm120_graph_replay(&streamless, &facts, unbuilt),
        rejected("SM120 prepared launch belongs to a different CUDA stream")
    );
    let mut device = facts;
    device.module.driver.api_version += 1;
    assert_eq!(
        validate_sm120_graph_replay(&prepared, &device, unbuilt),
        rejected(texts.0)
    );
    let mut board = facts;
    board.module.optin_shared += 1;
    assert_eq!(
        validate_sm120_graph_replay(&prepared, &board, unbuilt),
        rejected("SM120 device capabilities changed since module qualification")
    );
}

#[test]
fn prepared_launches_pass_their_workspaces_and_parameters() {
    let tiled = route(TmaSchedule::Tiled);
    let prepared = sm100_prepared(tiled);
    let (launch, identity) =
        launch_sm100_tcgen_prepared(&prepared, &live(TmaFamily::Sm100)).unwrap();
    assert_eq!(identity, prepared.identity);
    assert_eq!(launch.config.grid_dim, (12, 1, 1));
    assert_eq!(launch.config.block_dim, (256, 1, 1));
    assert_eq!(
        launch.args,
        vec![
            KernelArg::Pointer(0x3_0000),
            KernelArg::TensorMap(prepared.maps.a),
            KernelArg::TensorMap(prepared.maps.b),
            KernelArg::Pointer(0x4_0000),
            KernelArg::Sm100(Sm100KernelParams::from_words(prepared.params)),
        ]
    );

    let folding = route(TmaSchedule::StreamK);
    let prepared = sm120_prepared(folding);
    let facts = live(TmaFamily::Sm120);
    let (launch, identity) = launch_sm120_tma_prepared(&prepared, &facts).unwrap();
    assert_eq!(identity, prepared.identity);
    assert_eq!(launch.config.grid_dim, (170, 1, 1));
    assert_eq!(
        launch.args,
        vec![
            KernelArg::Pointer(0x3_0000),
            KernelArg::Pointer(0x7_0000),
            KernelArg::Pointer(0x8_0000),
            KernelArg::TensorMap(prepared.maps.a),
            KernelArg::TensorMap(prepared.maps.b),
            KernelArg::Pointer(0x4_0000),
            KernelArg::Sm120(Sm120KernelParams::from_words(prepared.params)),
        ]
    );
    let mut unloaded = facts;
    unloaded.loaded = false;
    unloaded.buffers = rejected("no buffers");
    assert!(matches!(
        launch_sm120_tma_prepared(&prepared, &unloaded),
        Err(LaunchError::Unavailable("SM120 kernel", "gemm_bi_nn_tma"))
    ));
    unloaded.loaded = true;
    assert!(matches!(
        launch_sm120_tma_prepared(&prepared, &unloaded),
        Err(LaunchError::Rejected("no buffers"))
    ));
    let mut renamed = facts;
    renamed.spec = Ok(TmaKernelSpec {
        symbol: "gemm_bi_nn_other",
        ..kernel()
    });
    assert!(matches!(
        launch_sm120_tma_prepared(&prepared, &renamed),
        Err(LaunchError::Rejected(
            "SM120 prepared symbol no longer matches its physical route"
        ))
    ));
}

#[test]
fn unserved_products_decline_and_served_ones_launch() {
    let tiled = route(TmaSchedule::Tiled);
    for family in [TmaFamily::Sm100, TmaFamily::Sm120] {
        let prepared = if family == TmaFamily::Sm100 {
            sm100_prepared(tiled)
        } else {
            sm120_prepared(tiled)
        };
        let launch = |facts: &TmaAutoFacts, prepared: Result<&TmaPreparedLaunch, LaunchError>| {
            if family == TmaFamily::Sm100 {
                launch_sm100_auto(facts, prepared, &live(family))
            } else {
                launch_sm120_auto(facts, prepared, &live(family))
            }
        };
        let facts = auto_facts(family, tiled);
        let taken = launch(&facts, Ok(&prepared)).unwrap().unwrap();
        assert_eq!(taken.route, tiled);
        assert_eq!(taken.record.logical_dtype, PolicyDtype::Bf16);
        assert_eq!(taken.record.physical_resources, None);
        assert_eq!(taken.record.route, resolved(family, tiled));
        assert_eq!(taken.launch.config.grid_dim, (12, 1, 1));

        let mut uncovered = facts;
        uncovered.qualified = None;
        assert_eq!(launch(&uncovered, rejected("not asked")), Ok(None));
        let mut absent = facts;
        absent.available.target = false;
        assert_eq!(launch(&absent, rejected("not asked")), Ok(None));
        assert_eq!(launch(&facts, rejected("no entry")), rejected("no entry"));
        let mut capless = facts;
        capless.caps = rejected("no caps");
        assert_eq!(
            launch(&capless, rejected("no entry")),
            rejected(if family == TmaFamily::Sm100 {
                "no caps"
            } else {
                "no entry"
            })
        );
    }
}

#[test]
fn declines_are_reported_where_a_family_could_serve() {
    let tiled = route(TmaSchedule::Tiled);
    let all = TmaAvailability {
        module: true,
        caps: true,
        target: true,
    };
    let none = TmaAvailability {
        module: false,
        caps: false,
        target: false,
    };
    for family in [TmaFamily::Sm90a, TmaFamily::Sm100] {
        assert_eq!(
            tma_decline(family, false, all, None),
            Some(TmaDecline::NoRoute)
        );
        assert_eq!(tma_decline(family, true, none, None), None);
        assert_eq!(tma_decline(family, true, all, Some(tiled)), None);
    }
    let sm120 = |own_board, available, route| {
        tma_decline(TmaFamily::Sm120, own_board, available, route)
    };
    assert_eq!(sm120(false, none, None), None);
    assert_eq!(sm120(true, none, None), Some(TmaDecline::NoCaps));
    let untargeted = TmaAvailability {
        target: false,
        ..all
    };
    assert_eq!(
        sm120(true, untargeted, Some(tiled)),
        Some(TmaDecline::NoTarget)
    );
    assert_eq!(sm120(true, all, None), Some(TmaDecline::NoRoute));
    assert_eq!(sm120(true, all, Some(tiled)), None);
}

#[test]
fn sm90a_launches_are_sealed_again_before_they_run() {
    let tiled = route(TmaSchedule::Tiled);
    let facts = forced(TmaFamily::Sm90a, tiled);
    let maps = maps(TmaFamily::Sm90a, tiled);
    let identity = sm90a_forced_identity(tiled, &maps, operands(), &facts).unwrap();
    let prepared = Sm90aPreparedLaunch {
        route: tiled,
        maps,
        operands: operands(),
        identity,
    };
    let auto = auto_facts(TmaFamily::Sm90a, tiled);
    let taken = launch_sm90a_auto(&auto, Ok(&prepared), &facts, true)
        .unwrap()
        .unwrap();
    assert_eq!(taken.launch.args.len(), 10);
    let mut changed = facts;
    changed.resources = Ok(TmaResources {
        allocations: [9; 32],
        digest: [0; 32],
    });
    assert_eq!(
        launch_sm90a_auto(&auto, Ok(&prepared), &changed, true),
        rejected(SM90A_LAUNCH_CHANGED)
    );
    let sequence =
        prepare_sm90a_auto_graph_sequence(&auto, Some(&prepared), &facts, true).unwrap();
    assert_eq!(sequence.len(), 1);
    let node = &sequence.launches[0];
    assert_eq!(node.config.grid_dim, (12, 1, 1));
    assert_eq!(node.arguments.values().len(), 10);
    assert_eq!(
        node.arguments.values()[0].bytes()[..8],
        0x3_0000u64.to_le_bytes()
    );
    assert_eq!(node.arguments.values()[1].bytes(), [1; 128]);
    assert_eq!(
        prepare_sm90a_auto_graph_sequence(&auto, None, &facts, true)
            .err()
            .unwrap(),
        LaunchError::Rejected(tma_missing_text(TmaFamily::Sm90a))
    );
    assert_eq!(
        prepare_sm90a_auto_graph_sequence(&auto, Some(&prepared), &facts, false)
            .err()
            .unwrap(),
        LaunchError::Unavailable(
            tma_symbol_text(TmaFamily::Sm90a),
            resolved(TmaFamily::Sm90a, tiled).symbol
        )
    );
}

#[test]
fn graphs_replay_the_routes_that_eager_launches_take() {
    let tiled = route(TmaSchedule::Tiled);
    for family in [TmaFamily::Sm90a, TmaFamily::Sm100, TmaFamily::Sm120] {
        for bits in 0..8u8 {
            let available = TmaAvailability {
                module: bits & 1 != 0,
                caps: bits & 2 != 0,
                target: bits & 4 != 0,
            };
            for qualified in [None, Some(tiled)] {
                assert_eq!(
                    tma_graph_route(family, available, qualified).ok(),
                    tma_auto_route(family, available, qualified)
                );
            }
        }
        let present = TmaAvailability {
            module: true,
            caps: true,
            target: true,
        };
        assert_eq!(
            tma_graph_route(family, present, None),
            rejected(tma_unqualified_text(family))
        );
    }
}

#[test]
fn graph_nodes_hold_the_arguments_of_the_eager_launch() {
    let folding = route(TmaSchedule::StreamK);
    let prepared = sm120_prepared(folding);
    let facts = auto_facts(TmaFamily::Sm120, folding);
    let replay = replay(TmaFamily::Sm120);
    let live = live(TmaFamily::Sm120);
    let sequence = prepare_sm120_auto_graph_sequence(
        &facts,
        Some(&prepared),
        &replay,
        &live,
        &replay,
        &launch_set,
    )
    .unwrap();
    let node = &sequence.launches[0];
    assert_eq!(node.arguments.values().len(), 7);
    assert_eq!(
        node.arguments.values()[1].bytes()[..8],
        0x7_0000u64.to_le_bytes()
    );
    let mut later = replay;
    later.live_allocations = rejected("freed meanwhile");
    assert_eq!(
        prepare_sm120_auto_graph_sequence(
            &facts,
            Some(&prepared),
            &replay,
            &live,
            &later,
            &launch_set,
        )
        .err()
        .unwrap(),
        LaunchError::Rejected("freed meanwhile")
    );

    let tiled = route(TmaSchedule::Tiled);
    let prepared = sm100_prepared(tiled);
    let facts = auto_facts(TmaFamily::Sm100, tiled);
    let replay = self::replay(TmaFamily::Sm100);
    let sequence =
        prepare_sm100_auto_graph_sequence(&facts, Some(&prepared), &replay, true, &replay)
            .unwrap();
    let node = &sequence.launches[0];
    assert_eq!(node.symbol, "gemm_bi_nn_tma");
    assert_eq!(node.arguments.values().len(), 5);
    let mut words = Vec::new();
    for word in prepared.params {
        words.extend_from_slice(&word.to_le_bytes());
    }
    assert_eq!(node.arguments.values()[4].bytes()[..40], words[..]);
    let mut changed = replay;
    changed.module.specialized = None;
    assert_eq!(
        prepare_sm100_auto_graph_sequence(&facts, Some(&prepared), &replay, true, &changed)
            .err()
            .unwrap(),
        LaunchError::Rejected("SM100 prepared launch no longer matches its module context")
    );
}

#[test]
fn maps_serve_the_routes_that_they_were_encoded_for() {
    let tiled = route(TmaSchedule::Tiled);
    let request = |half_policy| gemm_bi_triad::tma::TmaAutoRequest {
        op: tiled.op,
        dtype: tiled.dtype,
        shape: tiled.shape,
        a_ptr: 0x1_0000,
        b_ptr: 0x2_0000,
        multiprocessors: 170,
        half_policy,
        operands: operands(),
    };
    let of = TmaMapRequest::of(tiled, request(HalfTriadPolicy::TiledParityV1));
    assert_eq!(of, maps(TmaFamily::Sm120, tiled).request);
    assert!(of.serves(TmaFamily::Sm120, tiled));
    let mut deeper = tiled;
    deeper.physical.bk = 128;
    assert!(!of.serves(TmaFamily::Sm120, deeper));
    assert!(of.serves(TmaFamily::Sm100, deeper));
    deeper.physical.tile.rows = 64;
    assert!(!of.serves(TmaFamily::Sm100, deeper));
    assert!(of.serves(TmaFamily::Sm90a, deeper));
}
