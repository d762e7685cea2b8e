use gemm_bi_triad::error::LaunchError;
use gemm_bi_triad::identity::{
    AllocationDomain, ArtifactIdentity, ArtifactKind, CompilerIdentity, CudaTarget, DeviceCaps,
    DeviceIdentity, DriverIdentity, ModuleKind, PhysicalGemmBackend, ResolvedInstructionFamily,
    ResolvedInstructionShape, ResolvedNumericContract, ResolvedOperandConversion,
    ResolvedOutputOwnership,
};
use gemm_bi_triad::f32_prepare::Tf32MapBinding;
use gemm_bi_triad::kernel::LaunchConfig;
use gemm_bi_triad::params::{
    Sm100KernelParams, Sm120KernelParams, Sm80Tf32KernelParams, Sm90aTf32KernelParams,
};
use gemm_bi_triad::shape::{F32TriadOperands, F32TriadRequest, F32TriadShape, ResolvedGemmOp};
use gemm_bi_triad::tf32_plan::{
    tf32_splitk_launch_plan, Tf32KernelSpec, Tf32PhysicalRoute, Tf32SplitKLaunchPlan,
    Tf32SplitKSpec, Tf32Tiling,
};
use gemm_bi_triad::tf32_routes::{
    tf32_resolved_route, tf32_splitk_resolved_routes, QualifiedModule, RouteRevisions,
    Tf32LaunchDigests,
};

const ONE: u32 = 0x3f80_0000;
const ZERO: u32 = 0;
const COUNTERS: usize = 65_536;
const REVISIONS: RouteRevisions = RouteRevisions {
    tuning_table: 40,
    schedule: 1,
    zero_reduction_maps: 1,
};

const SMALL: Tf32Tiling = Tf32Tiling {
    rows: 16,
    columns: 32,
    bk: 32,
    stages: 3,
};
const LARGE: Tf32Tiling = Tf32Tiling {
    rows: 32,
    columns: 32,
    bk: 32,
    stages: 3,
};

const TF32_SPLITK2_SPEC: Tf32SplitKSpec = Tf32SplitKSpec {
    op: ResolvedGemmOp::Nn,
    route: Tf32PhysicalRoute::MmaTf32RnaSplitK2V1(SMALL),
    symbol: "gemm_bi_nn_sm80_mma_tf32_splitk2_v1_m16n32_bk32_s3",
    partitions: 2,
    tile: (16, 32),
    bk: 32,
    stages: 3,
    threads: 128,
    dynamic_shared_bytes: 29_696,
};
const TF32_SPLITK4_SPEC: Tf32SplitKSpec = Tf32SplitKSpec {
    route: Tf32PhysicalRoute::MmaTf32RnaSplitK4V1(SMALL),
    symbol: "gemm_bi_nn_sm80_mma_tf32_splitk4_v1_m16n32_bk32_s3",
    partitions: 4,
    ..TF32_SPLITK2_SPEC
};
const TF32_NT_SPLITK4_S3_SPEC: Tf32SplitKSpec = Tf32SplitKSpec {
    op: ResolvedGemmOp::Nt,
    symbol: "gemm_bi_nt_sm80_mma_tf32_splitk4_v1_m16n32_bk32_s3",
    ..TF32_SPLITK4_SPEC
};
const TF32_NT_SPLITK4_S4_SPEC: Tf32SplitKSpec = Tf32SplitKSpec {
    symbol: "gemm_bi_nt_sm80_mma_tf32_splitk4_v1_m16n32_bk32_s4",
    stages: 4,
    dynamic_shared_bytes: 38_912,
    ..TF32_NT_SPLITK4_S3_SPEC
};
const TF32_NT_SPLITK8_S3_SPEC: Tf32SplitKSpec = Tf32SplitKSpec {
    op: ResolvedGemmOp::Nt,
    route: Tf32PhysicalRoute::MmaTf32RnaSplitK8V1(LARGE),
    symbol: "gemm_bi_nt_sm80_mma_tf32_splitk8_v1_m32n32_bk32_s3",
    partitions: 8,
    tile: (32, 32),
    bk: 32,
    stages: 3,
    threads: 128,
    dynamic_shared_bytes: 36_864,
};
const TF32_NT_SPLITK8_S4_SPEC: Tf32SplitKSpec = Tf32SplitKSpec {
    symbol: "gemm_bi_nt_sm80_mma_tf32_splitk8_v1_m32n32_bk32_s4",
    stages: 4,
    dynamic_shared_bytes: 49_152,
    ..TF32_NT_SPLITK8_S3_SPEC
};

/// Plans with partitions that cover the whole reduction.
fn splitk_plan(
    request: F32TriadRequest,
    spec: &Tf32SplitKSpec,
) -> Result<Tf32SplitKLaunchPlan, LaunchError> {
    tf32_splitk_launch_plan(request, spec, Ok(request.shape.reduction(request.op)), COUNTERS)
}

fn scalar_operands(op: ResolvedGemmOp) -> F32TriadOperands {
    F32TriadOperands {
        output: 0x1000,
        a: 0x2000,
        b: 0x3000,
        bias: (op == ResolvedGemmOp::Nn).then_some(0x4000),
        alpha: ONE,
        beta: if op == ResolvedGemmOp::Tn { ONE } else { ZERO },
    }
}

fn compiler(target: CudaTarget, nvrtc_version: (i32, i32)) -> CompilerIdentity {
    CompilerIdentity {
        source_digest: [1; 32],
        invocation_digest: [2; 32],
        header_manifest_digest: [3; 32],
        target,
        nvrtc_version,
        nvrtc_library_domain: [4; 32],
        nvrtc_library_known: true,
        output_kind: ArtifactKind::Ptx,
        composer_revision: 1,
        compiler_revision: 1,
        numeric_abi_revision: 1,
        schedule_revision: 1,
    }
}

fn portable_binding() -> Tf32MapBinding {
    let target = CudaTarget::sm(89);
    Tf32MapBinding {
        allocation_domain: AllocationDomain {
            context_handle: 7,
            device_ordinal: 0,
        },
        qualified: QualifiedModule {
            target,
            artifact: ArtifactIdentity {
                module_kind: ModuleKind::TriadSm80,
                artifact_kind: ArtifactKind::Ptx,
                compile_key: [4; 32],
                artifact_digest: [2; 32],
            },
            compiler: compiler(target, (13, 2)),
            device: DeviceIdentity {
                compute_capability: (8, 9),
                multiprocessor_count: 142,
                target,
                driver: DriverIdentity {
                    api_version: 13_020,
                    build_sources: 1,
                    build_digest: [7; 32],
                },
            },
            device_caps: DeviceCaps {
                compute_capability: (8, 9),
                nvrtc_version: (13, 2),
                accepted_target: Some(target),
                optin_shared_bytes: 99_000,
                tensor_map_access: false,
            },
        },
    }
}

#[test]
fn tf32_splitk_launch_plan_freezes_one_fused_node_and_workspaces() {
    let request = F32TriadRequest {
        op: ResolvedGemmOp::Nn,
        shape: F32TriadShape::contiguous(ResolvedGemmOp::Nn, (64, 1_536, 384)),
    };
    let plan = splitk_plan(request, &TF32_SPLITK4_SPEC).unwrap();
    assert_eq!(plan.scratch_elements, 98_304);
    assert_eq!(plan.counter_elements, 48);
    assert_eq!(plan.fused.grid_dim, (12, 4, 4));
    assert_eq!(plan.fused.block_dim, (128, 1, 1));
    assert_eq!(plan.fused.shared_mem_bytes, 29_696);

    let oversized = F32TriadRequest {
        op: ResolvedGemmOp::Nn,
        shape: F32TriadShape::contiguous(ResolvedGemmOp::Nn, (4_096, 128, 1_024)),
    };
    assert!(splitk_plan(oversized, &TF32_SPLITK4_SPEC).is_err());
    let oversized_row_grid = F32TriadRequest {
        op: ResolvedGemmOp::Nn,
        shape: F32TriadShape::contiguous(ResolvedGemmOp::Nn, (1_048_561, 1, 1)),
    };
    assert!(splitk_plan(oversized_row_grid, &TF32_SPLITK4_SPEC).is_err());
    let wrong_op = F32TriadRequest {
        op: ResolvedGemmOp::Nt,
        shape: F32TriadShape::contiguous(ResolvedGemmOp::Nt, (64, 1_536, 384)),
    };
    assert!(splitk_plan(wrong_op, &TF32_SPLITK4_SPEC).is_err());
}

#[test]
fn tf32_splitk2_launch_plan_and_route_freeze_two_partitions() {
    let request = F32TriadRequest {
        op: ResolvedGemmOp::Nn,
        shape: F32TriadShape::contiguous(ResolvedGemmOp::Nn, (64, 833, 384)),
    };
    let operands = scalar_operands(ResolvedGemmOp::Nn);
    let plan = splitk_plan(request, &TF32_SPLITK2_SPEC).unwrap();
    assert_eq!(plan.scratch_elements, 49_152);
    assert_eq!(plan.counter_elements, 48);
    assert_eq!(plan.fused.grid_dim, (12, 4, 2));
    assert_eq!(plan.fused.block_dim, (128, 1, 1));
    assert_eq!(plan.fused.shared_mem_bytes, 29_696);

    let splitk2 = tf32_splitk_resolved_routes(
        request,
        operands,
        &TF32_SPLITK2_SPEC,
        &portable_binding().qualified,
            REVISIONS,
        [9; 32],
        plan,
    );
    let splitk4_plan = splitk_plan(request, &TF32_SPLITK4_SPEC).unwrap();
    let splitk4 = tf32_splitk_resolved_routes(
        request,
        operands,
        &TF32_SPLITK4_SPEC,
        &portable_binding().qualified,
            REVISIONS,
        [9; 32],
        splitk4_plan,
    );
    assert_eq!(splitk2.len(), 1);
    assert_eq!(splitk2[0].backend, PhysicalGemmBackend::MmaTf32RnaSplitK2V1);
    assert_eq!(
        splitk2[0].numeric_contract,
        ResolvedNumericContract::MmaTf32RnaSplitK2V1
    );
    assert_eq!(
        splitk2[0].ownership,
        ResolvedOutputOwnership::LastCtaPerOutputTileFixedSplitK2ReduceV1
    );
    assert_ne!(splitk2[0].backend, splitk4[0].backend);
    assert_ne!(splitk2[0].numeric_contract, splitk4[0].numeric_contract);
    assert_ne!(splitk2[0].ownership, splitk4[0].ownership);
    assert_ne!(
        splitk2[0].launch.arguments_digest,
        splitk4[0].launch.arguments_digest
    );
}

#[test]
fn tf32_nt_splitk_live_and_reverse_plans_freeze_p4_and_p8_geometry() {
    let cases = [
        ((64, 384, 1_536), (12, 4, 4), (12, 2, 8)),
        ((384, 64, 1_536), (2, 24, 4), (2, 12, 8)),
    ];
    for (dims, p4_grid, p8_grid) in cases {
        let request = F32TriadRequest {
            op: ResolvedGemmOp::Nt,
            shape: F32TriadShape::contiguous(ResolvedGemmOp::Nt, dims),
        };
        for spec in [&TF32_NT_SPLITK4_S3_SPEC, &TF32_NT_SPLITK4_S4_SPEC] {
            let plan = splitk_plan(request, spec).unwrap();
            assert_eq!(plan.scratch_elements, 98_304);
            assert_eq!(plan.counter_elements, 48);
            assert_eq!(plan.fused.grid_dim, p4_grid);
            assert_eq!(plan.fused.block_dim, (128, 1, 1));
            assert_eq!(plan.fused.shared_mem_bytes, spec.dynamic_shared_bytes);
        }
        for spec in [&TF32_NT_SPLITK8_S3_SPEC, &TF32_NT_SPLITK8_S4_SPEC] {
            let plan = splitk_plan(request, spec).unwrap();
            assert_eq!(plan.scratch_elements, 196_608);
            assert_eq!(plan.counter_elements, 24);
            assert_eq!(plan.fused.grid_dim, p8_grid);
            assert_eq!(plan.fused.block_dim, (128, 1, 1));
            assert_eq!(plan.fused.shared_mem_bytes, spec.dynamic_shared_bytes);
        }
    }
}

#[test]
fn tf32_nt_splitk8_has_distinct_numeric_and_ownership_identity() {
    let request = F32TriadRequest {
        op: ResolvedGemmOp::Nt,
        shape: F32TriadShape::contiguous(ResolvedGemmOp::Nt, (64, 384, 1_536)),
    };
    let operands = scalar_operands(ResolvedGemmOp::Nt);
    let p4_plan = splitk_plan(request, &TF32_NT_SPLITK4_S3_SPEC).unwrap();
    let p8_plan = splitk_plan(request, &TF32_NT_SPLITK8_S3_SPEC).unwrap();
    let p4 = tf32_splitk_resolved_routes(
        request,
        operands,
        &TF32_NT_SPLITK4_S3_SPEC,
        &portable_binding().qualified,
            REVISIONS,
        [9; 32],
        p4_plan,
    );
    let p8 = tf32_splitk_resolved_routes(
        request,
        operands,
        &TF32_NT_SPLITK8_S3_SPEC,
        &portable_binding().qualified,
            REVISIONS,
        [9; 32],
        p8_plan,
    );
    assert_eq!(p8[0].backend, PhysicalGemmBackend::MmaTf32RnaSplitK8V1);
    assert_eq!(
        p8[0].numeric_contract,
        ResolvedNumericContract::MmaTf32RnaSplitK8V1
    );
    assert_eq!(
        p8[0].ownership,
        ResolvedOutputOwnership::LastCtaPerOutputTileFixedSplitK8ReduceV1
    );
    assert_eq!(p8[0].tile, (32, 32));
    assert_eq!(p8[0].launch.grid_dim, (12, 2, 8));
    assert_ne!(p4[0].backend, p8[0].backend);
    assert_ne!(p4[0].numeric_contract, p8[0].numeric_contract);
    assert_ne!(p4[0].ownership, p8[0].ownership);
    assert_ne!(p4[0].launch.arguments_digest, p8[0].launch.arguments_digest);
}

fn blackwell_binding(base: QualifiedModule) -> QualifiedModule {
    let module_target = CudaTarget::compute(120);
    let mut binding = base;
    binding.target = module_target;
    binding.compiler.target = module_target;
    binding.device.compute_capability = (12, 0);
    binding.device.multiprocessor_count = 170;
    binding.device.target = CudaTarget::sm(120);
    binding.device_caps.compute_capability = (12, 0);
    binding.device_caps.accepted_target = Some(module_target);
    binding
}

fn tn_underfill_portable_binding() -> QualifiedModule {
    blackwell_binding(portable_binding().qualified)
}

fn rect_wide_sm120_binding() -> QualifiedModule {
    let mut binding = blackwell_binding(portable_binding().qualified);
    binding.artifact.module_kind = ModuleKind::TriadSm120;
    binding.device_caps.tensor_map_access = true;
    binding
}

fn rna_spec(
    op: ResolvedGemmOp,
    route: Tf32PhysicalRoute,
    tiling: Tf32Tiling,
    symbol: &'static str,
    module_kind: ModuleKind,
    launch: (u32, u32),
) -> Tf32KernelSpec {
    Tf32KernelSpec {
        op,
        route,
        symbol,
        module_kind,
        tile: (tiling.rows.into(), tiling.columns.into()),
        bk: tiling.bk.into(),
        stages: tiling.stages,
        threads: launch.0,
        dynamic_shared_bytes: launch.1,
        instruction_family: ResolvedInstructionFamily::MmaSync,
        instruction_shape: ResolvedInstructionShape { m: 16, n: 8, k: 8 },
        operand_conversion: ResolvedOperandConversion::RegisterCvtRnaTf32F32V1,
        tensor_map_revision: 1,
        schedule_revision: 1,
    }
}

#[test]
fn tn_underfill_route_freezes_physical_and_graph_identity() {
    let tiling = Tf32Tiling {
        rows: 16,
        columns: 32,
        bk: 32,
        stages: 4,
    };
    let spec = rna_spec(
        ResolvedGemmOp::Tn,
        Tf32PhysicalRoute::MmaTf32RnaV1(tiling),
        tiling,
        "gemm_bi_tn_sm80_mma_tf32_v1_m16n32_bk32_s4",
        ModuleKind::TriadSm80,
        (128, 32_768),
    );
    let request = F32TriadRequest {
        op: ResolvedGemmOp::Tn,
        shape: F32TriadShape::contiguous(ResolvedGemmOp::Tn, (256, 512, 384)),
    };
    let config = LaunchConfig {
        grid_dim: (384, 1, 1),
        block_dim: (128, 1, 1),
        shared_mem_bytes: 32_768,
    };
    let resolved = tf32_resolved_route(
        request,
        &spec,
        &tn_underfill_portable_binding(),
        REVISIONS,
        Tf32LaunchDigests {
            maps: [0; 32],
            resources: [2; 32],
            arguments: [3; 32],
        },
        false,
        config,
    );

    assert_eq!(
        resolved.symbol,
        "gemm_bi_tn_sm80_mma_tf32_v1_m16n32_bk32_s4"
    );
    assert_eq!(resolved.module_kind, ModuleKind::TriadSm80);
    assert_eq!(resolved.backend, PhysicalGemmBackend::MmaTf32RnaV1);
    assert_eq!(
        resolved.numeric_contract,
        ResolvedNumericContract::MmaTf32RnaV1
    );
    assert_eq!(resolved.shape, (256, 512, 384));
    assert_eq!(resolved.strides, (512, 384, 384));
    assert_eq!(resolved.tile, (16, 32));
    assert_eq!(resolved.bk, 32);
    assert_eq!(resolved.stages, 4);
    assert_eq!(resolved.threads, 128);
    assert_eq!(resolved.launch.grid_dim, config.grid_dim);
    assert_eq!(resolved.launch.block_dim, config.block_dim);
    assert_eq!(resolved.launch.shared_mem_bytes, config.shared_mem_bytes);
    assert_eq!(resolved.tensor_maps_digest, [0; 32]);
    assert_eq!(resolved.resources_digest, [2; 32]);
    assert_eq!(resolved.launch.arguments_digest, [3; 32]);
    assert_eq!(resolved.tuning_table_revision, 40);

    let replayed = tf32_resolved_route(
        request,
        &spec,
        &tn_underfill_portable_binding(),
        REVISIONS,
        Tf32LaunchDigests {
            maps: resolved.tensor_maps_digest,
            resources: [2; 32],
            arguments: [3; 32],
        },
        false,
        config,
    );
    assert_eq!(resolved, replayed);
    let mut mutated = resolved;
    mutated.launch.arguments_digest[0] ^= 1;
    assert_ne!(resolved, mutated);
}

#[test]
fn rect_wide_route_freezes_physical_and_graph_identity() {
    let tiling = Tf32Tiling {
        rows: 80,
        columns: 32,
        bk: 64,
        stages: 2,
    };
    let spec = rna_spec(
        ResolvedGemmOp::Nn,
        Tf32PhysicalRoute::Sm120TmaMmaTf32RnaV1(tiling),
        tiling,
        "gemm_bi_nn_sm120_tma_mma_tf32_v1_m80n32_bk64_s2",
        ModuleKind::TriadSm120,
        (160, 57_472),
    );
    let request = F32TriadRequest {
        op: ResolvedGemmOp::Nn,
        shape: F32TriadShape::contiguous(ResolvedGemmOp::Nn, (512, 3_072, 768)),
    };
    let config = LaunchConfig {
        grid_dim: (168, 1, 1),
        block_dim: (160, 1, 1),
        shared_mem_bytes: 57_472,
    };
    let resolved = tf32_resolved_route(
        request,
        &spec,
        &rect_wide_sm120_binding(),
        REVISIONS,
        Tf32LaunchDigests {
            maps: [1; 32],
            resources: [2; 32],
            arguments: [3; 32],
        },
        false,
        config,
    );

    assert_eq!(
        resolved.symbol,
        "gemm_bi_nn_sm120_tma_mma_tf32_v1_m80n32_bk64_s2"
    );
    assert_eq!(resolved.module_kind, ModuleKind::TriadSm120);
    assert_eq!(resolved.backend, PhysicalGemmBackend::Sm120TmaMmaTf32RnaV1);
    assert_eq!(
        resolved.numeric_contract,
        ResolvedNumericContract::Sm120TmaMmaTf32RnaV1
    );
    assert_eq!(resolved.shape, (512, 3_072, 768));
    assert_eq!(resolved.strides, (3_072, 768, 768));
    assert_eq!(resolved.tile, (80, 32));
    assert_eq!(resolved.bk, 64);
    assert_eq!(resolved.stages, 2);
    assert_eq!(resolved.threads, 160);
    assert_eq!(resolved.launch.grid_dim, config.grid_dim);
    assert_eq!(resolved.launch.block_dim, config.block_dim);
    assert_eq!(resolved.launch.shared_mem_bytes, config.shared_mem_bytes);
    assert_eq!(resolved.tensor_maps_digest, [1; 32]);
    assert_eq!(resolved.resources_digest, [2; 32]);
    assert_eq!(resolved.launch.arguments_digest, [3; 32]);
    assert_eq!(resolved.tuning_table_revision, 40);

    let replayed = tf32_resolved_route(
        request,
        &spec,
        &rect_wide_sm120_binding(),
        REVISIONS,
        Tf32LaunchDigests {
            maps: resolved.tensor_maps_digest,
            resources: [2; 32],
            arguments: [3; 32],
        },
        false,
        config,
    );
    assert_eq!(resolved, replayed);
    let mut mutated = resolved;
    mutated.launch.arguments_digest[0] ^= 1;
    assert_ne!(resolved, mutated);
}

#[test]
fn tf32_kernel_param_abi_matches_cuda() {
    // A block is a sequence of four-byte words without padding, so the word
    // at index i stands at offset 4 i.
    let mut words = Vec::new();
    Sm80Tf32KernelParams {
        alpha: 0,
        beta: 4,
        m: 8,
        k: 12,
        n: 16,
        lda: 20,
        ldb: 24,
        ldc: 28,
    }
    .push_words(&mut words);
    assert_eq!(words.len() * 4, 32);
    assert!((0..8).all(|i| words[i] == 4 * i as u32));

    let mut words = Vec::new();
    Sm90aTf32KernelParams {
        a_x: 0,
        a_y: 4,
        b_x: 8,
        b_y: 12,
        alpha: 16,
        beta: 20,
        m: 24,
        k: 28,
        n: 32,
        ldc: 36,
    }
    .push_words(&mut words);
    assert_eq!(words.len() * 4, 40);
    assert!((0..10).all(|i| words[i] == 4 * i as u32));

    let params = Sm100KernelParams {
        a_x: 0,
        a_y: 4,
        b_x: 8,
        b_y: 12,
        alpha: 16,
        beta: 20,
        m: 24,
        k: 28,
        n: 32,
        ldc: 36,
    };
    let words = params.into_words();
    assert_eq!(words.len() * 4, 40);
    assert!((0..10).all(|i| words[i] == 4 * i as u32));
    assert_eq!(Sm100KernelParams::from_words(words), params);

    let params = Sm120KernelParams {
        a_x: 0,
        a_y: 4,
        b_x: 8,
        b_y: 12,
        alpha: 16,
        beta: 20,
        m: 24,
        k: 28,
        n: 32,
        ldc: 36,
    };
    let words = params.into_words();
    assert_eq!(words.len() * 4, 40);
    assert!((0..10).all(|i| words[i] == 4 * i as u32));
    assert_eq!(Sm120KernelParams::from_words(words), params);
}
