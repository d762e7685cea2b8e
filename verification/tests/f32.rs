use gemm_bi_triad::digest::FramedSha256;
use gemm_bi_triad::error::LaunchError;
use gemm_bi_triad::f32_enqueue::{
    cached_f32_backward_dw, cached_f32_backward_dx, cached_f32_forward,
    enqueue_validated_prepared_f32_triad, exact_scalar_product, fixed_sm120_exact_tma,
    record_prepared_launch, FixedSm120ExactTmaTile,
};
use gemm_bi_triad::f32_launch::{
    prepare_prepared_f32_backward_dw_graph_sequence, prepare_prepared_f32_direct_graph_sequence,
    prepare_prepared_f32_forward_graph_sequence, prepared_f32_launch, tf32_qualification_probe,
    PreparedF32Kind, PreparedF32TriadLaunch, ScalarPhysicalGraphDispatch, TensorMapPair,
    Tf32SplitKWorkspace, Tf32StreamKWorkspace,
};
use gemm_bi_triad::f32_prepare::{
    folding_workspace, prepare_scalar_f32_with_plan, prepare_tf32_f32, prepare_tf32_folding_f32,
    prepare_tf32_splitk_f32, prepare_tf32_tiled_f32, prepare_zero_f32, scalar_scratch_resources,
    tf32_maps_needed, validate_prepared_f32_triad, DeviceSpan, F32LiveFacts, F32PreparationScope,
    Tf32Bindings, Tf32Device, Tf32MapsNeeded, Tf32Tables,
};
use gemm_bi_triad::f32_select::{
    excluded_route, prepare_f32_triad, prepare_selected_f32, tf32_preparation, F32Preparation,
    F32PreparationFacts, F32TriadSelection, Tf32Layout,
};
use gemm_bi_triad::identity::{
    AllocationDomain, ArtifactIdentity, ArtifactKind, ArtifactSet, BiGemmFamily, CompilerIdentity,
    CudaTarget, DeviceCaps, DeviceIdentity, DriverIdentity, F32TriadPolicy, GemmPolicy,
    GemmRouteIdentity, HalfTriadPolicy, ModuleKind, PhysicalGemmBackend, PolicyDtype,
    ResolvedInstructionFamily, ResolvedInstructionShape, ResolvedNumericContract,
    ResolvedOperandConversion, TableRevisions, WeightDtype,
};
use gemm_bi_triad::kernel::{KernelArg, LaunchConfig, TensorMap};
use gemm_bi_triad::prepared::F32PreparedSelection;
use gemm_bi_triad::scalar_launch::ScalarWorkspace;
use gemm_bi_triad::scalar_plan::ScalarDispatchPlan;
use gemm_bi_triad::shape::{F32TriadOperands, F32TriadRequest, F32TriadShape, ResolvedGemmOp};
use gemm_bi_triad::tf32_plan::{
    sm120_fma_launch_plan, tf32_streamk_launch_plan, FoldLimits, Sm120FmaFacts, Sm120FmaRoute,
    Sm120FmaTile, Tf32KernelSpec, Tf32PhysicalRoute, Tf32SplitKSpec, Tf32StreamKLaunchPlan,
    Tf32Tiling,
};
use gemm_bi_triad::tf32_routes::{QualifiedModule, RouteRevisions, Tf32TensorOrigins};

const ONE: u32 = 0x3f80_0000;
const ZERO: u32 = 0;
const REVISIONS: TableRevisions = TableRevisions {
    tuning_table: 17,
    schedule: 18,
};

fn compiler(target: CudaTarget, nvrtc_version: (i32, i32)) -> CompilerIdentity {
    CompilerIdentity {
        source_digest: [1; 32],
        invocation_digest: [2; 32],
        header_manifest_digest: [3; 32],
        target,
        nvrtc_version,
        nvrtc_library_domain: [4; 32],
        nvrtc_library_known: true,
        output_kind: ArtifactKind::Ptx,
        composer_revision: 1,
        compiler_revision: 1,
        numeric_abi_revision: 1,
        schedule_revision: 1,
    }
}

fn context() -> GemmRouteIdentity {
    let artifact = |module_kind, seed: u8| ArtifactIdentity {
        module_kind,
        artifact_kind: ArtifactKind::Ptx,
        compile_key: [seed; 32],
        artifact_digest: [seed + 1; 32],
    };
    GemmRouteIdentity {
        policy: GemmPolicy {
            batch_invariant: true,
            bi_tensor_cores: true,
            fast_gemm: false,
            cublas_tf32: false,
            f32_triad_policy: F32TriadPolicy::ExactScalarFmaV1,
            half_triad_policy: HalfTriadPolicy::TiledParityV1,
            bi_gemm_family: BiGemmFamily::Triad,
        },
        backend_set: 2,
        numeric_contracts: 4,
        compiler: compiler(CudaTarget::compute(120), (12, 8)),
        artifacts: ArtifactSet {
            fixed: artifact(ModuleKind::Fixed, 5),
            triad_scalar: artifact(ModuleKind::TriadScalar, 7),
            triad_sm80: artifact(ModuleKind::TriadSm80, 9),
            specialized: Some(artifact(ModuleKind::TriadSm120, 11)),
        },
        policy_revision: 1,
        policy_hash: [13; 32],
        device: DeviceIdentity {
            compute_capability: (12, 0),
            multiprocessor_count: 24,
            target: CudaTarget::sm(120),
            driver: DriverIdentity {
                api_version: 12_800,
                build_sources: 1,
                build_digest: [14; 32],
            },
        },
        device_caps: DeviceCaps {
            compute_capability: (12, 0),
            nvrtc_version: (12, 8),
            accepted_target: Some(CudaTarget::compute(120)),
            optin_shared_bytes: 101_376,
            tensor_map_access: true,
        },
        tuning_table_revision: 1,
        schedule_set_revision: 1,
        state_capacity: 64,
    }
}

const SCOPE: F32PreparationScope = F32PreparationScope {
    context_token: 7,
    stream_token: 8,
    resources: [21; 32],
    physical_resources: [22; 32],
};

const LIMITS: FoldLimits = FoldLimits {
    slots_per_cta: 2,
    slab_floats: 4_096,
    counter_capacity: 4_096,
};

const FMA: Sm120FmaFacts = Sm120FmaFacts {
    bk: 16,
    qualified: Ok(()),
    counter_capacity: 4_096,
};

fn device() -> Tf32Device {
    let context = context();
    Tf32Device {
        module: QualifiedModule {
            target: CudaTarget::sm(120),
            artifact: context.artifacts.triad_sm80,
            compiler: context.compiler,
            device: context.device,
            device_caps: context.device_caps,
        },
        revisions: RouteRevisions {
            tuning_table: 40,
            schedule: 1,
            zero_reduction_maps: 9,
        },
        multiprocessor_count: 24,
        limits: LIMITS,
        fma: FMA,
    }
}

const WORKSPACE: ScalarWorkspace = ScalarWorkspace {
    split: 0x10_0000,
    transpose: 0x20_0000,
    transpose_len: 4_718_592,
};

fn maps() -> TensorMapPair {
    TensorMapPair {
        a: TensorMap { bytes: [1; 128] },
        b: TensorMap { bytes: [2; 128] },
        origins: Tf32TensorOrigins {
            a_x: 1,
            a_y: 2,
            b_x: 3,
            b_y: 4,
        },
        identity: [31; 32],
        physical_identity: [32; 32],
    }
}

fn tiling(rows: u16, columns: u16) -> Tf32Tiling {
    Tf32Tiling {
        rows,
        columns,
        bk: 32,
        stages: 4,
    }
}

fn spec(route: Tf32PhysicalRoute, tile: (u32, u32)) -> Tf32KernelSpec {
    Tf32KernelSpec {
        op: ResolvedGemmOp::Nn,
        route,
        symbol: "gemm_bi_nn_kernel",
        module_kind: ModuleKind::TriadSm80,
        tile,
        bk: 32,
        stages: 4,
        threads: 128,
        dynamic_shared_bytes: 1_024,
        instruction_family: ResolvedInstructionFamily::MmaSync,
        instruction_shape: ResolvedInstructionShape { m: 16, n: 8, k: 8 },
        operand_conversion: ResolvedOperandConversion::RegisterCvtRnaTf32F32V1,
        tensor_map_revision: 1,
        schedule_revision: 1,
    }
}

fn request(op: ResolvedGemmOp, dims: (usize, usize, usize)) -> F32TriadRequest {
    F32TriadRequest {
        op,
        shape: F32TriadShape::contiguous(op, dims),
    }
}

fn operands(op: ResolvedGemmOp) -> F32TriadOperands {
    F32TriadOperands {
        output: 0x1000,
        a: 0x2000,
        b: 0x3000,
        bias: (op == ResolvedGemmOp::Nn).then_some(0x4000),
        alpha: ONE,
        beta: if op == ResolvedGemmOp::Tn { ONE } else { ZERO },
    }
}

fn live() -> F32LiveFacts {
    F32LiveFacts {
        context_token: 7,
        stream_token: 8,
        resources: Ok(()),
        maps: Ok(()),
        binding: Ok(true),
        routes: Ok(()),
    }
}

fn rejected<T>(text: &'static str) -> Result<T, LaunchError> {
    Err(LaunchError::Rejected(text))
}

fn facts() -> F32PreparationFacts {
    let domain = AllocationDomain {
        context_handle: 5,
        device_ordinal: 0,
    };
    F32PreparationFacts {
        capturing: Ok(false),
        stream: domain,
        kernels: domain,
        output: Ok(()),
        selection: Ok(F32TriadSelection::ScalarFmaV1),
        excluded: false,
        fallback: F32TriadSelection::ScalarFmaV1,
    }
}

#[test]
fn preparation_is_refused_for_the_first_rule_that_is_broken() {
    let product = request(ResolvedGemmOp::Nn, (3, 4, 5));
    let mut broken = facts();
    broken.selection = rejected("no selection");
    assert_eq!(
        prepare_f32_triad(product, operands(product.op), &broken),
        rejected("no selection")
    );
    broken.output = rejected("no output");
    assert_eq!(
        prepare_f32_triad(product, operands(product.op), &broken),
        rejected("no output")
    );
    broken.kernels.device_ordinal = 1;
    assert_eq!(
        prepare_f32_triad(product, operands(product.op), &broken),
        Err(LaunchError::ForeignDomain(
            "f32 Triad",
            broken.stream,
            broken.kernels
        ))
    );
    broken.capturing = Ok(true);
    assert_eq!(
        prepare_f32_triad(product, operands(product.op), &broken),
        rejected("f32 Triad launch must be prepared before graph capture")
    );
    broken.capturing = rejected("no status");
    assert_eq!(
        prepare_f32_triad(product, operands(product.op), &broken),
        rejected("no status")
    );
    let null = F32TriadOperands {
        a: 0,
        ..operands(product.op)
    };
    assert_eq!(
        prepare_f32_triad(product, null, &broken),
        rejected("f32 Triad A pointer must be non-null and 4-byte aligned")
    );
    let mut short = product;
    short.shape.lda = 3;
    assert!(matches!(
        prepare_f32_triad(short, null, &broken),
        Err(LaunchError::InvalidDimensions(_))
    ));
}

#[test]
fn selections_decide_what_is_prepared() {
    let product = request(ResolvedGemmOp::Nn, (3, 4, 5));
    let empty = request(ResolvedGemmOp::Nn, (3, 0, 5));
    let tiled = Tf32PhysicalRoute::MmaTf32RnaV1(tiling(16, 32));
    let exact = Sm120FmaRoute {
        tile: Sm120FmaTile::M128N64,
        kvec: false,
        splits: 2,
    };
    let mut found = facts();
    found.selection = Ok(F32TriadSelection::Tf32(tiled));
    let prepare = |selection, product: F32TriadRequest, found: &F32PreparationFacts| {
        prepare_selected_f32(selection, product, operands(product.op), found)
    };
    let automatic = F32PreparedSelection::Automatic;
    assert_eq!(
        prepare(automatic, product, &found),
        Ok(F32Preparation::Tf32(tiled))
    );
    assert_eq!(
        prepare(automatic, empty, &found),
        Ok(F32Preparation::ScalarZero)
    );
    assert_eq!(
        prepare(F32PreparedSelection::ExactScalar, product, &found),
        Ok(F32Preparation::Scalar)
    );
    assert_eq!(
        prepare(F32PreparedSelection::ExactScalar, empty, &found),
        Ok(F32Preparation::ScalarZero)
    );
    assert_eq!(
        prepare(F32PreparedSelection::Forced(tiled), empty, &found),
        Ok(F32Preparation::Tf32(tiled))
    );
    // An excluded kernel declines to exact arithmetic only.
    found.excluded = true;
    assert_eq!(
        prepare(automatic, product, &found),
        Ok(F32Preparation::Scalar)
    );
    found.fallback = F32TriadSelection::Tf32(tiled);
    assert_eq!(
        prepare(automatic, product, &found),
        Ok(F32Preparation::Scalar)
    );
    found.fallback = F32TriadSelection::ExactSm120Fma(exact);
    assert_eq!(
        prepare(automatic, product, &found),
        Ok(F32Preparation::Tf32(Tf32PhysicalRoute::Sm120TmaFmaExactV1(
            exact
        )))
    );
    found.capturing = Ok(true);
    for selection in [
        automatic,
        F32PreparedSelection::ExactScalar,
        F32PreparedSelection::Forced(tiled),
    ] {
        assert!(prepare(selection, product, &found).is_err());
    }
}

#[test]
fn routes_are_laid_out_by_their_family() {
    let small = tiling(16, 32);
    let forced = Tf32PhysicalRoute::MmaTf32RnaV1(small);
    assert_eq!(
        tf32_preparation(forced, Ok(Tf32PhysicalRoute::MmaTf32RnaV1(small)), None),
        Ok((Tf32PhysicalRoute::MmaTf32RnaV1(small), Tf32Layout::Tiled))
    );
    assert_eq!(
        tf32_preparation(forced, Ok(Tf32PhysicalRoute::MmaTf32RnaSplitK4V1(small)), None)
            .unwrap()
            .1,
        Tf32Layout::SplitK
    );
    assert_eq!(
        tf32_preparation(
            forced,
            Ok(Tf32PhysicalRoute::Sm120TmaMmaTf32RnaStreamKV1(small)),
            None
        )
        .unwrap()
        .1,
        Tf32Layout::StreamK
    );
    assert_eq!(
        tf32_preparation(forced, rejected("unknown"), None),
        rejected("unknown")
    );
    assert_eq!(
        tf32_preparation(forced, rejected("unknown"), Some("failed its probe")),
        Err(LaunchError::ForcedRouteRejected(forced, "failed its probe"))
    );
}

#[test]
fn exclusions_are_reported_where_a_kernel_was_selected() {
    let route = Tf32PhysicalRoute::MmaTf32RnaV1(tiling(16, 32));
    let mut excluded = facts();
    excluded.selection = Ok(F32TriadSelection::Tf32(route));
    excluded.excluded = true;
    let product = request(ResolvedGemmOp::Nn, (3, 4, 5));
    let noted = |selection, product: F32TriadRequest, facts: &F32PreparationFacts| {
        excluded_route(selection, product, operands(product.op), facts)
    };
    assert_eq!(
        noted(F32PreparedSelection::Automatic, product, &excluded),
        Some(route)
    );
    assert_eq!(
        noted(F32PreparedSelection::ExactScalar, product, &excluded),
        None
    );
    let empty = request(ResolvedGemmOp::Nn, (3, 0, 5));
    assert_eq!(noted(F32PreparedSelection::Automatic, empty, &excluded), None);
    let mut capturing = excluded;
    capturing.capturing = Ok(true);
    assert_eq!(
        noted(F32PreparedSelection::Automatic, product, &capturing),
        None
    );
    let mut served = excluded;
    served.excluded = false;
    assert_eq!(noted(F32PreparedSelection::Automatic, product, &served), None);
}

#[test]
fn maps_are_needed_only_where_a_kernel_reads_them() {
    let product = request(ResolvedGemmOp::Nn, (3, 4, 5));
    let empty = request(ResolvedGemmOp::Nn, (3, 0, 5));
    let portable = Tf32PhysicalRoute::MmaTf32RnaV1(tiling(16, 32));
    let specialized = Tf32PhysicalRoute::Sm120TmaMmaTf32RnaV1(tiling(80, 32));
    assert_eq!(tf32_maps_needed(product, portable), Tf32MapsNeeded::Unmapped);
    assert_eq!(
        tf32_maps_needed(product, specialized),
        Tf32MapsNeeded::Encoded
    );
    assert!(!matches!(
        tf32_maps_needed(empty, portable),
        Tf32MapsNeeded::Unmapped | Tf32MapsNeeded::Encoded
    ));
}

#[test]
fn stream_k_plans_are_persistent_and_bounded() {
    let route = Tf32PhysicalRoute::Sm120TmaMmaTf32RnaStreamKV1(tiling(80, 32));
    let kernel = spec(route, (80, 32));
    let product = request(ResolvedGemmOp::Nn, (512, 3_072, 768));
    assert_eq!(
        tf32_streamk_launch_plan(product, &kernel, 24, LIMITS),
        Ok(Tf32StreamKLaunchPlan {
            grid: 24,
            partial_elements: 24 * 2 * 4_096,
            flag_elements: 48,
        })
    );
    assert_eq!(
        tf32_streamk_launch_plan(product, &kernel, 0, LIMITS),
        rejected("stream-K TF32 launch requires at least one multiprocessor")
    );
    // Two slabs of 4096 floats per CTA: 1024 CTAs fill the workspace exactly.
    assert!(tf32_streamk_launch_plan(product, &kernel, 1_024, LIMITS).is_ok());
    assert_eq!(
        tf32_streamk_launch_plan(product, &kernel, 1_025, LIMITS),
        Err(LaunchError::InvalidDimensions(
            "stream-K TF32 slabs exceed the fixed workspace"
        ))
    );
    let flagged = FoldLimits {
        counter_capacity: 47,
        ..LIMITS
    };
    assert_eq!(
        tf32_streamk_launch_plan(product, &kernel, 24, flagged),
        Err(LaunchError::InvalidDimensions(
            "stream-K TF32 flags exceed the fixed counter workspace"
        ))
    );
}

#[test]
fn exact_plans_split_the_reduction_without_empty_ranges() {
    let route = |splits| Sm120FmaRoute {
        tile: Sm120FmaTile::M128N64,
        kvec: false,
        splits,
    };
    let product = request(ResolvedGemmOp::Nn, (256, 160, 128));
    let plan = sm120_fma_launch_plan(product, route(3), FMA).unwrap();
    assert_eq!(plan.tiles, 2 * 2);
    assert_eq!(plan.tiles_per_split, 4);
    assert_eq!(plan.units, 12);
    assert_eq!(plan.slab_elements, 4 * 128 * 64 * 2);
    assert_eq!(plan.flag_elements, 8);
    let single = sm120_fma_launch_plan(product, route(1), FMA).unwrap();
    assert_eq!((single.slab_elements, single.flag_elements), (0, 0));
    assert_eq!(
        sm120_fma_launch_plan(product, route(11), FMA),
        Err(LaunchError::InvalidDimensions(
            "exact-F32 split leaves a reduction range empty"
        ))
    );
    assert_eq!(
        sm120_fma_launch_plan(request(ResolvedGemmOp::Nn, (3, 0, 5)), route(1), FMA),
        rejected("exact-F32 SM120 route requires a nonzero reduction")
    );
    let unqualified = Sm120FmaFacts {
        qualified: rejected("no such kernel"),
        ..FMA
    };
    assert_eq!(
        sm120_fma_launch_plan(product, route(3), unqualified),
        rejected("no such kernel")
    );
}

#[test]
fn an_empty_reduction_is_prepared_enqueued_and_captured_alike() {
    let product = request(ResolvedGemmOp::Nn, (3, 0, 5));
    let context = context();
    let prepared = prepare_zero_f32(
        &SCOPE,
        &context,
        &context.compiler,
        REVISIONS,
        product,
        operands(product.op),
        (9, [33; 32]),
    )
    .unwrap();
    let launch = prepared_f32_launch(&prepared, true).unwrap();
    assert_eq!(launch.symbol, "gemm_bi_nn_zero_reduction_v1");
    // It is no TF32 kernel, so it does not wait for one.
    assert!(prepared_f32_launch(&prepared, false).is_ok());
    assert!(prepare_prepared_f32_direct_graph_sequence(&prepared, Ok(()), false).is_ok());
    assert_eq!(prepared.routes[0].tuning_table_revision, 17);
    assert_eq!(prepared.routes[0].schedule_revision, 18);
    assert_eq!(prepared.routes.len(), 1);
    assert_eq!(
        prepared.routes[0].numeric_contract,
        ResolvedNumericContract::ZeroReductionEpilogueF32V1
    );
    let sequence = prepare_prepared_f32_direct_graph_sequence(&prepared, Ok(()), true).unwrap();
    let node = &sequence.launches[0];
    assert_eq!(node.symbol, launch.symbol);
    assert_eq!(node.config, launch.config);
    assert_eq!(node.arguments.values().len(), launch.args.len());
    // The digest of the arguments is the one of their transcript.
    let expected = FramedSha256::new("triad-scalar-zero-reduction-arguments.v1")
        .required("symbol", b"gemm_bi_nn_zero_reduction_v1")
        .required("op", &[0])
        .required("m", &3u64.to_le_bytes())
        .required("k", &0u64.to_le_bytes())
        .required("n", &5u64.to_le_bytes())
        .required("lda", &0u64.to_le_bytes())
        .required("ldb", &5u64.to_le_bytes())
        .required("ldc", &5u64.to_le_bytes())
        .required("alpha", &ONE.to_le_bytes())
        .required("beta", &ZERO.to_le_bytes())
        .required("output-offset", &0u64.to_le_bytes())
        .required("null-pointer-mask", &0b110u64.to_le_bytes())
        .finish();
    assert_eq!(prepared.routes[0].launch.arguments_digest, expected);
    assert_eq!(
        prepare_prepared_f32_direct_graph_sequence(&prepared, rejected("stale"), true)
            .err()
            .unwrap(),
        LaunchError::Rejected("stale")
    );
    let tables = tables();
    assert_eq!(
        validate_prepared_f32_triad(&prepared, &live(), &tables),
        Ok(())
    );
    let mut gone = live();
    gone.maps = rejected("maps freed");
    assert_eq!(
        validate_prepared_f32_triad(&prepared, &gone, &tables),
        rejected("maps freed")
    );
    let mut elsewhere = live();
    elsewhere.context_token = 1;
    assert_eq!(
        validate_prepared_f32_triad(&prepared, &elsewhere, &tables),
        rejected("prepared f32 Triad launch belongs to another GPU context")
    );
    elsewhere.context_token = 7;
    elsewhere.stream_token = 1;
    assert_eq!(
        validate_prepared_f32_triad(&prepared, &elsewhere, &tables),
        rejected("prepared f32 Triad launch belongs to another CUDA stream")
    );
}

fn tables() -> Tf32Tables {
    Tf32Tables {
        kernel: rejected("no kernel"),
        splitk: rejected("no split-K kernel"),
        covered: rejected("not covered"),
        multiprocessor_count: 24,
        limits: LIMITS,
        fma: FMA,
    }
}

#[test]
fn scalar_launches_run_the_kernels_that_were_frozen() {
    let op = ResolvedGemmOp::Nn;
    let product = request(op, (4, 4_096, 8));
    let plan = ScalarDispatchPlan::NnSplitKThin;
    let context = context();
    let prepared = prepare_scalar_f32_with_plan(
        &SCOPE,
        &context,
        &context.compiler,
        REVISIONS,
        product,
        operands(op),
        plan,
    )
    .unwrap();
    assert_eq!(prepared.routes.len(), 2);
    for route in &prepared.routes {
        assert_eq!(route.tuning_table_revision, 17);
        assert_eq!(route.schedule_revision, 18);
    }
    let dispatch = ScalarPhysicalGraphDispatch::Nn {
        y: 0x1000,
        x: 0x2000,
        w_ptr: 0x3000,
        bias_ptr: 0x4000,
        dims: (4, 4_096, 8),
    };
    let program = enqueue_validated_prepared_f32_triad(&prepared, dispatch, WORKSPACE, false);
    assert_eq!(program.outcome, Ok(()));
    let symbols: Vec<&str> = program.launches.iter().map(|step| step.symbol).collect();
    let frozen: Vec<&str> = prepared.routes.iter().map(|route| route.symbol).collect();
    assert_eq!(symbols, frozen);
    let sequence = prepare_prepared_f32_forward_graph_sequence(
        &prepared,
        0x1000,
        0x2000,
        WORKSPACE,
        Ok(()),
    )
    .unwrap();
    assert_eq!(sequence.len(), program.launches.len());
    for (node, step) in sequence.launches.iter().zip(&program.launches) {
        assert_eq!(node.symbol, step.symbol);
        assert_eq!(node.config, step.config);
        assert_eq!(node.arguments.values().len(), step.args.len());
        assert_eq!(node.record.physical_resources, Some([22; 32]));
    }
    let record = record_prepared_launch(&prepared, PolicyDtype::F32, 1);
    assert_eq!(record, sequence.launches[1].record);

    // Changed operands enqueue nothing.
    let moved = ScalarPhysicalGraphDispatch::Nn {
        y: 0x1000,
        x: 0x2004,
        w_ptr: 0x3000,
        bias_ptr: 0x4000,
        dims: (4, 4_096, 8),
    };
    let refused = enqueue_validated_prepared_f32_triad(&prepared, moved, WORKSPACE, false);
    assert!(refused.outcome.is_err());
    assert!(refused.launches.is_empty());
    // So does a graph of another product.
    assert!(prepare_prepared_f32_backward_dw_graph_sequence(
        &prepared,
        0x2000,
        0x3000,
        WORKSPACE,
        Ok(()),
    )
    .is_err());
}

#[test]
fn scalar_plans_that_overwrite_refuse_to_accumulate() {
    let op = ResolvedGemmOp::Nn;
    let context = context();
    let accumulating = F32TriadOperands {
        beta: ONE,
        ..operands(op)
    };
    let prepare = |plan, dims| {
        prepare_scalar_f32_with_plan(
            &SCOPE,
            &context,
            &context.compiler,
            REVISIONS,
            request(op, dims),
            accumulating,
            plan,
        )
        .map(|_| ())
    };
    assert_eq!(
        prepare(ScalarDispatchPlan::NnSplitKThin, (4, 4_096, 8)),
        rejected("selected exact scalar plan requires beta == 0")
    );
}

#[test]
fn scratch_is_taken_only_where_a_plan_uses_it() {
    let product = request(ResolvedGemmOp::Nn, (4, 4_096, 8));
    let split = scalar_scratch_resources(
        product,
        ScalarDispatchPlan::NnSplitKThin,
        0x10_0000,
        0x20_0000,
        0,
    )
    .unwrap();
    assert_eq!(
        split.split,
        Some(DeviceSpan {
            address: 0x10_0000,
            bytes: 8_388_608 * 4
        })
    );
    assert_eq!(split.transpose, None);
    let plain = scalar_scratch_resources(
        product,
        ScalarDispatchPlan::NnFinal { slim: false },
        0x10_0000,
        0x20_0000,
        0,
    )
    .unwrap();
    assert_eq!((plain.split, plain.transpose), (None, None));
    let deep = request(ResolvedGemmOp::Nt, (512, 768, 3_072));
    let plan = ScalarDispatchPlan::NtD768TransposeM64N64Qualified;
    assert!(scalar_scratch_resources(deep, plan, 0, 0x20_0000, 4_718_592)
        .unwrap()
        .transpose
        .is_some());
    assert_eq!(
        scalar_scratch_resources(deep, plan, 0, 0x20_0000, 4_718_591),
        Err(LaunchError::TransposeScratchCapacity(
            "scalar transpose scratch allocation",
            4_718_591,
            768 * 3_072
        ))
    );
}

#[test]
fn tiled_launches_pass_pointers_or_maps() {
    let op = ResolvedGemmOp::Nn;
    let product = request(op, (64, 64, 64));
    let portable = spec(Tf32PhysicalRoute::MmaTf32RnaV1(tiling(16, 32)), (16, 32));
    let prepared =
        prepare_tf32_tiled_f32(&SCOPE, &device(), product, operands(op), &portable, None).unwrap();
    let launch = prepared_f32_launch(&prepared, true).unwrap();
    assert_eq!(launch.config, LaunchConfig::linear(8, 128, 1_024));
    assert_eq!(launch.args[1], KernelArg::Pointer(0x2000));
    assert_eq!(launch.args.len(), 5);
    let absent = LaunchError::Unavailable("qualified TF32 symbol", launch.symbol);
    assert_eq!(prepared_f32_launch(&prepared, false).err(), Some(absent));
    assert_eq!(
        prepare_prepared_f32_direct_graph_sequence(&prepared, Ok(()), false).err(),
        Some(absent)
    );
    assert_eq!(prepared.routes[0].tensor_maps_digest, [0; 32]);
    assert_eq!(
        prepared.routes[0].backend,
        PhysicalGemmBackend::MmaTf32RnaV1
    );

    let route = Tf32PhysicalRoute::Sm120TmaMmaTf32RnaV1(tiling(80, 32));
    let mapped = spec(route, (80, 32));
    let prepared = prepare_tf32_tiled_f32(
        &SCOPE,
        &device(),
        product,
        operands(op),
        &mapped,
        Some(maps()),
    )
    .unwrap();
    let launch = prepared_f32_launch(&prepared, true).unwrap();
    assert_eq!(launch.args[1], KernelArg::TensorMap(maps().a));
    assert_eq!(prepared.routes[0].tensor_maps_digest, [31; 32]);
    let record = record_prepared_launch(&prepared, PolicyDtype::F32, 0);
    assert_eq!(record.route.tensor_maps_digest, [32; 32]);
    assert_eq!(record.route.resources_digest, [22; 32]);
    assert_eq!(record.physical_resources, None);
    let sequence = prepare_prepared_f32_direct_graph_sequence(&prepared, Ok(()), true).unwrap();
    assert_eq!(
        sequence.launches[0].arguments.values()[2].bytes(),
        maps().b.bytes
    );
    let mut unbound = live();
    unbound.binding = Ok(false);
    assert_eq!(
        validate_prepared_f32_triad(&prepared, &unbound, &tables()),
        rejected("prepared TF32 tensor-map binding changed before launch")
    );
}

#[test]
fn folding_launches_are_current_until_their_kernel_changes() {
    let op = ResolvedGemmOp::Nn;
    let product = request(op, (512, 3_072, 768));
    let route = Tf32PhysicalRoute::Sm120TmaMmaTf32RnaStreamKV1(tiling(80, 32));
    let kernel = spec(route, (80, 32));
    let shared = Tf32StreamKWorkspace {
        partial: 0x7_0000,
        flags: 0x8_0000,
    };
    let prepared = prepare_tf32_folding_f32(
        &SCOPE,
        &device(),
        product,
        operands(op),
        &kernel,
        maps(),
        shared,
    )
    .unwrap();
    let current = Tf32Tables {
        kernel: Ok(kernel),
        ..tables()
    };
    assert_eq!(
        validate_prepared_f32_triad(&prepared, &live(), &current),
        Ok(())
    );
    let resized = Tf32Tables {
        multiprocessor_count: 25,
        ..current
    };
    assert_eq!(
        validate_prepared_f32_triad(&prepared, &live(), &resized),
        rejected("prepared TF32 stream-K launch plan changed")
    );
    let reshaped = Tf32Tables {
        kernel: Ok(Tf32KernelSpec {
            threads: 256,
            ..kernel
        }),
        ..current
    };
    assert_eq!(
        validate_prepared_f32_triad(&prepared, &live(), &reshaped),
        rejected("prepared TF32 stream-K launch configuration changed")
    );
    let renamed = Tf32Tables {
        kernel: Ok(Tf32KernelSpec {
            symbol: "gemm_bi_nn_other",
            ..kernel
        }),
        ..current
    };
    assert_eq!(
        validate_prepared_f32_triad(&prepared, &live(), &renamed),
        rejected("prepared TF32 stream-K route changed")
    );
    let launch = prepared_f32_launch(&prepared, true).unwrap();
    assert_eq!(launch.config, LaunchConfig::linear(24, 128, 1_024));
    assert!(launch.args.contains(&KernelArg::Pointer(0x7_0000)));
    assert!(launch.args.contains(&KernelArg::Pointer(0x8_0000)));

    let exact = |splits| {
        Tf32PhysicalRoute::Sm120TmaFmaExactV1(Sm120FmaRoute {
            tile: Sm120FmaTile::M128N64,
            kvec: false,
            splits,
        })
    };
    assert_eq!(
        folding_workspace(exact(1), shared),
        Tf32StreamKWorkspace {
            partial: 0,
            flags: 0
        }
    );
    assert_eq!(folding_workspace(exact(2), shared), shared);
    assert_eq!(folding_workspace(route, shared), shared);
}

#[test]
fn split_k_launches_are_current_until_their_plan_changes() {
    let op = ResolvedGemmOp::Nn;
    let product = request(op, (64, 1_536, 384));
    let kernel = Tf32SplitKSpec {
        op,
        route: Tf32PhysicalRoute::MmaTf32RnaSplitK4V1(tiling(16, 32)),
        symbol: "gemm_bi_nn_splitk4",
        partitions: 4,
        tile: (16, 32),
        bk: 32,
        stages: 3,
        threads: 128,
        dynamic_shared_bytes: 29_696,
    };
    let workspace = Tf32SplitKWorkspace {
        partial: 0x7_0000,
        counters: 0x8_0000,
    };
    let prepared = prepare_tf32_splitk_f32(
        &SCOPE,
        &device(),
        product,
        operands(op),
        &kernel,
        Ok(1_536),
        workspace,
    )
    .unwrap();
    assert!(matches!(
        prepared.kind,
        PreparedF32Kind::Tf32SplitK { plan, .. } if plan.scratch_elements == 98_304
    ));
    let current = Tf32Tables {
        splitk: Ok(kernel),
        covered: Ok(1_536),
        ..tables()
    };
    assert_eq!(
        validate_prepared_f32_triad(&prepared, &live(), &current),
        Ok(())
    );
    let uncovered = Tf32Tables {
        covered: Ok(1_535),
        ..current
    };
    assert_eq!(
        validate_prepared_f32_triad(&prepared, &live(), &uncovered),
        rejected("portable TF32 split-K partitions do not cover the reduction")
    );
    let sequence = prepare_prepared_f32_direct_graph_sequence(&prepared, Ok(()), true).unwrap();
    let launch = prepared_f32_launch(&prepared, true).unwrap();
    assert_eq!(sequence.launches[0].config, launch.config);
    assert_eq!(launch.config.grid_dim, (12, 4, 4));
    let absent = prepared_f32_launch(&prepared, false).err().unwrap();
    assert_eq!(
        absent.message(),
        "qualified fused TF32 split-K symbol gemm_bi_nn_splitk4 is unavailable"
    );
    assert_eq!(
        prepare_prepared_f32_direct_graph_sequence(&prepared, Ok(()), false).err(),
        Some(absent)
    );
    let unfused = PreparedF32TriadLaunch {
        routes: vec![],
        ..prepared
    };
    assert_eq!(
        prepare_prepared_f32_direct_graph_sequence(&unfused, Ok(()), true)
            .err()
            .unwrap(),
        LaunchError::Rejected("prepared fused TF32 split-K graph sequence requires one route")
    );
    assert_eq!(
        prepared_f32_launch(&unfused, true).err().unwrap(),
        LaunchError::Rejected("prepared fused TF32 split-K launch requires exactly one route")
    );
}

#[test]
fn empty_reductions_are_looked_up_without_their_inputs() {
    let forward = cached_f32_forward(0x1000, 0x2000, 0x3000, 0, (3, 0, 5));
    assert_eq!(forward.operands.a, 0);
    assert_eq!(forward.operands.b, 0);
    assert_eq!(forward.operands.bias, None);
    assert_eq!(
        forward,
        cached_f32_forward(0x1000, 0x9000, 0xa000, 0, (3, 0, 5))
    );
    let dw = cached_f32_backward_dw(0x1000, 0x2000, 0x3000, (7, 3, 5));
    assert_eq!((dw.operands.a, dw.operands.b), (0x3000, 0x2000));
    assert_eq!(dw.operands.beta, ONE);
    let dx = cached_f32_backward_dx(0x1000, 0x2000, 0x3000, (7, 3, 5));
    assert_eq!((dx.operands.a, dx.operands.b), (0x2000, 0x3000));
    assert_eq!(dx.operands.beta, ZERO);
}

#[test]
fn half_fallbacks_are_recorded_under_their_element_type() {
    let dispatch = ScalarPhysicalGraphDispatch::Tn {
        dw_ptr: 0x1000,
        dy: 0x2000,
        x_saved: 0x3000,
        dims: (0, 3, 5),
    };
    let (product, dtype) = exact_scalar_product(dispatch, WeightDtype::F16).unwrap();
    assert_eq!(dtype, PolicyDtype::F16);
    assert_eq!(product.operands.a, 0x3000);
    assert_eq!(product.dispatch, dispatch);
    assert!(exact_scalar_product(dispatch, WeightDtype::F32).is_err());
}

#[test]
fn fixed_exact_launches_need_a_qualified_and_loaded_kernel() {
    let shape = (128, 256, 64);
    let tile = FixedSm120ExactTmaTile::M64N128;
    assert_eq!(
        fixed_sm120_exact_tma(shape, tile, false, rejected("unasked")),
        Ok(None)
    );
    assert_eq!(
        fixed_sm120_exact_tma(shape, tile, true, rejected("no specification")),
        rejected("no specification")
    );
    assert_eq!(fixed_sm120_exact_tma(shape, tile, true, Ok(false)), Ok(None));
    let (product, selection) = fixed_sm120_exact_tma(shape, tile, true, Ok(true))
        .unwrap()
        .unwrap();
    assert_eq!(product, request(ResolvedGemmOp::Nn, shape));
    assert_eq!(
        selection,
        F32PreparedSelection::Forced(Tf32PhysicalRoute::Sm120TmaFmaExactV1(Sm120FmaRoute {
            tile: Sm120FmaTile::M64N128,
            kvec: false,
            splits: 1,
        }))
    );
}

#[test]
fn routes_are_prepared_in_their_layout() {
    let op = ResolvedGemmOp::Nn;
    let bindings = Tf32Bindings {
        maps: Some(maps()),
        folding: Tf32StreamKWorkspace {
            partial: 0x7_0000,
            flags: 0x8_0000,
        },
        splitk: Tf32SplitKWorkspace {
            partial: 0x7_0000,
            counters: 0x9_0000,
        },
    };
    let device = device();
    let forced = Tf32PhysicalRoute::MmaTf32RnaV1(tiling(16, 32));
    let prepare = |product, resolved, rejection, tables: Tf32Tables| {
        let tables = Tf32Tables {
            fma: device.fma,
            ..tables
        };
        prepare_tf32_f32(
            &SCOPE,
            &device,
            product,
            operands(op),
            forced,
            resolved,
            rejection,
            &tables,
            &bindings,
        )
    };
    let with = |route, tile| Tf32Tables {
        kernel: Ok(spec(route, tile)),
        ..tables()
    };

    let portable = Tf32PhysicalRoute::MmaTf32RnaV1(tiling(16, 32));
    let small = request(op, (64, 64, 64));
    let prepared = prepare(small, Ok(portable), None, with(portable, (16, 32))).unwrap();
    assert!(matches!(
        prepared.kind,
        PreparedF32Kind::Tf32 { maps: None, .. }
    ));
    let mapped = Tf32PhysicalRoute::Sm120TmaMmaTf32RnaV1(tiling(80, 32));
    let prepared = prepare(small, Ok(mapped), None, with(mapped, (80, 32))).unwrap();
    assert!(matches!(
        prepared.kind,
        PreparedF32Kind::Tf32 { maps: Some(pair), .. } if pair == maps()
    ));
    let folding = Tf32PhysicalRoute::Sm120TmaMmaTf32RnaStreamKV1(tiling(80, 32));
    let deep = request(op, (512, 3_072, 768));
    let prepared = prepare(deep, Ok(folding), None, with(folding, (80, 32))).unwrap();
    assert!(matches!(
        prepared.kind,
        PreparedF32Kind::Tf32StreamK { workspace, .. } if workspace == bindings.folding
    ));
    let split = Tf32PhysicalRoute::MmaTf32RnaSplitK4V1(tiling(16, 32));
    let splitk = Tf32Tables {
        splitk: Ok(Tf32SplitKSpec {
            op,
            route: split,
            symbol: "gemm_bi_nn_splitk4",
            partitions: 4,
            tile: (16, 32),
            bk: 32,
            stages: 3,
            threads: 128,
            dynamic_shared_bytes: 29_696,
        }),
        covered: Ok(1_536),
        ..tables()
    };
    let prepared = prepare(request(op, (64, 1_536, 384)), Ok(split), None, splitk).unwrap();
    assert!(matches!(
        prepared.kind,
        PreparedF32Kind::Tf32SplitK { workspace, .. } if workspace == bindings.splitk
    ));

    let refused = |resolved, rejection, tables| {
        prepare(small, resolved, rejection, tables).err().unwrap()
    };
    let unknown = LaunchError::Rejected("no such kernel");
    assert_eq!(refused(Err(unknown), None, tables()), unknown);
    assert_eq!(
        refused(Err(unknown), Some("failed its qualification"), tables()),
        LaunchError::ForcedRouteRejected(forced, "failed its qualification")
    );
    let missing = Tf32Tables {
        kernel: Err(unknown),
        ..tables()
    };
    assert_eq!(refused(Ok(portable), None, missing), unknown);
}

#[test]
fn qualification_probes_run_without_a_workspace() {
    let op = ResolvedGemmOp::Nn;
    let fma = device().fma;
    let probe = |product, route, maps, grid| {
        tf32_qualification_probe(
            product,
            operands(op),
            route,
            maps,
            LaunchConfig::linear(grid, 128, 1_024),
            Ok("gemm_bi_nn_probe"),
            fma,
        )
    };
    let small = request(op, (16, 32, 32));
    let portable = Tf32PhysicalRoute::MmaTf32RnaV1(tiling(16, 32));
    let launch = probe(small, portable, None, 1).unwrap();
    assert_eq!(launch.symbol, "gemm_bi_nn_probe");
    assert_eq!(launch.args[1], KernelArg::Pointer(0x2000));
    let empty = probe(request(op, (16, 0, 32)), portable, None, 1).unwrap();
    assert_eq!(empty.args[1], KernelArg::Pointer(0));
    let folding = Tf32PhysicalRoute::Sm120TmaMmaTf32RnaStreamKV1(tiling(80, 32));
    let launch = probe(small, folding, Some(maps()), 1).unwrap();
    assert_eq!(launch.args[1], KernelArg::Pointer(0));
    assert_eq!(launch.args[3], KernelArg::TensorMap(maps().a));
    assert_eq!(
        probe(small, folding, Some(maps()), 2).err().unwrap(),
        LaunchError::Rejected("SM120 TF32 stream-K launch without a workspace must be one CTA")
    );
    assert_eq!(
        probe(small, folding, None, 1).err().unwrap(),
        LaunchError::Rejected("SM120 TF32 launch has no tensor maps")
    );
    let unknown = LaunchError::Rejected("no such kernel");
    let missing = tf32_qualification_probe(
        small,
        operands(op),
        portable,
        None,
        LaunchConfig::linear(1, 128, 1_024),
        Err(unknown),
        fma,
    );
    assert_eq!(missing.err().unwrap(), unknown);
}
