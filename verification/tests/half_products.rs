use gemm_bi_triad::error::{LaunchError, UncoveredProduct};
use gemm_bi_triad::half_graph::{
    native_half_kernel, observe_native_half_graph, prepare_native_half_graph_identity, ExpectedPhysicalKernel,
    HalfPhysicalTraceRequest,
};
use gemm_bi_triad::half_kernel::HalfKernel;
use gemm_bi_triad::half_launch::{HalfLaunch, TypedPtr};
use gemm_bi_triad::half_routes::{
    half_argument_allocations, half_argument_spans, observe_half_gemm, resolve_half_gemm_observation, HalfAllocations, HalfCompilers,
};
use gemm_bi_triad::half_tc::{
    gemm_bi_backward_dw_tc, gemm_bi_backward_dw_tc_with_tile, gemm_bi_backward_dx_tc,
    gemm_bi_forward_tc, gemm_bi_forward_tc_with_tile, gemm_bi_forward_tc_with_tile_shape,
    sm80_streamk_grid, sm80_streamk_workspace, StreamKTarget, TcFwdOperands, TcTile,
};
use gemm_bi_triad::half_typed::{
    gemm_bi_backward_dw_typed_native, gemm_bi_backward_dx_typed_native,
    gemm_bi_forward_typed_native,
};
use gemm_bi_triad::identity::{
    ArtifactIdentity, ArtifactKind, ArtifactSet, BiGemmFamily, CompilerIdentity, CudaTarget,
    DeviceCaps, DeviceIdentity, DriverIdentity, F32TriadPolicy, GemmPolicy, GemmRouteIdentity,
    HalfTriadPolicy, ModuleKind, PhysicalGemmBackend, ResolvedNumericContract, TableRevisions,
    WeightDtype,
};
use gemm_bi_triad::kernel::{KernelArg, LaunchConfig};
use gemm_bi_triad::shape::{F32TriadShape, ResolvedGemmOp};
use std::cell::RefCell;

const ONE: u32 = 0x3f80_0000;
const ZERO: u32 = 0;

fn compiler(target: CudaTarget, nvrtc_version: (i32, i32)) -> CompilerIdentity {
    CompilerIdentity {
        source_digest: [1; 32],
        invocation_digest: [2; 32],
        header_manifest_digest: [3; 32],
        target,
        nvrtc_version,
        nvrtc_library_domain: [4; 32],
        nvrtc_library_known: true,
        output_kind: ArtifactKind::Ptx,
        composer_revision: 1,
        compiler_revision: 1,
        numeric_abi_revision: 1,
        schedule_revision: 1,
    }
}

fn context() -> GemmRouteIdentity {
    let artifact = |module_kind, seed: u8| ArtifactIdentity {
        module_kind,
        artifact_kind: ArtifactKind::Ptx,
        compile_key: [seed; 32],
        artifact_digest: [seed + 1; 32],
    };
    GemmRouteIdentity {
        policy: GemmPolicy {
            batch_invariant: true,
            bi_tensor_cores: true,
            fast_gemm: false,
            cublas_tf32: false,
            f32_triad_policy: F32TriadPolicy::ExactScalarFmaV1,
            half_triad_policy: HalfTriadPolicy::TiledParityV1,
            bi_gemm_family: BiGemmFamily::Triad,
        },
        backend_set: 2,
        numeric_contracts: 4,
        compiler: compiler(CudaTarget::compute(120), (12, 8)),
        artifacts: ArtifactSet {
            fixed: artifact(ModuleKind::Fixed, 5),
            triad_scalar: artifact(ModuleKind::TriadScalar, 7),
            triad_sm80: artifact(ModuleKind::TriadSm80, 9),
            specialized: Some(artifact(ModuleKind::TriadSm120, 11)),
        },
        policy_revision: 1,
        policy_hash: [13; 32],
        device: DeviceIdentity {
            compute_capability: (12, 0),
            multiprocessor_count: 24,
            target: CudaTarget::sm(120),
            driver: DriverIdentity {
                api_version: 12_800,
                build_sources: 1,
                build_digest: [14; 32],
            },
        },
        device_caps: DeviceCaps {
            compute_capability: (12, 0),
            nvrtc_version: (12, 8),
            accepted_target: Some(CudaTarget::compute(120)),
            optin_shared_bytes: 101_376,
            tensor_map_access: true,
        },
        tuning_table_revision: 1,
        schedule_set_revision: 1,
        state_capacity: 64,
    }
}

fn half(ptr: u64) -> TypedPtr {
    TypedPtr {
        ptr,
        dtype: WeightDtype::Bf16,
    }
}

fn compilers() -> HalfCompilers {
    HalfCompilers {
        triad_scalar: context().compiler,
        triad_sm80: context().compiler,
    }
}

const REVISIONS: TableRevisions = TableRevisions {
    tuning_table: 17,
    schedule: 18,
};

const ALLOCATIONS: HalfAllocations = HalfAllocations {
    output: [1; 32],
    a: [2; 32],
    b: [3; 32],
    bias: [4; 32],
};

const TARGET: StreamKTarget = StreamKTarget {
    multiprocessor_count: 24,
    composed: true,
    counter_capacity: 4_096,
    partial: 0x7_0000,
    flags: 0x8_0000,
};

fn forward(dims: (usize, usize, usize), big: bool) -> Result<HalfLaunch, LaunchError> {
    gemm_bi_forward_typed_native(half(0x1000), half(0x2000), half(0x3000), 0x4000, dims, big)
}

#[test]
fn forward_products_are_bucketed_by_their_shape() {
    let gemv = forward((10, 64, 1), false).unwrap();
    assert_eq!(gemv.launch.symbol, "gemm_bi_nn_gemv_bf16");
    assert_eq!(gemv.launch.config, LaunchConfig::linear(3, 128, 0));
    assert_eq!(
        gemv.launch.args,
        vec![
            KernelArg::Pointer(0x1000),
            KernelArg::Pointer(0x2000),
            KernelArg::Pointer(0x3000),
            KernelArg::Pointer(0x4000),
            KernelArg::Float(ONE),
            KernelArg::Float(ZERO),
            KernelArg::Int(10),
            KernelArg::Int(64),
            KernelArg::Int(64),
            KernelArg::Int(1),
        ]
    );
    let thin = forward((31, 2_048, 100), false).unwrap();
    assert_eq!(thin.launch.symbol, "gemm_bi_nn_ultra_thin_bf16");
    assert_eq!(thin.launch.config.grid_dim, (4, 31, 1));
    assert_eq!(thin.launch.config.shared_mem_bytes, 8_192);
    let small = forward((64, 16, 127), false).unwrap();
    assert_eq!(small.launch.symbol, "gemm_bi_nn_narrow_small_bf16");
    assert_eq!(small.launch.config, LaunchConfig::linear(4 * 8, 64, 0));
    let narrow = forward((65, 16, 127), false).unwrap();
    assert_eq!(narrow.launch.symbol, "gemm_bi_nn_narrow_bf16");
    assert_eq!(narrow.launch.config, LaunchConfig::linear(2 * 4, 128, 0));
    assert_eq!(narrow.launch.args.len(), 13);
    let big = forward((256, 512, 256), true).unwrap();
    assert_eq!(big.launch.symbol, "gemm_bi_nn_big_bf16");
    assert_eq!(big.launch.config, LaunchConfig::linear(4, 256, 34_816));
    assert_eq!(big.seal().tile, (128, 128));
    assert_eq!(
        forward((256, 512, 256), false),
        Err(LaunchError::Uncovered(
            UncoveredProduct::ForwardTyped,
            (256, 512, 256)
        ))
    );
}

#[test]
fn mixed_or_full_element_types_are_refused() {
    let full = TypedPtr {
        ptr: 0x1000,
        dtype: WeightDtype::F32,
    };
    let other = TypedPtr {
        ptr: 0x2000,
        dtype: WeightDtype::F16,
    };
    assert!(matches!(
        gemm_bi_forward_typed_native(full, full, full, 0, (10, 64, 1), false),
        Err(LaunchError::RequiresHalf(_))
    ));
    assert_eq!(
        gemm_bi_forward_typed_native(half(0x1000), other, half(0x3000), 0, (10, 64, 1), false),
        Err(LaunchError::Rejected(
            "gemm_bi_forward_typed_native: mixed dtypes not supported"
        ))
    );
    assert!(gemm_bi_backward_dw_typed_native(0x1000, half(1), other, (10, 64, 1), false).is_err());
    assert!(
        gemm_bi_backward_dx_typed_native(half(1), half(2), other, (10, 64, 1), false).is_err()
    );
}

#[test]
fn gradients_are_bucketed_by_their_shape() {
    let dw = |dims, big| {
        gemm_bi_backward_dw_typed_native(0x1000, half(0x2000), half(0x3000), dims, big)
    };
    assert_eq!(
        dw((64, 10, 1), false).unwrap().launch.symbol,
        "gemm_bi_tn_gemv_bf16"
    );
    assert_eq!(
        dw((64, 10, 100), false).unwrap().launch.symbol,
        "gemm_bi_tn_narrow_bf16"
    );
    assert_eq!(
        dw((256, 256, 256), true).unwrap().launch.symbol,
        "gemm_bi_tn_big_bf16"
    );
    assert!(matches!(
        dw((256, 256, 256), false),
        Err(LaunchError::Uncovered(
            UncoveredProduct::BackwardDwTyped,
            (256, 256, 256)
        ))
    ));
    let dx = |dims, big| {
        gemm_bi_backward_dx_typed_native(half(0x1000), half(0x2000), half(0x3000), dims, big)
    };
    assert_eq!(
        dx((64, 10, 1), false).unwrap().launch.symbol,
        "gemm_bi_nt_gemv_bf16"
    );
    assert_eq!(
        dx((64, 10, 100), false).unwrap().launch.symbol,
        "gemm_bi_nt_narrow_bf16"
    );
    assert_eq!(
        dx((256, 256, 256), true).unwrap().launch.symbol,
        "gemm_bi_nt_big_bf16"
    );
}

#[test]
fn forced_tiles_have_their_own_kernels() {
    let ops = TcFwdOperands {
        y: half(0x1000),
        x: half(0x2000),
        w: half(0x3000),
        bias_ptr: 0,
    };
    for (tile, symbol, grid) in [
        (TcTile::Tile128, "gemm_bi_nn_tc_bf16", 6),
        (TcTile::Tile64, "gemm_bi_nn_tc64_bf16", 20),
    ] {
        let launch = gemm_bi_forward_tc_with_tile(&ops, (300, 128, 200), tile).unwrap();
        assert_eq!(launch.launch.symbol, symbol);
        assert_eq!(launch.launch.config.grid_dim, (grid, 1, 1));
    }
    for tile in [TcTile::Rect128x64, TcTile::Tile64StreamK] {
        assert!(gemm_bi_forward_tc_with_tile(&ops, (300, 128, 200), tile).is_err());
    }
    let strided = F32TriadShape {
        lda: 256,
        ..F32TriadShape::contiguous(ResolvedGemmOp::Nn, (300, 128, 200))
    };
    let launch = gemm_bi_forward_tc_with_tile_shape(&ops, strided, TcTile::Tile64).unwrap();
    assert_eq!(launch.observation.strides, (256, 200, 200));
    let short = F32TriadShape { lda: 64, ..strided };
    assert!(gemm_bi_forward_tc_with_tile_shape(&ops, short, TcTile::Tile64).is_err());
    assert_eq!(
        gemm_bi_forward_tc(ops.y, ops.x, ops.w, 0, (300, 128, 200), None),
        Err(LaunchError::Uncovered(
            UncoveredProduct::ForwardTc,
            (300, 128, 200)
        ))
    );
    let (tile, _) =
        gemm_bi_forward_tc(ops.y, ops.x, ops.w, 0, (300, 128, 200), Some(TcTile::Tile64)).unwrap();
    assert_eq!(tile, TcTile::Tile64);
    assert!(gemm_bi_backward_dx_tc(ops.y, ops.x, ops.w, (300, 128, 200), None).is_err());
}

#[test]
fn stream_k_grids_are_persistent_and_never_empty() {
    assert_eq!(sm80_streamk_grid(24, (512, 256, 256)), Ok(24));
    assert_eq!(sm80_streamk_grid(1_000, (512, 256, 256)), Ok(16 * 8));
    assert_eq!(sm80_streamk_grid(0, (512, 256, 256)), Ok(1));
    assert_eq!(sm80_streamk_grid(24, (0, 256, 256)), Ok(1));
    assert!(sm80_streamk_grid(24, (1, usize::MAX, 1)).is_err());
    assert_eq!(sm80_streamk_workspace(24, 4_096), Ok(()));
    assert!(sm80_streamk_workspace(24, 1).is_err());
    assert!(sm80_streamk_workspace(u32::MAX, 4_096).is_err());
}

#[test]
fn stream_k_gradients_carry_their_workspaces() {
    let launch = gemm_bi_backward_dw_tc_with_tile(
        0x1000,
        half(0x2000),
        half(0x3000),
        (512, 256, 256),
        TcTile::Tile64StreamK,
        TARGET,
    )
    .unwrap();
    assert_eq!(launch.launch.config.grid_dim, (24, 1, 1));
    let arguments = &launch.launch.args;
    assert_eq!(arguments[arguments.len() - 2], KernelArg::Pointer(0x7_0000));
    assert_eq!(arguments[arguments.len() - 1], KernelArg::Pointer(0x8_0000));
    let missing = StreamKTarget {
        composed: false,
        ..TARGET
    };
    assert!(gemm_bi_backward_dw_tc(
        0x1000,
        half(0x2000),
        half(0x3000),
        (512, 256, 256),
        Some(TcTile::Tile64StreamK),
        missing,
    )
    .is_err());
    let rectangular = gemm_bi_backward_dw_tc_with_tile(
        0x1000,
        half(0x2000),
        half(0x3000),
        (512, 1_536, 768),
        TcTile::Rect128x64,
        TARGET,
    )
    .unwrap();
    assert_eq!(rectangular.launch.symbol, "gemm_bi_tn_tc128x64_bf16");
    assert_eq!(rectangular.launch.config.grid_dim, (144, 1, 1));
}

#[test]
fn the_batch_does_not_change_the_tiling_of_a_forced_product() {
    let ops = TcFwdOperands {
        y: half(0x1000),
        x: half(0x2000),
        w: half(0x3000),
        bias_ptr: 0,
    };
    let one = gemm_bi_forward_tc_with_tile(&ops, (1, 128, 200), TcTile::Tile64).unwrap();
    let many = gemm_bi_forward_tc_with_tile(&ops, (500, 128, 200), TcTile::Tile64).unwrap();
    assert_eq!(one.launch.symbol, many.launch.symbol);
    assert_eq!(one.launch.config.block_dim, many.launch.config.block_dim);
    assert_eq!(one.observation.tile, many.observation.tile);
    assert_eq!(one.observation.bk_stages, many.observation.bk_stages);
}

#[test]
fn recorded_launches_are_prepared_again_unchanged() {
    let launch = forward((256, 512, 256), true).unwrap();
    let config = launch.launch.config;
    let route = resolve_half_gemm_observation(
        Some(context()),
        &compilers(),
        REVISIONS,
        launch.observation,
        config,
        Ok(ALLOCATIONS),
    )
    .unwrap();
    assert_eq!(route.symbol, "gemm_bi_nn_big_bf16");
    assert_eq!(route.backend, PhysicalGemmBackend::ScalarFmaV1);
    assert_eq!(route.numeric_contract, ResolvedNumericContract::ScalarFmaV1);
    assert_eq!(route.threads, 256);
    assert_eq!(route.tuning_table_revision, 17);
    assert_eq!(route.schedule_revision, 18);
    let expected = ExpectedPhysicalKernel {
        symbol: route.symbol,
        launch: route.launch,
        gemm_route: Some(route),
        tile: Some(route.tile),
    };
    let request = HalfPhysicalTraceRequest {
        op: ResolvedGemmOp::Nn,
        dtype: WeightDtype::Bf16,
        dims: (256, 512, 256),
        nn_strides: None,
        output: 0x1000,
        a: 0x2000,
        b: 0x3000,
        bias: 0x4000,
    };
    let identity = prepare_native_half_graph_identity(
        Some(context()),
        &compilers(),
        REVISIONS,
        &expected,
        request,
        true,
        Ok(ALLOCATIONS),
    )
    .unwrap();
    assert_eq!(identity.route, route);
    assert_eq!(identity.kernel, HalfKernel::NnBig);
    let moved = HalfPhysicalTraceRequest {
        a: 0x2002,
        ..request
    };
    let other = prepare_native_half_graph_identity(
        Some(context()),
        &compilers(),
        REVISIONS,
        &expected,
        moved,
        true,
        Ok(HalfAllocations {
            a: [9; 32],
            ..ALLOCATIONS
        }),
    )
    .unwrap();
    assert_ne!(
        other.route.launch.arguments_digest,
        route.launch.arguments_digest
    );
    let routeless = ExpectedPhysicalKernel {
        gemm_route: None,
        ..expected
    };
    assert_eq!(
        prepare_native_half_graph_identity(
            Some(context()),
            &compilers(),
            REVISIONS,
            &routeless,
            request,
            true,
            Ok(ALLOCATIONS),
        ),
        Err(LaunchError::Rejected(
            "native half graph node has no GEMM route"
        ))
    );
}

#[test]
fn recording_requires_the_batch_invariant_policy() {
    let launch = forward((256, 512, 256), true).unwrap();
    let record = |context: Option<GemmRouteIdentity>, launch: &HalfLaunch| {
        resolve_half_gemm_observation(
            context,
            &compilers(),
            REVISIONS,
            launch.observation,
            launch.launch.config,
            Ok(ALLOCATIONS),
        )
        .map(|_| ())
    };
    assert!(record(None, &launch).is_err());
    let mut loose = context();
    loose.policy.batch_invariant = false;
    assert!(record(Some(loose), &launch).is_err());
    let ops = TcFwdOperands {
        y: half(0x1000),
        x: half(0x2000),
        w: half(0x3000),
        bias_ptr: 0,
    };
    let tensor = gemm_bi_forward_tc_with_tile(&ops, (300, 128, 200), TcTile::Tile64).unwrap();
    let mut scalar = context();
    scalar.policy.bi_tensor_cores = false;
    assert!(record(Some(scalar), &tensor).is_err());
    assert_eq!(record(Some(scalar), &launch), Ok(()));
    assert_eq!(record(Some(context()), &tensor), Ok(()));
}

#[test]
fn spans_cover_the_tensors_in_bytes() {
    let launch = forward((10, 64, 1), false).unwrap();
    let spans = half_argument_spans(launch.observation);
    assert_eq!(spans.output, Ok(10 * 2));
    assert_eq!(spans.a, Ok(10 * 64 * 2));
    assert_eq!(spans.b, Ok(64 * 2));
    assert_eq!(spans.bias, Some(Ok(4)));
}

#[test]
fn allocations_are_asked_for_in_order() {
    let launch = forward((10, 64, 1), false).unwrap();
    let asked = RefCell::new(Vec::new());
    let unmapped = LaunchError::Rejected("unmapped");
    let ask = |observation, refused: u64| {
        asked.borrow_mut().clear();
        half_argument_allocations(observation, &|pointer, bytes| {
            asked.borrow_mut().push((pointer, bytes));
            if pointer == refused {
                Err(unmapped)
            } else {
                Ok([(pointer >> 12) as u8; 32])
            }
        })
    };
    assert_eq!(ask(launch.observation, 0), Ok(ALLOCATIONS));
    assert_eq!(
        *asked.borrow(),
        vec![(0x1000, 20), (0x2000, 1_280), (0x3000, 128), (0x4000, 4)]
    );
    assert_eq!(ask(launch.observation, 0x2000), Err(unmapped));
    assert_eq!(*asked.borrow(), vec![(0x1000, 20), (0x2000, 1_280)]);

    let mut unbiased = launch.observation;
    unbiased.arguments.bias = 0;
    assert_eq!(
        ask(unbiased, 0),
        Ok(HalfAllocations {
            bias: [0; 32],
            ..ALLOCATIONS
        })
    );

    // The A matrix fits usize in elements and not u64 in bytes: the output is
    // asked for first, and refused first.
    let mut wide = launch.observation;
    wide.dims = (1 << 32, 1 << 31, 1);
    let overflow = LaunchError::InvalidDimensions("physical half A span overflows u64");
    assert_eq!(ask(wide, 0), Err(overflow));
    assert_eq!(*asked.borrow(), vec![(0x1000, 1 << 33)]);
    assert_eq!(ask(wide, 0x1000), Err(unmapped));

    wide.dims = (1 << 32, 1 << 32, 1);
    assert_eq!(
        ask(wide, 0x1000),
        Err(LaunchError::InvalidDimensions(
            "physical half A span overflows usize"
        ))
    );
    assert!(asked.borrow().is_empty());
    assert_eq!(
        resolve_half_gemm_observation(
            Some(context()),
            &compilers(),
            REVISIONS,
            launch.observation,
            launch.launch.config,
            Err(unmapped),
        ),
        Err(unmapped)
    );
}

#[test]
fn memory_is_asked_for_behind_the_policy() {
    let launch = forward((256, 512, 256), true).unwrap();
    let asked = RefCell::new(0);
    let identify = |pointer: u64, _: u64| {
        *asked.borrow_mut() += 1;
        Ok([(pointer >> 12) as u8; 32])
    };
    let observe = |context| {
        observe_half_gemm(
            context,
            &compilers(),
            REVISIONS,
            launch.observation,
            launch.launch.config,
            &identify,
        )
    };
    let mut loose = context();
    loose.policy.batch_invariant = false;
    assert!(observe(None).is_err());
    assert!(observe(Some(loose)).is_err());
    assert_eq!(*asked.borrow(), 0);
    let route = observe(Some(context())).unwrap();
    assert_eq!(*asked.borrow(), 4);
    assert_eq!(
        Ok(route),
        resolve_half_gemm_observation(
            Some(context()),
            &compilers(),
            REVISIONS,
            launch.observation,
            launch.launch.config,
            Ok(ALLOCATIONS),
        )
    );

    let expected = ExpectedPhysicalKernel {
        symbol: route.symbol,
        launch: route.launch,
        gemm_route: Some(route),
        tile: Some(route.tile),
    };
    let tensors = launch.observation.arguments;
    let request = HalfPhysicalTraceRequest {
        op: launch.observation.op,
        dtype: launch.observation.dtype,
        dims: launch.observation.dims,
        nn_strides: None,
        output: tensors.output,
        a: tensors.a,
        b: tensors.b,
        bias: tensors.bias,
    };
    *asked.borrow_mut() = 0;
    let observe = |context| {
        observe_native_half_graph(
            context,
            &compilers(),
            REVISIONS,
            &expected,
            request,
            true,
            &identify,
        )
    };
    assert!(observe(Some(loose)).is_err());
    assert_eq!(*asked.borrow(), 0);
    assert_eq!(observe(Some(context())).unwrap().route, route);
    assert_eq!(*asked.borrow(), 4);
}

#[test]
fn symbols_lead_back_to_their_kernel() {
    assert_eq!(
        native_half_kernel("gemm_bi_nn_tc64_f16", WeightDtype::F16, false),
        Ok(HalfKernel::NnTc64)
    );
    assert!(native_half_kernel("gemm_bi_nn_tc64_f16", WeightDtype::Bf16, false).is_err());
    assert!(native_half_kernel("gemm_bi_nn_tc64_f16", WeightDtype::F32, false).is_err());
    assert!(native_half_kernel("gemm_bi_nn_unknown_f16", WeightDtype::F16, false).is_err());
    let streamed = format!("{}_f16", HalfKernel::TnTc64StreamK.base());
    assert_eq!(
        native_half_kernel(&streamed, WeightDtype::F16, true),
        Ok(HalfKernel::TnTc64StreamK)
    );
    assert_eq!(
        native_half_kernel(&streamed, WeightDtype::F16, false),
        Err(LaunchError::Rejected(
            "the portable stream-K dW kernel is not composed for this target"
        ))
    );
}
