use gemm_bi_triad::cache::{make_room_in_bounded_cache, PreparedCache};
use gemm_bi_triad::control::{ScalarLaunchControl, validate_prepared_scalar_binding};
use gemm_bi_triad::error::LaunchError;
use gemm_bi_triad::f32_launch::{
    physical_prepared_f32_route, PreparedF32Kind, PreparedF32TriadLaunch, TensorMapPair,
};
use gemm_bi_triad::f32_prepare::{
    prepare_f32_maps_with, F32PreparedTensorMaps, Tf32MapBinding, Tf32TensorMapFormat,
};
use gemm_bi_triad::identity::{
    specialized_device_identity, AllocationDomain, ArtifactIdentity, ArtifactKind, ArtifactSet,
    BiGemmFamily, CompilerIdentity, CudaTarget, DeviceCaps, DeviceIdentity, DriverIdentity,
    F32TriadPolicy, GemmPolicy, GemmRouteIdentity, HalfTriadPolicy, ModuleKind, PolicyDtype,
    PhysicalGemmBackend, ResolvedGemmRoute, ResolvedInstructionFamily, ResolvedInstructionShape,
    ResolvedNumericContract, ResolvedOperandConversion, ResolvedOutputOwnership, WeightDtype,
};
use gemm_bi_triad::kernel::{LaunchConfig, ResolvedKernelLaunch, TensorMap};
use gemm_bi_triad::params::Sm80Tf32KernelParams;
use gemm_bi_triad::prepared::{
    sm120_cache_action, sm120_capture_cache_error, F32PreparedSelection, PreparedF32Key,
    Sm120CacheAction, Sm120ManagedEpochState, Sm120PreparedKey, F32_PREPARED_CACHE_LIMIT,
};
use gemm_bi_triad::prepared_use::refresh_cached_validation;
use gemm_bi_triad::scalar_dw::gemm_bi_backward_dw_with_control;
use gemm_bi_triad::scalar_dx::gemm_bi_backward_dx_with_control;
use gemm_bi_triad::scalar_launch::{PreparedScalar, ScalarWorkspace};
use gemm_bi_triad::scalar_plan::ScalarDispatchPlan;
use gemm_bi_triad::shape::{F32TriadOperands, F32TriadRequest, F32TriadShape, ResolvedGemmOp};
use gemm_bi_triad::tf32_plan::{Sm120FmaRoute, Sm120FmaTile, Tf32PhysicalRoute, Tf32Tiling};
use gemm_bi_triad::tf32_routes::{
    tf32_kernel_arguments_digest, tf32_splitk_arguments_digest, PreparedTf32Params,
    QualifiedModule, Tf32TensorOrigins,
};
use gemm_bi_triad::tma::{
    TmaAutoRequest, TmaForcedRoute, TmaLaunchOperands, TmaPhysicalRoute, TmaSchedule, TmaTile,
};
use std::cell::Cell;

const ONE: u32 = 0x3f80_0000;
const ZERO: u32 = 0;
const NEGATIVE_ZERO: u32 = 0x8000_0000;

fn compiler(target: CudaTarget, nvrtc_version: (i32, i32)) -> CompilerIdentity {
    CompilerIdentity {
        source_digest: [1; 32],
        invocation_digest: [2; 32],
        header_manifest_digest: [3; 32],
        target,
        nvrtc_version,
        nvrtc_library_domain: [4; 32],
        nvrtc_library_known: true,
        output_kind: ArtifactKind::Ptx,
        composer_revision: 1,
        compiler_revision: 1,
        numeric_abi_revision: 1,
        schedule_revision: 1,
    }
}

fn sm120_context_fixture() -> GemmRouteIdentity {
    let artifact = |module_kind, seed: u8| ArtifactIdentity {
        module_kind,
        artifact_kind: ArtifactKind::Ptx,
        compile_key: [seed; 32],
        artifact_digest: [seed + 1; 32],
    };
    GemmRouteIdentity {
        policy: GemmPolicy {
            batch_invariant: true,
            bi_tensor_cores: true,
            fast_gemm: false,
            cublas_tf32: false,
            f32_triad_policy: F32TriadPolicy::ExactScalarFmaV1,
            half_triad_policy: HalfTriadPolicy::TiledParityV1,
            bi_gemm_family: BiGemmFamily::Triad,
        },
        backend_set: 2,
        numeric_contracts: 4,
        compiler: compiler(CudaTarget::compute(120), (12, 8)),
        artifacts: ArtifactSet {
            fixed: artifact(ModuleKind::Fixed, 5),
            triad_scalar: artifact(ModuleKind::TriadScalar, 7),
            triad_sm80: artifact(ModuleKind::TriadSm80, 9),
            specialized: Some(artifact(ModuleKind::TriadSm120, 11)),
        },
        policy_revision: 1,
        policy_hash: [13; 32],
        device: DeviceIdentity {
            compute_capability: (12, 0),
            multiprocessor_count: 24,
            target: CudaTarget::sm(120),
            driver: DriverIdentity {
                api_version: 12_800,
                build_sources: 1,
                build_digest: [14; 32],
            },
        },
        device_caps: DeviceCaps {
            compute_capability: (12, 0),
            nvrtc_version: (12, 8),
            accepted_target: Some(CudaTarget::compute(120)),
            optin_shared_bytes: 101_376,
            tensor_map_access: true,
        },
        tuning_table_revision: 1,
        schedule_set_revision: 1,
        state_capacity: 64,
    }
}

fn sm120_key_fixture() -> (TmaForcedRoute, TmaAutoRequest, Sm120PreparedKey) {
    let route = TmaForcedRoute {
        op: ResolvedGemmOp::Nn,
        dtype: WeightDtype::Bf16,
        physical: TmaPhysicalRoute {
            tile: TmaTile {
                rows: 128,
                columns: 64,
            },
            bk: 64,
            stages: 2,
            schedule: TmaSchedule::Tiled,
            threads: 256,
            wide_m_warp: false,
        },
        shape: F32TriadShape::contiguous(ResolvedGemmOp::Nn, (2_048, 768, 3_072)),
    };
    let request = TmaAutoRequest {
        op: route.op,
        dtype: route.dtype,
        shape: route.shape,
        a_ptr: 0x1_0000,
        b_ptr: 0x2_0000,
        multiprocessors: 170,
        half_policy: HalfTriadPolicy::TiledParityV1,
        operands: TmaLaunchOperands {
            output_ptr: 0x3_0000,
            bias_ptr: 0x4_0000,
            alpha: ONE,
            beta: ZERO,
        },
    };
    let key = Sm120PreparedKey::new(sm120_context_fixture(), route, request);
    (route, request, key)
}

fn portable_binding() -> Tf32MapBinding {
    let target = CudaTarget::sm(89);
    Tf32MapBinding {
        allocation_domain: AllocationDomain {
            context_handle: 7,
            device_ordinal: 0,
        },
        qualified: QualifiedModule {
            target,
            artifact: ArtifactIdentity {
                module_kind: ModuleKind::TriadSm80,
                artifact_kind: ArtifactKind::Ptx,
                compile_key: [4; 32],
                artifact_digest: [2; 32],
            },
            compiler: compiler(target, (13, 2)),
            device: DeviceIdentity {
                compute_capability: (8, 9),
                multiprocessor_count: 142,
                target,
                driver: DriverIdentity {
                    api_version: 13_020,
                    build_sources: 1,
                    build_digest: [7; 32],
                },
            },
            device_caps: DeviceCaps {
                compute_capability: (8, 9),
                nvrtc_version: (13, 2),
                accepted_target: Some(target),
                optin_shared_bytes: 99_000,
                tensor_map_access: false,
            },
        },
    }
}

fn portable_route() -> Tf32PhysicalRoute {
    Tf32PhysicalRoute::MmaTf32RnaV1(Tf32Tiling {
        rows: 16,
        columns: 32,
        bk: 32,
        stages: 4,
    })
}

fn zero_request(op: ResolvedGemmOp) -> F32TriadRequest {
    let dims = match op {
        ResolvedGemmOp::Nn => (3, 0, 5),
        ResolvedGemmOp::Tn => (0, 3, 5),
        ResolvedGemmOp::Nt => (3, 5, 0),
    };
    F32TriadRequest {
        op,
        shape: F32TriadShape::contiguous(op, dims),
    }
}

/// The generation of a managed allocation, and whether a stamp is of it.
struct Allocations {
    generation: Cell<u64>,
}

impl Allocations {
    fn stamp(&self) -> u64 {
        self.generation.get()
    }

    fn replace(&self) {
        self.generation.set(self.generation.get() + 1);
    }

    fn is_current(&self, stamp: &u64) -> bool {
        *stamp == self.generation.get()
    }
}

#[test]
fn f32_prepared_key_seals_context_request_pointers_and_scalar_bits() {
    let context = sm120_context_fixture();
    let context_token = 7;
    let policy = context.policy;
    let request = F32TriadRequest {
        op: ResolvedGemmOp::Nn,
        shape: F32TriadShape::contiguous(ResolvedGemmOp::Nn, (49, 65, 129)),
    };
    let operands = F32TriadOperands {
        output: 0x1_0000,
        a: 0x2_0000,
        b: 0x3_0000,
        bias: Some(0x4_0000),
        alpha: ONE,
        beta: ZERO,
    };
    let expected = PreparedF32Key::new(
        context_token,
        policy,
        F32PreparedSelection::Automatic,
        request,
        operands,
    );
    let assert_distinct = |context_token, policy, selection, request, operands| {
        assert_ne!(
            PreparedF32Key::new(context_token, policy, selection, request, operands),
            expected
        );
    };

    assert_distinct(
        context_token + 1,
        policy,
        F32PreparedSelection::Automatic,
        request,
        operands,
    );
    for changed_policy in [
        GemmPolicy {
            batch_invariant: !policy.batch_invariant,
            ..policy
        },
        GemmPolicy {
            bi_tensor_cores: !policy.bi_tensor_cores,
            ..policy
        },
        GemmPolicy {
            fast_gemm: !policy.fast_gemm,
            ..policy
        },
        GemmPolicy {
            cublas_tf32: !policy.cublas_tf32,
            ..policy
        },
        GemmPolicy {
            f32_triad_policy: F32TriadPolicy::AllowDeterministicTf32V1,
            ..policy
        },
        GemmPolicy {
            half_triad_policy: HalfTriadPolicy::AllowStreamKFixedOrderV1,
            ..policy
        },
        GemmPolicy {
            bi_gemm_family: BiGemmFamily::Fixed,
            ..policy
        },
    ] {
        assert_distinct(
            context_token,
            changed_policy,
            F32PreparedSelection::Automatic,
            request,
            operands,
        );
    }
    assert_distinct(
        context_token,
        policy,
        F32PreparedSelection::ExactScalar,
        request,
        operands,
    );
    let forced = Tf32PhysicalRoute::Sm120TmaFmaExactV1(Sm120FmaRoute {
        tile: Sm120FmaTile::M128N64,
        kvec: false,
        splits: 1,
    });
    assert_distinct(
        context_token,
        policy,
        F32PreparedSelection::Forced(forced),
        request,
        operands,
    );
    assert_ne!(
        PreparedF32Key::new(
            context_token,
            policy,
            F32PreparedSelection::Forced(forced),
            request,
            operands,
        ),
        PreparedF32Key::new(
            context_token,
            policy,
            F32PreparedSelection::Forced(Tf32PhysicalRoute::Sm120TmaFmaExactV1(
                Sm120FmaRoute {
                    tile: Sm120FmaTile::M64N128,
                    kvec: false,
                    splits: 1,
                },
            )),
            request,
            operands,
        ),
    );
    let changed_request = F32TriadRequest {
        op: ResolvedGemmOp::Nt,
        shape: F32TriadShape::contiguous(ResolvedGemmOp::Nt, (49, 65, 129)),
    };
    assert_distinct(
        context_token,
        policy,
        F32PreparedSelection::Automatic,
        changed_request,
        operands,
    );
    for pointer in 0..4 {
        let mut changed = operands;
        match pointer {
            0 => changed.output += 16,
            1 => changed.a += 16,
            2 => changed.b += 16,
            _ => changed.bias = changed.bias.map(|bias| bias + 16),
        }
        assert_distinct(
            context_token,
            policy,
            F32PreparedSelection::Automatic,
            request,
            changed,
        );
    }
    let changed_bias_nullness = F32TriadOperands {
        bias: None,
        ..operands
    };
    assert_distinct(
        context_token,
        policy,
        F32PreparedSelection::Automatic,
        request,
        changed_bias_nullness,
    );
    let changed_alpha = F32TriadOperands {
        alpha: operands.alpha ^ 1,
        ..operands
    };
    assert_distinct(
        context_token,
        policy,
        F32PreparedSelection::Automatic,
        request,
        changed_alpha,
    );
    let changed_beta = F32TriadOperands {
        beta: NEGATIVE_ZERO,
        ..operands
    };
    assert_distinct(
        context_token,
        policy,
        F32PreparedSelection::Automatic,
        request,
        changed_beta,
    );
}

#[test]
fn sm120_prepared_key_seals_route_context_pointers_and_scalar_bits() {
    let (route, request, expected) = sm120_key_fixture();
    let context = sm120_context_fixture();
    let assert_distinct = |route, request, context| {
        assert_ne!(Sm120PreparedKey::new(context, route, request), expected);
    };

    let mut changed_route = route;
    changed_route.physical.stages = 3;
    assert_distinct(changed_route, request, context);
    let mut changed_context = context;
    changed_context.policy_hash[0] ^= 1;
    assert_distinct(route, request, changed_context);
    for pointer in 0..4 {
        let mut changed = request;
        match pointer {
            0 => changed.a_ptr += 128,
            1 => changed.b_ptr += 128,
            2 => changed.operands.output_ptr += 128,
            _ => changed.operands.bias_ptr += 128,
        }
        assert_distinct(route, changed, context);
    }
    let mut changed_alpha = request;
    changed_alpha.operands.alpha = request.operands.alpha ^ 1;
    assert_distinct(route, changed_alpha, context);
    let mut changed_beta = request;
    changed_beta.operands.beta = NEGATIVE_ZERO;
    assert_distinct(route, changed_beta, context);
}

#[test]
fn sm120_cache_action_is_prepared_only_and_fail_closed_during_capture() {
    assert_eq!(
        sm120_cache_action(true, false, Sm120ManagedEpochState::Missing),
        Sm120CacheAction::CaptureMissing
    );
    assert_eq!(
        sm120_cache_action(true, true, Sm120ManagedEpochState::Stale),
        Sm120CacheAction::CaptureStale
    );
    assert_eq!(
        sm120_cache_action(true, true, Sm120ManagedEpochState::Untracked),
        Sm120CacheAction::CaptureUntracked
    );
    assert_eq!(
        sm120_cache_action(true, true, Sm120ManagedEpochState::Current),
        Sm120CacheAction::UsePrepared
    );
    assert_eq!(
        sm120_cache_action(false, false, Sm120ManagedEpochState::Missing),
        Sm120CacheAction::Prepare
    );
    assert_eq!(
        sm120_cache_action(false, true, Sm120ManagedEpochState::Stale),
        Sm120CacheAction::Validate
    );
    assert_eq!(
        sm120_capture_cache_error(Sm120CacheAction::CaptureMissing),
        "prepared SM120 Triad cache entry is missing during graph capture; run eager warmup again"
    );
    assert_eq!(
        sm120_capture_cache_error(Sm120CacheAction::CaptureStale),
        "prepared SM120 Triad allocation epoch changed during graph capture; run eager warmup again"
    );
    assert_eq!(
        sm120_capture_cache_error(Sm120CacheAction::CaptureUntracked),
        "prepared SM120 Triad automatic capture requires managed allocations; run eager warmup again"
    );
}

fn resolved_fixture() -> ResolvedGemmRoute {
    let binding = portable_binding().qualified;
    ResolvedGemmRoute {
        op: ResolvedGemmOp::Nn,
        dtype: PolicyDtype::F32,
        backend: PhysicalGemmBackend::MmaTf32RnaV1,
        numeric_contract: ResolvedNumericContract::MmaTf32RnaV1,
        instruction_family: ResolvedInstructionFamily::MmaSync,
        instruction_shape: ResolvedInstructionShape { m: 16, n: 8, k: 8 },
        operand_conversion: ResolvedOperandConversion::RegisterCvtRnaTf32F32V1,
        ownership: ResolvedOutputOwnership::OneCtaPerOutputTileV1,
        symbol: "gemm_bi_nn_sm80_mma_tf32_v1_m16n32_bk32_s4",
        module_kind: ModuleKind::TriadSm80,
        target: binding.target,
        artifact: binding.artifact,
        compiler: binding.compiler,
        device: binding.device,
        device_caps: binding.device_caps,
        shape: (64, 64, 64),
        strides: (64, 64, 64),
        tile: (16, 32),
        bk: 32,
        stages: 4,
        threads: 128,
        launch: ResolvedKernelLaunch {
            grid_dim: (8, 1, 1),
            block_dim: (128, 1, 1),
            shared_mem_bytes: 0,
            arguments_digest: [3; 32],
        },
        tensor_map_revision: 1,
        tensor_maps_digest: [1; 32],
        resources_digest: [2; 32],
        tuning_table_revision: 40,
        schedule_revision: 1,
    }
}

fn tf32_launch_fixture(maps: Option<TensorMapPair>) -> PreparedF32TriadLaunch {
    PreparedF32TriadLaunch {
        context_token: 7,
        stream_token: 8,
        request: F32TriadRequest {
            op: ResolvedGemmOp::Nn,
            shape: F32TriadShape::contiguous(ResolvedGemmOp::Nn, (64, 64, 64)),
        },
        operands: F32TriadOperands {
            output: 0x1000,
            a: 0x2000,
            b: 0x3000,
            bias: None,
            alpha: ONE,
            beta: ZERO,
        },
        physical_resources: [9; 32],
        routes: vec![resolved_fixture()],
        kind: PreparedF32Kind::Tf32 {
            route: portable_route(),
            maps,
            params: PreparedTf32Params::Sm80(Sm80Tf32KernelParams {
                alpha: ONE,
                beta: ZERO,
                m: 64,
                k: 64,
                n: 64,
                lda: 64,
                ldb: 64,
                ldc: 64,
            }),
            config: LaunchConfig::linear(8, 128, 0),
        },
    }
}

#[test]
fn physical_tf32_route_preserves_semantic_arguments_while_projecting_resources() {
    let route = resolved_fixture();
    let maps = TensorMapPair {
        a: TensorMap { bytes: [1; 128] },
        b: TensorMap { bytes: [2; 128] },
        origins: Tf32TensorOrigins {
            a_x: 0,
            a_y: 0,
            b_x: 0,
            b_y: 0,
        },
        identity: [1; 32],
        physical_identity: [5; 32],
    };
    let mapped = physical_prepared_f32_route(&tf32_launch_fixture(Some(maps)), route);
    assert_eq!(mapped.resources_digest, [9; 32]);
    assert_eq!(mapped.tensor_maps_digest, [5; 32]);
    assert_eq!(
        mapped.launch.arguments_digest, [3; 32],
        "physical TF32 projection must preserve the semantic kernel-argument digest"
    );
    assert_eq!(
        ResolvedGemmRoute {
            resources_digest: route.resources_digest,
            tensor_maps_digest: route.tensor_maps_digest,
            ..mapped
        },
        route,
        "only resources and tensor maps are projected"
    );
    let unmapped = physical_prepared_f32_route(&tf32_launch_fixture(None), route);
    assert_eq!(unmapped.tensor_maps_digest, [0; 32]);
    let scalar = PreparedF32TriadLaunch {
        kind: PreparedF32Kind::Scalar(ScalarDispatchPlan::NnUltraThin),
        ..tf32_launch_fixture(None)
    };
    let projected = physical_prepared_f32_route(&scalar, route);
    assert_eq!(projected.tensor_maps_digest, [1; 32]);
    assert_eq!(projected.resources_digest, [9; 32]);
}

#[test]
fn tf32_argument_digests_bind_bias_nullness() {
    let request = F32TriadRequest {
        op: ResolvedGemmOp::Nn,
        shape: F32TriadShape::contiguous(ResolvedGemmOp::Nn, (64, 1_536, 384)),
    };
    let without_bias = F32TriadOperands {
        output: 0x1000,
        a: 0x2000,
        b: 0x3000,
        bias: None,
        alpha: ONE,
        beta: ZERO,
    };
    let with_bias = F32TriadOperands {
        bias: Some(0x4000),
        ..without_bias
    };
    assert_ne!(
        tf32_kernel_arguments_digest(request, without_bias, "tf32", [0; 32]),
        tf32_kernel_arguments_digest(request, with_bias, "tf32", [0; 32])
    );
    assert_ne!(
        tf32_splitk_arguments_digest(request, without_bias, "splitk", 0, 4, 98_304),
        tf32_splitk_arguments_digest(request, with_bias, "splitk", 0, 4, 98_304)
    );
}

#[test]
fn specialized_device_identity_preserves_the_loaded_kernel_sm_count() {
    let target = CudaTarget::sm(100);
    let driver = DriverIdentity {
        api_version: 13_020,
        build_sources: 1,
        build_digest: [9; 32],
    };

    let identity = specialized_device_identity((10, 0), 73, target, driver);

    assert_eq!(
        identity,
        DeviceIdentity {
            compute_capability: (10, 0),
            multiprocessor_count: 73,
            target,
            driver,
        }
    );
}

#[test]
fn current_managed_epoch_skips_cached_full_validation() {
    let registration = Allocations {
        generation: Cell::new(1),
    };
    let mut stamp = Some(registration.stamp());
    let validations = Cell::new(0);

    refresh_cached_validation(
        &mut stamp,
        &|stamp: &u64| registration.is_current(stamp),
        || panic!("stable epoch must not query capture status"),
        || {
            validations.set(validations.get() + 1);
            Ok(None)
        },
    )
    .unwrap();

    assert_eq!(validations.get(), 0);
    assert_eq!(stamp, Some(1));
}

#[test]
fn changed_managed_epoch_refreshes_once_outside_capture() {
    let registration = Allocations {
        generation: Cell::new(1),
    };
    let mut stamp = Some(registration.stamp());
    registration.replace();
    let refreshed = registration.stamp();
    let validations = Cell::new(0);

    refresh_cached_validation(
        &mut stamp,
        &|stamp: &u64| registration.is_current(stamp),
        || Ok(false),
        || {
            validations.set(validations.get() + 1);
            Ok(Some(refreshed))
        },
    )
    .unwrap();

    assert_eq!(validations.get(), 1);
    assert!(stamp
        .as_ref()
        .is_some_and(|stamp| registration.is_current(stamp)));
}

#[test]
fn changed_managed_epoch_requires_warmup_during_capture() {
    let registration = Allocations {
        generation: Cell::new(1),
    };
    let mut stamp = Some(registration.stamp());
    registration.replace();

    let error = refresh_cached_validation(
        &mut stamp,
        &|stamp: &u64| registration.is_current(stamp),
        || Ok(true),
        || panic!("capture must not run full allocation validation"),
    )
    .expect_err("stale managed epoch must reject capture");

    assert!(error.message().contains("eager warmup"), "{error:?}");
}

#[test]
fn an_epoch_that_changes_during_validation_is_refused() {
    let mut stamp = Some(1_u64);
    let error = refresh_cached_validation(
        &mut stamp,
        &|stamp: &u64| *stamp == 3,
        || Ok(false),
        || Ok(Some(2)),
    )
    .unwrap_err();
    assert!(error.message().contains("changed during"), "{error:?}");
    assert_eq!(stamp, Some(1));
    let refused = LaunchError::Rejected("no status");
    assert_eq!(
        refresh_cached_validation(
            &mut stamp,
            &|_: &u64| false,
            || Err(refused),
            || panic!("an unknown capture status stops the refresh"),
        ),
        Err(refused)
    );
}

#[test]
fn bounded_cache_sweep_removes_stale_entries_before_insertion() {
    let mut entries = PreparedCache::new();
    entries.insert(1_u32, true);
    entries.insert(2, false);

    make_room_in_bounded_cache(&mut entries, &3, F32_PREPARED_CACHE_LIMIT, |current: &bool| {
        *current
    });

    assert_eq!(entries.len(), 1);
    assert_eq!(entries.get(&1), Some(&true));
}

#[test]
fn bounded_cache_clears_before_a_distinct_entry_exceeds_the_limit() {
    let mut entries = PreparedCache::new();
    for key in 0..F32_PREPARED_CACHE_LIMIT {
        entries.insert(key, true);
    }
    assert_eq!(entries.len(), F32_PREPARED_CACHE_LIMIT);

    make_room_in_bounded_cache(
        &mut entries,
        &F32_PREPARED_CACHE_LIMIT,
        F32_PREPARED_CACHE_LIMIT,
        |current: &bool| *current,
    );

    assert_eq!(entries.len(), 0);
}

#[test]
fn a_full_cache_keeps_room_for_a_key_that_it_holds() {
    let mut entries = PreparedCache::new();
    for key in 0..4_u32 {
        entries.insert(key, true);
    }
    make_room_in_bounded_cache(&mut entries, &2, 4, |current: &bool| *current);
    assert_eq!(entries.len(), 4);
    assert_eq!(entries.remove(&2), Some(true));
    assert_eq!(entries.remove(&2), None);
    assert!(!entries.contains_key(&2));
    assert!(entries.contains_key(&3));
}

#[test]
fn untracked_cached_resources_keep_full_validation() {
    let mut stamp: Option<u64> = None;
    let validations = Cell::new(0);
    for _ in 0..2 {
        refresh_cached_validation(
            &mut stamp,
            &|_: &u64| true,
            || panic!("untracked validation keeps the existing capture behavior"),
            || {
                validations.set(validations.get() + 1);
                Ok(None)
            },
        )
        .unwrap();
    }
    assert_eq!(validations.get(), 2);
}

#[test]
fn prepared_scalar_enqueue_does_not_rehash_frozen_arguments() {
    // The digest that was frozen is handed out, whatever it is: nothing is
    // hashed again when the launch is bound.
    let launch = ResolvedKernelLaunch {
        grid_dim: (2, 1, 1),
        block_dim: (128, 1, 1),
        shared_mem_bytes: 0,
        arguments_digest: [0x5a; 32],
    };
    assert_eq!(
        validate_prepared_scalar_binding("gemm_bi_nn", launch, "gemm_bi_nn", launch.config()),
        Ok([0x5a; 32])
    );
    let mut route = resolved_fixture();
    route.symbol = "gemm_bi_nn";
    route.launch = launch;
    let routes = vec![route];
    let frozen = PreparedScalar {
        plan: ScalarDispatchPlan::NnFinal { slim: false },
        operands: tf32_launch_fixture(None).operands,
    };
    let mut control = ScalarLaunchControl::new(&routes, frozen);
    assert!(control.finish().is_err());
    let bound = control.bind("gemm_bi_nn", launch.config()).unwrap();
    assert_eq!(bound.launch.arguments_digest, [0x5a; 32]);
    assert!(control.finish().is_ok());
    assert!(control.bind("gemm_bi_nn", launch.config()).is_err());
    assert_eq!(control.plan(), frozen.plan);
    assert_eq!(control.operands(), frozen.operands);
    assert!(control.validate_operands(frozen.operands).is_ok());
    assert!(control
        .validate_operands(F32TriadOperands {
            beta: NEGATIVE_ZERO,
            ..frozen.operands
        })
        .is_err());
}

#[test]
fn prepared_cache_lookup_does_not_build_full_route_identity() {
    // The lookup depends on the context's token and its policy alone, not on
    // the identity of its modules.
    let launch = tf32_launch_fixture(None);
    let policy = sm120_context_fixture().policy;
    let key = |token: u64, policy: GemmPolicy| {
        PreparedF32Key::new(
            token,
            policy,
            F32PreparedSelection::Automatic,
            launch.request,
            launch.operands,
        )
    };
    let mut cache = PreparedCache::new();
    cache.insert(key(7, policy), 1_u32);
    assert_eq!(cache.get(&key(7, policy)), Some(&1));
    assert_eq!(cache.get(&key(8, policy)), None);
    let other = GemmPolicy {
        fast_gemm: true,
        ..policy
    };
    assert_eq!(cache.get(&key(7, other)), None);
}

#[test]
fn prepared_backward_enqueue_skips_fallback_dispatch() {
    let undispatched = Err(LaunchError::Rejected("the dispatcher was asked"));
    let workspace = ScalarWorkspace {
        split: 0x10_0000,
        transpose: 0x20_0000,
        transpose_len: 4_718_592,
    };
    let dw = F32TriadOperands {
        output: 0x1000,
        a: 0x2000,
        b: 0x3000,
        bias: None,
        alpha: ONE,
        beta: ONE,
    };
    let dims = (128, 64, 64);
    let frozen = PreparedScalar {
        plan: ScalarDispatchPlan::TnFinal { slim: true },
        operands: dw,
    };
    let program = gemm_bi_backward_dw_with_control(
        0x1000,
        0x3000,
        0x2000,
        dims,
        Some(frozen),
        undispatched,
        workspace,
    );
    assert_eq!(program.outcome, Ok(()));
    assert_eq!(program.launches.len(), 1);
    let unprepared =
        gemm_bi_backward_dw_with_control(0x1000, 0x3000, 0x2000, dims, None, undispatched, workspace);
    assert_eq!(unprepared.outcome, undispatched.map(|_: ScalarDispatchPlan| ()));

    let dx = F32TriadOperands {
        a: 0x3000,
        b: 0x2000,
        beta: ZERO,
        ..dw
    };
    let frozen = PreparedScalar {
        plan: ScalarDispatchPlan::NtFinal { slim: true },
        operands: dx,
    };
    let program = gemm_bi_backward_dx_with_control(
        0x1000,
        0x3000,
        0x2000,
        dims,
        Some(frozen),
        undispatched,
        workspace,
    );
    assert_eq!(program.outcome, Ok(()));
    assert_eq!(program.launches.len(), 1);
}

#[test]
fn zero_reduction_preparation_never_queries_input_allocations() {
    let a_input_queries = Cell::new(0);
    let b_input_queries = Cell::new(0);
    let tensor_map_plan_queries = Cell::new(0);
    let tensor_map_encodes = Cell::new(0);
    for op in [ResolvedGemmOp::Nn, ResolvedGemmOp::Tn, ResolvedGemmOp::Nt] {
        let request = zero_request(op);
        let maps = prepare_f32_maps_with(
            request,
            F32TriadOperands {
                output: 0x3000,
                a: 0,
                b: 0,
                bias: None,
                alpha: ONE,
                beta: if op == ResolvedGemmOp::Tn { ONE } else { ZERO },
            },
            portable_route(),
            portable_binding(),
            |_, _, _| {
                a_input_queries.set(a_input_queries.get() + 1);
                b_input_queries.set(b_input_queries.get() + 1);
                tensor_map_plan_queries.set(tensor_map_plan_queries.get() + 1);
                Err(LaunchError::Rejected("K=0 must not build a tensor-map plan"))
            },
            |_: u32| -> Result<u32, LaunchError> {
                tensor_map_encodes.set(tensor_map_encodes.get() + 1);
                Err(LaunchError::Rejected("K=0 must not encode tensor maps"))
            },
        )
        .unwrap();
        assert!(matches!(
            maps,
            F32PreparedTensorMaps::ZeroReductionV1 { .. }
        ));
    }
    assert_eq!(a_input_queries.get(), 0);
    assert_eq!(b_input_queries.get(), 0);
    assert_eq!(tensor_map_plan_queries.get(), 0);
    assert_eq!(tensor_map_encodes.get(), 0);

    let request = F32TriadRequest {
        op: ResolvedGemmOp::Nn,
        shape: F32TriadShape::contiguous(ResolvedGemmOp::Nn, (3, 4, 5)),
    };
    let error = prepare_f32_maps_with(
        request,
        F32TriadOperands {
            output: 0x3000,
            a: 0x1000,
            b: 0x2000,
            bias: None,
            alpha: ONE,
            beta: ZERO,
        },
        portable_route(),
        portable_binding(),
        |_, _, _| {
            a_input_queries.set(a_input_queries.get() + 1);
            b_input_queries.set(b_input_queries.get() + 1);
            tensor_map_plan_queries.set(tensor_map_plan_queries.get() + 1);
            Err(LaunchError::Rejected("nonzero control reached the plan boundary"))
        },
        |_: u32| -> Result<u32, LaunchError> {
            tensor_map_encodes.set(tensor_map_encodes.get() + 1);
            Err(LaunchError::Rejected("nonzero control must stop at the plan boundary"))
        },
    )
    .err()
    .unwrap();
    assert!(error.message().contains("plan boundary"));
    assert_eq!(a_input_queries.get(), 1);
    assert_eq!(b_input_queries.get(), 1);
    assert_eq!(tensor_map_plan_queries.get(), 1);
    assert_eq!(tensor_map_encodes.get(), 0);
}

#[test]
fn placeholder_maps_present_words_only_to_kernels_that_read_words() {
    let tiling = Tf32Tiling {
        rows: 80,
        columns: 32,
        bk: 64,
        stages: 2,
    };
    for (route, expected) in [
        (portable_route(), Tf32TensorMapFormat::Tfloat32V1),
        (
            Tf32PhysicalRoute::Sm90aWgmmaTf32TmaV1(tiling),
            Tf32TensorMapFormat::Tfloat32V1,
        ),
        (
            Tf32PhysicalRoute::Sm120TmaMmaTf32RnaV1(tiling),
            Tf32TensorMapFormat::Uint32V1,
        ),
        (
            Tf32PhysicalRoute::Sm120TmaMmaTf32RnaStreamKV1(tiling),
            Tf32TensorMapFormat::Uint32V1,
        ),
    ] {
        let maps = prepare_f32_maps_with(
            zero_request(ResolvedGemmOp::Nn),
            tf32_launch_fixture(None).operands,
            route,
            portable_binding(),
            |_, _, _| -> Result<u32, LaunchError> { panic!("nothing is planned") },
            |_: u32| -> Result<u32, LaunchError> { panic!("nothing is encoded") },
        )
        .ok()
        .unwrap();
        assert!(matches!(
            maps,
            F32PreparedTensorMaps::ZeroReductionV1 { format, .. } if format == expected
        ));
    }
    let encoded = prepare_f32_maps_with(
        F32TriadRequest {
            op: ResolvedGemmOp::Nn,
            shape: F32TriadShape::contiguous(ResolvedGemmOp::Nn, (3, 4, 5)),
        },
        tf32_launch_fixture(None).operands,
        portable_route(),
        portable_binding(),
        |_, _, _| Ok::<u32, LaunchError>(6),
        |plan: u32| Ok::<u32, LaunchError>(plan * 7),
    );
    assert!(matches!(
        encoded,
        Ok(F32PreparedTensorMaps::Encoded(42))
    ));
}
