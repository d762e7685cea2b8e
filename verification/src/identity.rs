//! Identities that a resolved route is recorded under.

use crate::digest::Sha256Digest;
use crate::error::LaunchError;
use crate::kernel::ResolvedKernelLaunch;
use crate::shape::ResolvedGemmOp;
use vstd::prelude::*;

verus! {

/// The device module that a kernel was loaded from.
#[derive(Clone, Copy, Debug, PartialEq, Eq, Structural)]
pub enum ModuleKind {
    Fixed,
    TriadScalar,
    TriadSm80,
    TriadSm90a,
    TriadSm100,
    TriadSm120,
}

impl ModuleKind {
    /// The recorded code of a module.
    #[verifier::allow_in_spec]
    pub fn code(self) -> u8
        returns
            (match self {
                ModuleKind::Fixed => 0u8,
                ModuleKind::TriadScalar => 1u8,
                ModuleKind::TriadSm80 => 2u8,
                ModuleKind::TriadSm90a => 3u8,
                ModuleKind::TriadSm100 => 4u8,
                ModuleKind::TriadSm120 => 5u8,
            }),
    {
        match self {
            ModuleKind::Fixed => 0u8,
            ModuleKind::TriadScalar => 1u8,
            ModuleKind::TriadSm80 => 2u8,
            ModuleKind::TriadSm90a => 3u8,
            ModuleKind::TriadSm100 => 4u8,
            ModuleKind::TriadSm120 => 5u8,
        }
    }
}

impl ResolvedGemmOp {
    /// The recorded code of a product.
    #[verifier::allow_in_spec]
    pub fn code(self) -> u8
        returns
            (match self {
                ResolvedGemmOp::Nn => 0u8,
                ResolvedGemmOp::Tn => 1u8,
                ResolvedGemmOp::Nt => 2u8,
            }),
    {
        match self {
            ResolvedGemmOp::Nn => 0u8,
            ResolvedGemmOp::Tn => 1u8,
            ResolvedGemmOp::Nt => 2u8,
        }
    }
}

/// Element type of a tensor.
#[derive(Clone, Copy, Debug, PartialEq, Eq, Structural)]
pub enum WeightDtype {
    F32,
    Tf32,
    Bf16,
    F16,
}

/// Element type that a policy routes by.
#[derive(Clone, Copy, Debug, PartialEq, Eq, Structural)]
pub enum PolicyDtype {
    F32,
    Bf16,
    F16,
}

impl PolicyDtype {
    /// The recorded code of an element type.
    #[verifier::allow_in_spec]
    pub fn code(self) -> u8
        returns
            (match self {
                PolicyDtype::F32 => 0u8,
                PolicyDtype::Bf16 => 1u8,
                PolicyDtype::F16 => 2u8,
            }),
    {
        match self {
            PolicyDtype::F32 => 0u8,
            PolicyDtype::Bf16 => 1u8,
            PolicyDtype::F16 => 2u8,
        }
    }
}

/// The kernel family that computed a result.
#[derive(Clone, Copy, Debug, PartialEq, Eq, Structural)]
pub enum PhysicalGemmBackend {
    ScalarFmaV1,
    Sm80Mma16V1,
    MmaTf32RnaV1,
    MmaTf32RnaSplitK2V1,
    MmaTf32RnaSplitK4V1,
    MmaTf32RnaSplitK8V1,
    Sm90aWgmmaTf32TmaV1,
    Sm100Tcgen05Tf32TmaV1,
    Sm120TmaMmaTf32RnaV1,
    Sm120TmaMmaTf32RnaStreamKV1,
    Sm120TmaFmaExactV1,
    ScalarFmaTnNarrowSplitMPartialV1,
    ScalarFmaTnSplitMF64ReduceV1,
    ScalarFmaSplitKPartialV1,
    ScalarFmaSplitKF32ReduceV1,
}

impl PhysicalGemmBackend {
    /// The recorded code of a backend.
    #[verifier::allow_in_spec]
    pub fn code(self) -> u8
        returns
            (match self {
                PhysicalGemmBackend::ScalarFmaV1 => 0u8,
                PhysicalGemmBackend::Sm80Mma16V1 => 1u8,
                PhysicalGemmBackend::MmaTf32RnaV1 => 2u8,
                PhysicalGemmBackend::MmaTf32RnaSplitK2V1 => 3u8,
                PhysicalGemmBackend::MmaTf32RnaSplitK4V1 => 4u8,
                PhysicalGemmBackend::MmaTf32RnaSplitK8V1 => 5u8,
                PhysicalGemmBackend::Sm90aWgmmaTf32TmaV1 => 6u8,
                PhysicalGemmBackend::Sm100Tcgen05Tf32TmaV1 => 7u8,
                PhysicalGemmBackend::Sm120TmaMmaTf32RnaV1 => 8u8,
                PhysicalGemmBackend::Sm120TmaMmaTf32RnaStreamKV1 => 9u8,
                PhysicalGemmBackend::Sm120TmaFmaExactV1 => 10u8,
                PhysicalGemmBackend::ScalarFmaTnNarrowSplitMPartialV1 => 15u8,
                PhysicalGemmBackend::ScalarFmaTnSplitMF64ReduceV1 => 16u8,
                PhysicalGemmBackend::ScalarFmaSplitKPartialV1 => 17u8,
                PhysicalGemmBackend::ScalarFmaSplitKF32ReduceV1 => 18u8,
            }),
    {
        match self {
            PhysicalGemmBackend::ScalarFmaV1 => 0u8,
            PhysicalGemmBackend::Sm80Mma16V1 => 1u8,
            PhysicalGemmBackend::MmaTf32RnaV1 => 2u8,
            PhysicalGemmBackend::MmaTf32RnaSplitK2V1 => 3u8,
            PhysicalGemmBackend::MmaTf32RnaSplitK4V1 => 4u8,
            PhysicalGemmBackend::MmaTf32RnaSplitK8V1 => 5u8,
            PhysicalGemmBackend::Sm90aWgmmaTf32TmaV1 => 6u8,
            PhysicalGemmBackend::Sm100Tcgen05Tf32TmaV1 => 7u8,
            PhysicalGemmBackend::Sm120TmaMmaTf32RnaV1 => 8u8,
            PhysicalGemmBackend::Sm120TmaMmaTf32RnaStreamKV1 => 9u8,
            PhysicalGemmBackend::Sm120TmaFmaExactV1 => 10u8,
            PhysicalGemmBackend::ScalarFmaTnNarrowSplitMPartialV1 => 15u8,
            PhysicalGemmBackend::ScalarFmaTnSplitMF64ReduceV1 => 16u8,
            PhysicalGemmBackend::ScalarFmaSplitKPartialV1 => 17u8,
            PhysicalGemmBackend::ScalarFmaSplitKF32ReduceV1 => 18u8,
        }
    }
}

/// The rounding and order contract of a result.
#[derive(Clone, Copy, Debug, PartialEq, Eq, Structural)]
pub enum ResolvedNumericContract {
    ScalarFmaV1,
    MmaSyncF32V1,
    MmaSyncF32StreamKFixedOrderV1,
    MmaTf32RnaV1,
    MmaTf32RnaSplitK2V1,
    MmaTf32RnaSplitK4V1,
    MmaTf32RnaSplitK8V1,
    Sm90aWgmmaTf32TmaV1,
    Sm100Tcgen05Tf32TmaV1,
    Sm120TmaMmaTf32RnaV1,
    Sm120TmaMmaTf32RnaStreamKV1,
    ScalarFmaFixedSplitFoldV1,
    ZeroReductionEpilogueF32V1,
    ScalarFmaTnNarrowSplitMPartialV1,
    ScalarFmaTnSplitMF64ReduceV1,
    ScalarFmaSplitKPartialV1,
    ScalarFmaSplitKF32ReduceV1,
}

impl ResolvedNumericContract {
    /// The recorded code of a numeric contract.
    #[verifier::allow_in_spec]
    pub fn code(self) -> u8
        returns
            (match self {
                ResolvedNumericContract::ScalarFmaV1 => 0u8,
                ResolvedNumericContract::MmaSyncF32V1 => 1u8,
                ResolvedNumericContract::MmaTf32RnaV1 => 2u8,
                ResolvedNumericContract::MmaTf32RnaSplitK2V1 => 3u8,
                ResolvedNumericContract::MmaTf32RnaSplitK4V1 => 4u8,
                ResolvedNumericContract::MmaTf32RnaSplitK8V1 => 5u8,
                ResolvedNumericContract::Sm90aWgmmaTf32TmaV1 => 6u8,
                ResolvedNumericContract::Sm100Tcgen05Tf32TmaV1 => 7u8,
                ResolvedNumericContract::Sm120TmaMmaTf32RnaV1 => 8u8,
                ResolvedNumericContract::Sm120TmaMmaTf32RnaStreamKV1 => 9u8,
                ResolvedNumericContract::ScalarFmaFixedSplitFoldV1 => 10u8,
                ResolvedNumericContract::MmaSyncF32StreamKFixedOrderV1 => 11u8,
                ResolvedNumericContract::ZeroReductionEpilogueF32V1 => 12u8,
                ResolvedNumericContract::ScalarFmaTnNarrowSplitMPartialV1 => 14u8,
                ResolvedNumericContract::ScalarFmaTnSplitMF64ReduceV1 => 15u8,
                ResolvedNumericContract::ScalarFmaSplitKPartialV1 => 16u8,
                ResolvedNumericContract::ScalarFmaSplitKF32ReduceV1 => 17u8,
            }),
    {
        match self {
            ResolvedNumericContract::ScalarFmaV1 => 0u8,
            ResolvedNumericContract::MmaSyncF32V1 => 1u8,
            ResolvedNumericContract::MmaTf32RnaV1 => 2u8,
            ResolvedNumericContract::MmaTf32RnaSplitK2V1 => 3u8,
            ResolvedNumericContract::MmaTf32RnaSplitK4V1 => 4u8,
            ResolvedNumericContract::MmaTf32RnaSplitK8V1 => 5u8,
            ResolvedNumericContract::Sm90aWgmmaTf32TmaV1 => 6u8,
            ResolvedNumericContract::Sm100Tcgen05Tf32TmaV1 => 7u8,
            ResolvedNumericContract::Sm120TmaMmaTf32RnaV1 => 8u8,
            ResolvedNumericContract::Sm120TmaMmaTf32RnaStreamKV1 => 9u8,
            ResolvedNumericContract::ScalarFmaFixedSplitFoldV1 => 10u8,
            ResolvedNumericContract::MmaSyncF32StreamKFixedOrderV1 => 11u8,
            ResolvedNumericContract::ZeroReductionEpilogueF32V1 => 12u8,
            ResolvedNumericContract::ScalarFmaTnNarrowSplitMPartialV1 => 14u8,
            ResolvedNumericContract::ScalarFmaTnSplitMF64ReduceV1 => 15u8,
            ResolvedNumericContract::ScalarFmaSplitKPartialV1 => 16u8,
            ResolvedNumericContract::ScalarFmaSplitKF32ReduceV1 => 17u8,
        }
    }
}

/// Who writes an output element, and how often.
#[derive(Clone, Copy, Debug, PartialEq, Eq, Structural)]
pub enum ResolvedOutputOwnership {
    OneCtaPerOutputTileV1,
    OneThreadPerOutputElementFixedSplitMReduceV1,
    LastCtaPerOutputTileFixedSplitK2ReduceV1,
    LastCtaPerOutputTileFixedSplitK4ReduceV1,
    LastCtaPerOutputTileFixedSplitK8ReduceV1,
    OwnerCtaPerOutputTileStreamKFixedOrderV1,
    OwnerCtaPerOutputTileFixedSplitFoldV1,
    OneCtaPerOutputTilePerSplitKPartitionV1,
    OneThreadPerOutputElementFixedSplitKReduceV1,
}

impl ResolvedOutputOwnership {
    /// The recorded code of an ownership rule.
    #[verifier::allow_in_spec]
    pub fn code(self) -> u8
        returns
            (match self {
                ResolvedOutputOwnership::OneCtaPerOutputTileV1 => 0u8,
                ResolvedOutputOwnership::OneThreadPerOutputElementFixedSplitMReduceV1 => 1u8,
                ResolvedOutputOwnership::LastCtaPerOutputTileFixedSplitK2ReduceV1 => 2u8,
                ResolvedOutputOwnership::LastCtaPerOutputTileFixedSplitK4ReduceV1 => 3u8,
                ResolvedOutputOwnership::LastCtaPerOutputTileFixedSplitK8ReduceV1 => 4u8,
                ResolvedOutputOwnership::OwnerCtaPerOutputTileStreamKFixedOrderV1 => 5u8,
                ResolvedOutputOwnership::OwnerCtaPerOutputTileFixedSplitFoldV1 => 6u8,
                ResolvedOutputOwnership::OneCtaPerOutputTilePerSplitKPartitionV1 => 9u8,
                ResolvedOutputOwnership::OneThreadPerOutputElementFixedSplitKReduceV1 => 10u8,
            }),
    {
        match self {
            ResolvedOutputOwnership::OneCtaPerOutputTileV1 => 0u8,
            ResolvedOutputOwnership::OneThreadPerOutputElementFixedSplitMReduceV1 => 1u8,
            ResolvedOutputOwnership::LastCtaPerOutputTileFixedSplitK2ReduceV1 => 2u8,
            ResolvedOutputOwnership::LastCtaPerOutputTileFixedSplitK4ReduceV1 => 3u8,
            ResolvedOutputOwnership::LastCtaPerOutputTileFixedSplitK8ReduceV1 => 4u8,
            ResolvedOutputOwnership::OwnerCtaPerOutputTileStreamKFixedOrderV1 => 5u8,
            ResolvedOutputOwnership::OwnerCtaPerOutputTileFixedSplitFoldV1 => 6u8,
            ResolvedOutputOwnership::OneCtaPerOutputTilePerSplitKPartitionV1 => 9u8,
            ResolvedOutputOwnership::OneThreadPerOutputElementFixedSplitKReduceV1 => 10u8,
        }
    }
}

/// Recorded codes tell backends, numeric contracts and ownership rules apart.
pub proof fn recorded_codes_are_injective()
    ensures
        forall|a: PhysicalGemmBackend, b: PhysicalGemmBackend|
            #![trigger a.code(), b.code()]
            a.code() == b.code() ==> a == b,
        forall|a: ResolvedNumericContract, b: ResolvedNumericContract|
            #![trigger a.code(), b.code()]
            a.code() == b.code() ==> a == b,
        forall|a: ResolvedOutputOwnership, b: ResolvedOutputOwnership|
            #![trigger a.code(), b.code()]
            a.code() == b.code() ==> a == b,
        forall|a: ModuleKind, b: ModuleKind|
            #![trigger a.code(), b.code()]
            a.code() == b.code() ==> a == b,
        forall|a: ResolvedGemmOp, b: ResolvedGemmOp|
            #![trigger a.code(), b.code()]
            a.code() == b.code() ==> a == b,
        forall|a: PolicyDtype, b: PolicyDtype|
            #![trigger a.code(), b.code()]
            a.code() == b.code() ==> a == b,
{
}

/// The instructions that a kernel computes with.
#[derive(Clone, Copy, Debug, PartialEq, Eq, Structural)]
pub enum ResolvedInstructionFamily {
    ScalarFma,
    MmaSync,
    Wgmma,
    Tcgen05,
}

/// The shape of one instruction.
#[derive(Clone, Copy, Debug, PartialEq, Eq, Structural)]
pub struct ResolvedInstructionShape {
    pub m: u16,
    pub n: u16,
    pub k: u16,
}

/// How operands are converted before they are multiplied.
#[derive(Clone, Copy, Debug, PartialEq, Eq, Structural)]
pub enum ResolvedOperandConversion {
    Unconverted,
    RegisterCvtRnaTf32F32V1,
}

/// The architecture that a module was compiled for: a real `sm_NN` or a
/// virtual `compute_NN`, with or without the accelerated feature set.
#[derive(Clone, Copy, Debug, PartialEq, Eq, Structural)]
pub struct CudaTarget {
    pub virtual_arch: bool,
    pub arch: u32,
    pub accelerated: bool,
}

impl CudaTarget {
    /// The real architecture `sm_NN`.
    #[verifier::allow_in_spec]
    pub fn sm(arch: u32) -> CudaTarget
        returns
            (CudaTarget { virtual_arch: false, arch, accelerated: false }),
    {
        CudaTarget { virtual_arch: false, arch, accelerated: false }
    }

    /// The virtual architecture `compute_NN`.
    #[verifier::allow_in_spec]
    pub fn compute(arch: u32) -> CudaTarget
        returns
            (CudaTarget { virtual_arch: true, arch, accelerated: false }),
    {
        CudaTarget { virtual_arch: true, arch, accelerated: false }
    }
}

/// What a compiler produced.
#[derive(Clone, Copy, Debug, PartialEq, Eq, Structural)]
pub enum ArtifactKind {
    Ptx,
    Cubin,
}

/// A loaded module image.
#[derive(Clone, Copy, Debug, PartialEq, Eq)]
pub struct ArtifactIdentity {
    pub module_kind: ModuleKind,
    pub artifact_kind: ArtifactKind,
    pub compile_key: Sha256Digest,
    pub artifact_digest: Sha256Digest,
}

/// The images that a context has loaded.
#[derive(Clone, Copy, Debug, PartialEq, Eq)]
pub struct ArtifactSet {
    pub fixed: ArtifactIdentity,
    pub triad_scalar: ArtifactIdentity,
    pub triad_sm80: ArtifactIdentity,
    pub specialized: Option<ArtifactIdentity>,
}

/// How an image was compiled.
#[derive(Clone, Copy, Debug, PartialEq, Eq)]
pub struct CompilerIdentity {
    pub source_digest: Sha256Digest,
    pub invocation_digest: Sha256Digest,
    pub header_manifest_digest: Sha256Digest,
    pub target: CudaTarget,
    pub nvrtc_version: (i32, i32),
    pub nvrtc_library_domain: Sha256Digest,
    pub nvrtc_library_known: bool,
    pub output_kind: ArtifactKind,
    pub composer_revision: u32,
    pub compiler_revision: u32,
    pub numeric_abi_revision: u32,
    pub schedule_revision: u32,
}

/// The driver that a device runs under.
#[derive(Clone, Copy, Debug, PartialEq, Eq)]
pub struct DriverIdentity {
    pub api_version: i32,
    pub build_sources: u32,
    pub build_digest: Sha256Digest,
}

/// The device that a route was resolved on.
#[derive(Clone, Copy, Debug, PartialEq, Eq)]
pub struct DeviceIdentity {
    pub compute_capability: (u32, u32),
    pub multiprocessor_count: u32,
    pub target: CudaTarget,
    pub driver: DriverIdentity,
}

/// What a device can do.
#[derive(Clone, Copy, Debug, PartialEq, Eq)]
pub struct DeviceCaps {
    pub compute_capability: (u32, u32),
    pub nvrtc_version: (i32, i32),
    pub accepted_target: Option<CudaTarget>,
    pub optin_shared_bytes: u32,
    pub tensor_map_access: bool,
}

/// The context that allocations belong to.
#[derive(Clone, Copy, Debug, PartialEq, Eq, Structural)]
pub struct AllocationDomain {
    pub context_handle: u64,
    pub device_ordinal: u32,
}

/// Accepts the stream's context where the kernels were loaded into it.
/// `backend` names the kernels in the refusal.
#[verifier::allow_in_spec]
pub fn validated_allocation_domain(
    stream: AllocationDomain,
    kernels: AllocationDomain,
    backend: &'static str,
) -> Result<AllocationDomain, LaunchError>
    returns
        (if stream == kernels {
            Ok::<AllocationDomain, LaunchError>(stream)
        } else {
            Err::<AllocationDomain, LaunchError>(
                LaunchError::ForeignDomain(backend, stream, kernels),
            )
        }),
{
    if stream != kernels {
        return Err(LaunchError::ForeignDomain(backend, stream, kernels));
    }
    Ok(stream)
}

/// The revisions of the tables that scalar and half-precision routes are
/// recorded under.
#[derive(Clone, Copy, Debug, PartialEq, Eq, Structural)]
pub struct TableRevisions {
    pub tuning_table: u32,
    pub schedule: u32,
}

/// Whether f32 products may use TF32 tensor cores.
#[derive(Clone, Copy, Debug, PartialEq, Eq, Structural)]
pub enum F32TriadPolicy {
    ExactScalarFmaV1,
    AllowDeterministicTf32V1,
}

/// Whether half-precision products may use stream-K.
#[derive(Clone, Copy, Debug, PartialEq, Eq, Structural)]
pub enum HalfTriadPolicy {
    TiledParityV1,
    AllowStreamKFixedOrderV1,
}

/// The batch-invariant kernel family in use.
#[derive(Clone, Copy, Debug, PartialEq, Eq, Structural)]
pub enum BiGemmFamily {
    Fixed,
    Triad,
}

/// The switches that routing depends on.
#[derive(Clone, Copy, Debug, PartialEq, Eq, Structural)]
pub struct GemmPolicy {
    pub batch_invariant: bool,
    pub bi_tensor_cores: bool,
    pub fast_gemm: bool,
    pub cublas_tf32: bool,
    pub f32_triad_policy: F32TriadPolicy,
    pub half_triad_policy: HalfTriadPolicy,
    pub bi_gemm_family: BiGemmFamily,
}

/// Everything about a context that a route may depend on.
#[derive(Clone, Copy, Debug, PartialEq, Eq)]
pub struct GemmRouteIdentity {
    pub policy: GemmPolicy,
    pub backend_set: u32,
    pub numeric_contracts: u32,
    pub compiler: CompilerIdentity,
    pub artifacts: ArtifactSet,
    pub policy_revision: u32,
    pub policy_hash: Sha256Digest,
    pub device: DeviceIdentity,
    pub device_caps: DeviceCaps,
    pub tuning_table_revision: u32,
    pub schedule_set_revision: u32,
    pub state_capacity: u32,
}

/// One kernel launch with everything that it was resolved from.
#[derive(Clone, Copy, Debug, PartialEq, Eq)]
pub struct ResolvedGemmRoute {
    pub op: ResolvedGemmOp,
    pub dtype: PolicyDtype,
    pub backend: PhysicalGemmBackend,
    pub numeric_contract: ResolvedNumericContract,
    pub instruction_family: ResolvedInstructionFamily,
    pub instruction_shape: ResolvedInstructionShape,
    pub operand_conversion: ResolvedOperandConversion,
    pub ownership: ResolvedOutputOwnership,
    pub symbol: &'static str,
    pub module_kind: ModuleKind,
    pub target: CudaTarget,
    pub artifact: ArtifactIdentity,
    pub compiler: CompilerIdentity,
    pub device: DeviceIdentity,
    pub device_caps: DeviceCaps,
    pub shape: (usize, usize, usize),
    pub strides: (usize, usize, usize),
    pub tile: (u32, u32),
    pub bk: u32,
    pub stages: u8,
    pub threads: u32,
    pub launch: ResolvedKernelLaunch,
    pub tensor_map_revision: u32,
    pub tensor_maps_digest: Sha256Digest,
    pub resources_digest: Sha256Digest,
    pub tuning_table_revision: u32,
    pub schedule_revision: u32,
}

/// The identity of a device with a specialized module: the multiprocessor
/// count is the one that the loaded kernels were built for.
pub fn specialized_device_identity(
    compute_capability: (u32, u32),
    multiprocessor_count: u32,
    target: CudaTarget,
    driver: DriverIdentity,
) -> (identity: DeviceIdentity)
    ensures
        identity == (DeviceIdentity { compute_capability, multiprocessor_count, target, driver }),
{
    DeviceIdentity { compute_capability, multiprocessor_count, target, driver }
}

/// Whether two digests are the same bytes.
pub fn same_digest(left: &Sha256Digest, right: &Sha256Digest) -> (equal: bool)
    ensures
        equal == (*left == *right),
{
    let mut i: usize = 0;
    while i < 32
        invariant
            i <= 32,
            forall|j: int| 0 <= j < i ==> left@[j] == right@[j],
        decreases 32 - i,
    {
        if left[i] != right[i] {
            assert(left@[i as int] != right@[i as int]);
            return false;
        }
        i = i + 1;
    }
    assert(left@ =~= right@);
    assert(*left =~= *right);
    true
}

/// Whether a digest has no set bit.
pub fn is_zero_digest(digest: &Sha256Digest) -> (zero: bool)
    ensures
        zero == (forall|i: int| 0 <= i < 32 ==> digest@[i] == 0),
{
    let mut i: usize = 0;
    while i < 32
        invariant
            i <= 32,
            forall|j: int| 0 <= j < i ==> digest@[j] == 0,
        decreases 32 - i,
    {
        if digest[i] != 0 {
            assert(digest@[i as int] != 0);
            return false;
        }
        i = i + 1;
    }
    true
}

impl ArtifactIdentity {
    /// Whether two identities agree in every field.
    pub fn same(&self, other: &ArtifactIdentity) -> (equal: bool)
        ensures
            equal == (*self == *other),
    {
        self.module_kind == other.module_kind
            && self.artifact_kind == other.artifact_kind
            && same_digest(&self.compile_key, &other.compile_key)
            && same_digest(&self.artifact_digest, &other.artifact_digest)
    }
}

/// Whether the specialized images of two contexts agree.
pub fn same_specialized(left: &Option<ArtifactIdentity>, right: &Option<ArtifactIdentity>) -> (equal:
    bool)
    ensures
        equal == (*left == *right),
{
    match (left, right) {
        (Some(a), Some(b)) => a.same(b),
        (None, None) => true,
        _ => false,
    }
}

impl ArtifactSet {
    /// Whether two identities agree in every field.
    pub fn same(&self, other: &ArtifactSet) -> (equal: bool)
        ensures
            equal == (*self == *other),
    {
        self.fixed.same(&other.fixed)
            && self.triad_scalar.same(&other.triad_scalar)
            && self.triad_sm80.same(&other.triad_sm80)
            && same_specialized(&self.specialized, &other.specialized)
    }
}

impl CompilerIdentity {
    /// Whether two identities agree in every field.
    pub fn same(&self, other: &CompilerIdentity) -> (equal: bool)
        ensures
            equal == (*self == *other),
    {
        same_digest(&self.source_digest, &other.source_digest)
            && same_digest(&self.invocation_digest, &other.invocation_digest)
            && same_digest(&self.header_manifest_digest, &other.header_manifest_digest)
            && self.target == other.target
            && self.nvrtc_version.0 == other.nvrtc_version.0
            && self.nvrtc_version.1 == other.nvrtc_version.1
            && same_digest(&self.nvrtc_library_domain, &other.nvrtc_library_domain)
            && self.nvrtc_library_known == other.nvrtc_library_known
            && self.output_kind == other.output_kind
            && self.composer_revision == other.composer_revision
            && self.compiler_revision == other.compiler_revision
            && self.numeric_abi_revision == other.numeric_abi_revision
            && self.schedule_revision == other.schedule_revision
    }
}

impl DriverIdentity {
    /// Whether two identities agree in every field.
    pub fn same(&self, other: &DriverIdentity) -> (equal: bool)
        ensures
            equal == (*self == *other),
    {
        self.api_version == other.api_version
            && self.build_sources == other.build_sources
            && same_digest(&self.build_digest, &other.build_digest)
    }
}

impl DeviceIdentity {
    /// Whether two identities agree in every field.
    pub fn same(&self, other: &DeviceIdentity) -> (equal: bool)
        ensures
            equal == (*self == *other),
    {
        self.compute_capability.0 == other.compute_capability.0
            && self.compute_capability.1 == other.compute_capability.1
            && self.multiprocessor_count == other.multiprocessor_count
            && self.target == other.target
            && self.driver.same(&other.driver)
    }
}

impl DeviceCaps {
    /// Whether two identities agree in every field.
    pub fn same(&self, other: &DeviceCaps) -> (equal: bool)
        ensures
            equal == (*self == *other),
    {
        self.compute_capability.0 == other.compute_capability.0
            && self.compute_capability.1 == other.compute_capability.1
            && self.nvrtc_version.0 == other.nvrtc_version.0
            && self.nvrtc_version.1 == other.nvrtc_version.1
            && self.accepted_target == other.accepted_target
            && self.optin_shared_bytes == other.optin_shared_bytes
            && self.tensor_map_access == other.tensor_map_access
    }
}

impl GemmRouteIdentity {
    /// Whether two identities agree in every field.
    pub fn same(&self, other: &GemmRouteIdentity) -> (equal: bool)
        ensures
            equal == (*self == *other),
    {
        self.policy == other.policy
            && self.backend_set == other.backend_set
            && self.numeric_contracts == other.numeric_contracts
            && self.compiler.same(&other.compiler)
            && self.artifacts.same(&other.artifacts)
            && self.policy_revision == other.policy_revision
            && same_digest(&self.policy_hash, &other.policy_hash)
            && self.device.same(&other.device)
            && self.device_caps.same(&other.device_caps)
            && self.tuning_table_revision == other.tuning_table_revision
            && self.schedule_set_revision == other.schedule_set_revision
            && self.state_capacity == other.state_capacity
    }
}

} // verus!
