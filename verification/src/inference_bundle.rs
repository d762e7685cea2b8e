//! Admission of the retained inference kernels by what the compiler, the
//! driver and the device say of them.

use crate::digest;
use crate::digest::{Field, FramedSha256, Sha256Digest};
use crate::identity::{
    same_digest, ArtifactIdentity, ArtifactKind, CompilerIdentity, CudaTarget, ModuleKind,
};
use crate::inference_ptx::PtxFault;
use vstd::prelude::*;
use vstd::string::StringSliceAdditionalSpecFns;

verus! {

/// Dynamic shared memory that a half member is launched with.
pub const HALF_DYNAMIC_SHARED_BYTES: i32 = 98_304;

/// Why a member is not admitted.
#[derive(Clone, Copy, Debug, PartialEq, Eq)]
pub enum InferenceFault {
    /// Its PTX is not admitted.
    Ptx(PtxFault),
    /// The live arguments or the host bundle are laid out otherwise.
    DriverAbi,
    /// It was not compiled as it has to be.
    Envelope,
    /// It uses other resources than it may.
    Resources(InferenceSm89ResourceFacts),
    /// The census was asked of another module.
    Census,
    /// The driver refused a call.
    Driver(&'static str),
}

/// One parameter of a kernel as the driver sees it.
#[derive(Clone, Copy, Debug, PartialEq, Eq, Structural)]
pub struct DriverParameter {
    pub offset: usize,
    pub size: usize,
}

/// The parameters of a kernel as the driver sees them.
#[derive(Debug, PartialEq, Eq)]
pub struct Tf32DriverAbi {
    pub parameter_count: usize,
    pub parameters: Vec<DriverParameter>,
}

/// Where the parameters of a member lie: four pointers and a 32-byte bundle.
pub open spec fn member_layout() -> Seq<DriverParameter> {
    seq![
        DriverParameter { offset: 0, size: 8 },
        DriverParameter { offset: 8, size: 8 },
        DriverParameter { offset: 16, size: 8 },
        DriverParameter { offset: 24, size: 8 },
        DriverParameter { offset: 32, size: 32 },
    ]
}

/// The driver and the host agree on the arguments of a member.
pub open spec fn abi_admitted(abi: Tf32DriverAbi, host_size: usize, host_align: usize) -> bool {
    &&& host_size == 32
    &&& host_align == 4
    &&& abi.parameter_count == 5
    &&& forall|i: int|
        0 <= i < abi.parameters@.len() && i < 5 ==> abi.parameters@[i] == #[trigger] member_layout()[i]
}

/// Accepts a member on whose arguments the driver and the host agree.
pub fn validate_inference_sm89_driver_abi(
    abi: &Tf32DriverAbi,
    host_size: usize,
    host_align: usize,
) -> (result: Result<(), InferenceFault>)
    ensures
        result == (if abi_admitted(*abi, host_size, host_align) {
            Ok::<(), InferenceFault>(())
        } else {
            Err::<(), InferenceFault>(InferenceFault::DriverAbi)
        }),
{
    if host_size != 32 || host_align != 4 || abi.parameter_count != 5 {
        return Err(InferenceFault::DriverAbi);
    }
    let expected: Vec<DriverParameter> = vec![
        DriverParameter { offset: 0, size: 8 },
        DriverParameter { offset: 8, size: 8 },
        DriverParameter { offset: 16, size: 8 },
        DriverParameter { offset: 24, size: 8 },
        DriverParameter { offset: 32, size: 32 },
    ];
    assert(expected@ =~= member_layout());
    let mut i: usize = 0;
    while i < abi.parameters.len() && i < 5
        invariant
            i <= abi.parameters@.len(),
            i <= 5,
            expected@ == member_layout(),
            forall|j: int| 0 <= j < i ==> abi.parameters@[j] == #[trigger] member_layout()[j],
        decreases 5 - i,
    {
        if abi.parameters[i] != expected[i] {
            assert(abi.parameters@[i as int] != member_layout()[i as int]);
            return Err(InferenceFault::DriverAbi);
        }
        i = i + 1;
    }
    Ok(())
}

/// What a member was compiled from and for, and where it is to run.
#[derive(Clone, Copy, Debug, PartialEq, Eq)]
pub struct InferenceSm89EnvelopeFacts {
    pub module_kind: ModuleKind,
    pub artifact_kind: ArtifactKind,
    pub compiler_output_kind: ArtifactKind,
    pub compile_key_matches: bool,
    pub target: CudaTarget,
    pub state_cap: usize,
    pub nvrtc: (i32, i32),
    pub nvrtc_library_known: bool,
    pub nvrtc_library_current: bool,
    pub device_cc: Option<(i32, i32)>,
}

/// The facts of a loaded module.
pub open spec fn module_facts(
    artifact: ArtifactIdentity,
    compiler: CompilerIdentity,
    state_cap: usize,
    nvrtc_library_current: bool,
    device_cc: Option<(i32, i32)>,
) -> InferenceSm89EnvelopeFacts {
    InferenceSm89EnvelopeFacts {
        module_kind: artifact.module_kind,
        artifact_kind: artifact.artifact_kind,
        compiler_output_kind: compiler.output_kind,
        compile_key_matches: artifact.compile_key == compiler.invocation_digest,
        target: compiler.target,
        state_cap,
        nvrtc: compiler.nvrtc_version,
        nvrtc_library_known: compiler.nvrtc_library_known,
        nvrtc_library_current,
        device_cc,
    }
}

/// Gathers the facts of a loaded module.
pub fn inference_envelope_facts(
    artifact: &ArtifactIdentity,
    compiler: &CompilerIdentity,
    state_cap: usize,
    nvrtc_library_current: bool,
    device_cc: Option<(i32, i32)>,
) -> (facts: InferenceSm89EnvelopeFacts)
    ensures
        facts == module_facts(
            *artifact,
            *compiler,
            state_cap,
            nvrtc_library_current,
            device_cc,
        ),
{
    InferenceSm89EnvelopeFacts {
        module_kind: artifact.module_kind,
        artifact_kind: artifact.artifact_kind,
        compiler_output_kind: compiler.output_kind,
        compile_key_matches: same_digest(&artifact.compile_key, &compiler.invocation_digest),
        target: compiler.target,
        state_cap,
        nvrtc: compiler.nvrtc_version,
        nvrtc_library_known: compiler.nvrtc_library_known,
        nvrtc_library_current,
        device_cc,
    }
}

/// The artifact is the PTX of the fixed module that its compiler made, from
/// a library that is known and still there.
pub open spec fn artifact_admitted(facts: InferenceSm89EnvelopeFacts) -> bool {
    &&& facts.module_kind is Fixed
    &&& facts.artifact_kind is Ptx
    &&& facts.compiler_output_kind is Ptx
    &&& facts.compile_key_matches
    &&& facts.nvrtc_library_known
    &&& facts.nvrtc_library_current
}

/// What deciding on the envelope of a member gives: the compiler is asked
/// about only where the artifact is admitted.
pub open spec fn envelope_decided<
    Supported: FnOnce(Option<(i32, i32)>, CudaTarget, usize, (i32, i32)) -> bool,
>(
    facts: InferenceSm89EnvelopeFacts,
    compiler_supported: Supported,
    result: Result<(), InferenceFault>,
) -> bool {
    if !artifact_admitted(facts) {
        result == Err::<(), InferenceFault>(InferenceFault::Envelope)
    } else {
        exists|supported: bool|
            #![trigger call_ensures(
                compiler_supported,
                (facts.device_cc, facts.target, facts.state_cap, facts.nvrtc),
                supported,
            )]
            call_ensures(
                compiler_supported,
                (facts.device_cc, facts.target, facts.state_cap, facts.nvrtc),
                supported,
            ) && result == (if supported {
                Ok::<(), InferenceFault>(())
            } else {
                Err::<(), InferenceFault>(InferenceFault::Envelope)
            })
    }
}

/// Accepts a member that was compiled as it has to be. `compiler_supported`
/// says whether a compiler, a target and a device go together.
pub fn validate_inference_sm89_envelope<
    Supported: FnOnce(Option<(i32, i32)>, CudaTarget, usize, (i32, i32)) -> bool,
>(facts: InferenceSm89EnvelopeFacts, compiler_supported: Supported) -> (result: Result<
    (),
    InferenceFault,
>)
    requires
        artifact_admitted(facts) ==> call_requires(
            compiler_supported,
            (facts.device_cc, facts.target, facts.state_cap, facts.nvrtc),
        ),
    ensures
        envelope_decided(facts, compiler_supported, result),
{
    if facts.module_kind != ModuleKind::Fixed || facts.artifact_kind != ArtifactKind::Ptx
        || facts.compiler_output_kind != ArtifactKind::Ptx || !facts.compile_key_matches
        || !facts.nvrtc_library_known || !facts.nvrtc_library_current {
        return Err(InferenceFault::Envelope);
    }
    if compiler_supported(facts.device_cc, facts.target, facts.state_cap, facts.nvrtc) {
        Ok(())
    } else {
        Err(InferenceFault::Envelope)
    }
}

/// What a loaded member uses.
#[derive(Clone, Copy, Debug, PartialEq, Eq, Structural)]
pub struct InferenceSm89ResourceFacts {
    pub local_bytes: i32,
    pub registers: i32,
    pub static_shared_bytes: i32,
    pub max_threads: i32,
    pub optin_shared_bytes: i32,
    pub active_blocks: u32,
}

/// The resources of an admitted half member.
pub open spec fn half_resources_admitted(resources: InferenceSm89ResourceFacts) -> bool {
    &&& resources.local_bytes == 0
    &&& 1 <= resources.registers <= 188
    &&& resources.static_shared_bytes == 0
    &&& resources.max_threads >= 256
    &&& resources.optin_shared_bytes >= HALF_DYNAMIC_SHARED_BYTES
    &&& resources.active_blocks >= 1
}

/// Accepts a half member that uses what it may.
pub fn validate_inference_sm89_half_resources(resources: InferenceSm89ResourceFacts) -> (result:
    Result<(), InferenceFault>)
    ensures
        result == (if half_resources_admitted(resources) {
            Ok::<(), InferenceFault>(())
        } else {
            Err::<(), InferenceFault>(InferenceFault::Resources(resources))
        }),
{
    if resources.local_bytes != 0 || resources.registers < 1 || resources.registers > 188
        || resources.static_shared_bytes != 0 || resources.max_threads < 256
        || resources.optin_shared_bytes < HALF_DYNAMIC_SHARED_BYTES || resources.active_blocks < 1 {
        return Err(InferenceFault::Resources(resources));
    }
    Ok(())
}

/// The resources of the admitted exact member.
pub open spec fn exact_resources_admitted(resources: InferenceSm89ResourceFacts) -> bool {
    &&& resources.local_bytes == 0
    &&& 1 <= resources.registers <= 128
    &&& resources.static_shared_bytes == 49_152
    &&& resources.max_threads >= 256
    &&& resources.active_blocks >= 2
}

/// Accepts the exact member where it uses what it may.
pub fn validate_inference_sm89_exact_resources(resources: InferenceSm89ResourceFacts) -> (result:
    Result<(), InferenceFault>)
    ensures
        result == (if exact_resources_admitted(resources) {
            Ok::<(), InferenceFault>(())
        } else {
            Err::<(), InferenceFault>(InferenceFault::Resources(resources))
        }),
{
    if resources.local_bytes != 0 || resources.registers < 1 || resources.registers > 128
        || resources.static_shared_bytes != 49_152 || resources.max_threads < 256
        || resources.active_blocks < 2 {
        return Err(InferenceFault::Resources(resources));
    }
    Ok(())
}

/// Accepts the census of a fixed module that the portable overlay was
/// composed into.
pub fn validate_census_module(kind: ModuleKind, overlay_composed: bool) -> (result: Result<
    (),
    InferenceFault,
>)
    ensures
        result == (if kind is Fixed && overlay_composed {
            Ok::<(), InferenceFault>(())
        } else {
            Err::<(), InferenceFault>(InferenceFault::Census)
        }),
{
    if kind != ModuleKind::Fixed || !overlay_composed {
        return Err(InferenceFault::Census);
    }
    Ok(())
}

/// What the census of one member gives: its PTX is decided on first, then
/// the driver is asked, then the layout is held against the host's.
pub open spec fn census_decided<Query: FnOnce() -> Result<Tf32DriverAbi, InferenceFault>>(
    admission: Result<(), PtxFault>,
    query: Query,
    host_size: usize,
    result: Result<Tf32DriverAbi, InferenceFault>,
) -> bool {
    match admission {
        Err(fault) => result == Err::<Tf32DriverAbi, InferenceFault>(InferenceFault::Ptx(fault)),
        Ok(_) => exists|answer: Result<Tf32DriverAbi, InferenceFault>|
            #![trigger call_ensures(query, (), answer)]
            call_ensures(query, (), answer) && result == (match answer {
                Err(fault) => Err::<Tf32DriverAbi, InferenceFault>(fault),
                Ok(abi) => if abi_admitted(abi, host_size, 4) {
                    Ok::<Tf32DriverAbi, InferenceFault>(abi)
                } else {
                    Err::<Tf32DriverAbi, InferenceFault>(InferenceFault::DriverAbi)
                },
            }),
    }
}

/// Takes the census of one member. The driver is not asked about a member
/// whose PTX is refused.
pub fn census_member<Query: FnOnce() -> Result<Tf32DriverAbi, InferenceFault>>(
    admission: Result<(), PtxFault>,
    query: Query,
    host_size: usize,
) -> (result: Result<Tf32DriverAbi, InferenceFault>)
    requires
        admission is Ok ==> call_requires(query, ()),
    ensures
        census_decided(admission, query, host_size, result),
{
    match admission {
        Err(fault) => Err(InferenceFault::Ptx(fault)),
        Ok(_) => match query() {
            Err(fault) => Err(fault),
            Ok(abi) => match validate_inference_sm89_driver_abi(&abi, host_size, 4) {
                Err(fault) => Err(fault),
                Ok(_) => Ok(abi),
            },
        },
    }
}

/// A value for each member.
#[derive(Debug, PartialEq, Eq)]
pub struct InferenceSm89Members<T> {
    pub half_f32out_s3_bf16: Result<T, InferenceFault>,
    pub half_f32out_s3_f16: Result<T, InferenceFault>,
    pub exact_m128n64_tail: Result<T, InferenceFault>,
}

impl<T> InferenceSm89Members<T> {
    /// No member has a value.
    pub fn rejected(fault: InferenceFault) -> (members: InferenceSm89Members<T>)
        ensures
            members == (InferenceSm89Members::<T> {
                half_f32out_s3_bf16: Err(fault),
                half_f32out_s3_f16: Err(fault),
                exact_m128n64_tail: Err(fault),
            }),
    {
        InferenceSm89Members {
            half_f32out_s3_bf16: Err(fault),
            half_f32out_s3_f16: Err(fault),
            exact_m128n64_tail: Err(fault),
        }
    }
}

/// The bytes under the identity of a set of compiler libraries.
pub open spec fn library_transcript(domain: Seq<u8>) -> Seq<u8> {
    digest::transcript(
        "nvrtc-library-set-identity.v2".spec_bytes(),
        seq![Field { label: "domain".spec_bytes(), value: Some(domain) }],
    )
}

/// What holding the compiler's libraries against the ones at hand gives.
/// Only libraries of the same identity are asked whether they are current.
pub open spec fn library_decided<Current: FnOnce(&[u8]) -> bool>(
    expected_digest: Sha256Digest,
    raw_domain: Option<&[u8]>,
    is_current: Current,
    matched: bool,
) -> bool {
    match raw_domain {
        None => !matched,
        Some(domain) => if digest::sha256(library_transcript(domain@)) != expected_digest {
            !matched
        } else {
            call_ensures(is_current, (domain,), matched)
        },
    }
}

/// Whether a module was compiled by the libraries at hand. `is_current` is
/// asked only of libraries that have the expected identity.
pub fn nvrtc_library_identity_matches<Current: FnOnce(&[u8]) -> bool>(
    expected_digest: Sha256Digest,
    raw_domain: Option<&[u8]>,
    is_current: Current,
) -> (matched: bool)
    requires
        raw_domain matches Some(domain) ==> (digest::sha256(library_transcript(domain@))
            == expected_digest ==> call_requires(is_current, (domain,))),
    ensures
        library_decided(expected_digest, raw_domain, is_current, matched),
{
    match raw_domain {
        None => false,
        Some(domain) => {
            let builder = FramedSha256::new("nvrtc-library-set-identity.v2");
            let builder = builder.optional("domain", Some(domain));
            proof {
                assert(builder.fields() =~= seq![
                    Field { label: "domain".spec_bytes(), value: Some(domain@) },
                ]);
            }
            let identity = builder.finish();
            same_digest(&identity, &expected_digest) && is_current(domain)
        },
    }
}

/// Whether a module was compiled by the libraries at hand, where it is
/// already known whether they are current.
pub fn nvrtc_library_identity_answered(
    expected_digest: Sha256Digest,
    raw_domain: Option<&[u8]>,
    current: bool,
) -> (matched: bool)
    ensures
        matched == (raw_domain matches Some(domain) && digest::sha256(library_transcript(domain@))
            == expected_digest && current),
{
    let answer = |domain: &[u8]| -> (answer: bool)
        ensures
            answer == current,
        { current };
    nvrtc_library_identity_matches(expected_digest, raw_domain, answer)
}

/// Different sets of libraries have different transcripts.
pub proof fn library_transcripts_identify(left: Seq<u8>, right: Seq<u8>)
    requires
        library_transcript(left) == library_transcript(right),
        left.len() <= u64::MAX,
        right.len() <= u64::MAX,
    ensures
        left == right,
{
    let l = seq![Field { label: "domain".spec_bytes(), value: Some(left) }];
    let r = seq![Field { label: "domain".spec_bytes(), value: Some(right) }];
    digest::transcript_values_injective("nvrtc-library-set-identity.v2".spec_bytes(), l, r);
    assert(l[0] == r[0]);
}

} // verus!
