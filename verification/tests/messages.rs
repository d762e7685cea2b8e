use gemm_bi_triad::error::{LaunchError, UncoveredProduct};
use gemm_bi_triad::identity::{AllocationDomain, ModuleKind};
use gemm_bi_triad::inference_bundle::{InferenceFault, InferenceSm89ResourceFacts};
use gemm_bi_triad::inference_ptx::PtxFault;
use gemm_bi_triad::inference_text::InferenceMember;
use gemm_bi_triad::shape::ResolvedGemmOp;
use gemm_bi_triad::text::{append_decimal, append_digits, append_signed};
use gemm_bi_triad::tf32_plan::{Sm120FmaRoute, Sm120FmaTile, Tf32PhysicalRoute, Tf32Tiling};

#[test]
fn numbers_are_written_digit_by_digit() {
    for value in [0, 7, 10, 4_718_592, usize::MAX] {
        let mut text = String::from("=");
        append_decimal(&mut text, value);
        assert_eq!(text, format!("={value}"));
    }
    for value in [0, 9, -1, i32::MIN, i32::MAX] {
        let mut text = String::new();
        append_signed(&mut text, value);
        assert_eq!(text, format!("{value}"));
    }
    for value in [0, 0xf, 0x10, 0xdead_beef, u64::MAX] {
        let mut text = String::new();
        append_digits(&mut text, value, 16);
        assert_eq!(text, format!("{value:x}"));
    }
}

#[test]
fn uncovered_shapes_are_named() {
    let message = |product| LaunchError::Uncovered(product, (256, 512, 384)).message();
    assert_eq!(
        message(UncoveredProduct::ForwardTc),
        "UNCOVERED gemm_bi_forward_tc: shape M=256 K=512 N=384 below the TC tile gate"
    );
    assert_eq!(
        message(UncoveredProduct::BackwardDwTc),
        "UNCOVERED gemm_bi_backward_dw_tc: shape M=256 K=512 N=384 outside the automatic TC route"
    );
    assert_eq!(
        message(UncoveredProduct::BackwardDxTc),
        "UNCOVERED gemm_bi_backward_dx_tc: shape M=256 K=512 N=384 outside the automatic TC route"
    );
    assert_eq!(
        message(UncoveredProduct::ForwardTyped),
        "UNCOVERED gemm_bi_forward_typed_native: Big/Slim buckets not yet implemented — \
         shape M=256 K=512 N=384. Disable the batch-invariant flag for this configuration."
    );
    assert_eq!(
        message(UncoveredProduct::BackwardDwTyped),
        "UNCOVERED gemm_bi_backward_dw_typed_native: split-M/Slim buckets are \
         upcast-fallback territory — shape M=256 K=512 N=384."
    );
    assert_eq!(
        message(UncoveredProduct::BackwardDxTyped),
        "UNCOVERED gemm_bi_backward_dx_typed_native: split-N/Slim buckets are \
         upcast-fallback territory — shape M=256 K=512 N=384."
    );
}

#[test]
fn refusals_hold_their_figures() {
    let stream = AllocationDomain {
        context_handle: 17,
        device_ordinal: 0,
    };
    let kernels = AllocationDomain {
        device_ordinal: 2,
        ..stream
    };
    let exact = Tf32PhysicalRoute::Sm120TmaFmaExactV1(Sm120FmaRoute {
        tile: Sm120FmaTile::M64N128,
        kvec: true,
        splits: 4,
    });
    let tiled = Tf32PhysicalRoute::MmaTf32RnaV1(Tf32Tiling {
        rows: 64,
        columns: 32,
        bk: 16,
        stages: 3,
    });
    for (error, message) in [
        (LaunchError::ExceedsU32("grid"), "grid"),
        (LaunchError::Rejected("no plan"), "no plan"),
        (
            LaunchError::RequiresHalf("dX"),
            "gemm_bi typed dispatch: dX is f32 — use the f32 entry points",
        ),
        (
            LaunchError::Unavailable("SM120 kernel", "gemm_bi_nn_tma"),
            "SM120 kernel gemm_bi_nn_tma is unavailable",
        ),
        (
            LaunchError::OperationMismatch(
                "stream-K TF32",
                ResolvedGemmOp::Tn,
                ResolvedGemmOp::Nt,
            ),
            "stream-K TF32 specification Tn does not match Nt",
        ),
        (
            LaunchError::NegativeAnswer("CUDA CC major", -3),
            "negative CUDA CC major -3",
        ),
        (
            LaunchError::ForeignDomain("TF32", stream, kernels),
            "TF32 stream allocation domain AllocationDomain { context_handle: 17, \
             device_ordinal: 0 } does not match kernel module allocation domain \
             AllocationDomain { context_handle: 17, device_ordinal: 2 }",
        ),
        (
            LaunchError::UnqualifiedRoute(exact),
            "TF32 route Sm120TmaFmaExactV1(Sm120FmaRoute { tile: M64N128, kvec: true, \
             splits: 4 }) has no qualified module",
        ),
        (
            LaunchError::ForcedRouteRejected(tiled, "spills"),
            "forced TF32 route MmaTf32RnaV1(M64N32K16S3) failed module qualification: spills",
        ),
        (
            LaunchError::ZeroArgumentDigest("gemm_bi_nn"),
            "prepared scalar kernel gemm_bi_nn has a zero argument digest",
        ),
        (
            LaunchError::LaunchChanged("gemm_bi_nn", "gemm_bi_nt"),
            "prepared scalar kernel gemm_bi_nn physical launch changed before gemm_bi_nt",
        ),
        (
            LaunchError::UnexpectedKernel("gemm_bi_nn"),
            "unexpected scalar kernel gemm_bi_nn after prepared route end",
        ),
        (
            LaunchError::MissingKernels(34, 3),
            "prepared scalar route expected 34 kernels but enqueued 3",
        ),
        (
            LaunchError::ArgumentTooWide(129),
            "physical scalar graph argument uses 129 bytes; maximum is 128",
        ),
        (
            LaunchError::TransposeScratchExceeded(4_720_128),
            "scalar transpose scratch requires 4720128 f32 elements, capacity is 4718592",
        ),
        (
            LaunchError::TransposeScratchCapacity("scalar transpose scratch allocation", 5, 4),
            "scalar transpose scratch allocation has 5 f32 elements, requires 4 with exact \
             capacity 4718592",
        ),
        (
            LaunchError::UnknownHalfKernel("gemm_bi_nn_other"),
            "unknown half kernel base gemm_bi_nn_other",
        ),
        (
            LaunchError::UnsupportedOwner(ModuleKind::TriadSm90a),
            "half physical GEMM has unsupported module owner TriadSm90a",
        ),
        (
            LaunchError::OutsideAllocations(0xbeef, 64),
            "physical launch argument range is not covered by its prevalidated allocation: \
             pointer=0xbeef, bytes=64",
        ),
    ] {
        assert_eq!(error.message(), message);
    }
}

#[test]
fn refused_members_are_named() {
    let resources = InferenceSm89ResourceFacts {
        local_bytes: 8,
        registers: 255,
        static_shared_bytes: 0,
        max_threads: 256,
        optin_shared_bytes: 98_304,
        active_blocks: 1,
    };
    assert_eq!(
        InferenceFault::Resources(resources).message(InferenceMember::HalfF16),
        "nn_sm89_tc128_f32out_s3_f16 resource admission declined: local=8 registers=255 \
         static_shared=0 max_threads=256 optin_shared=98304 active_blocks=1"
    );
    assert_eq!(
        InferenceFault::Resources(resources).message(InferenceMember::Exact),
        "nn_sm89_f32_m128n64_tail_copyplan resource admission declined: local=8 \
         registers=255 static_shared=0 max_threads=256 active_blocks=1"
    );
    let words = |fault, member| InferenceFault::Ptx(fault).message(member);
    assert_eq!(
        words(PtxFault::WrongLaunchBound(".maxntid"), InferenceMember::HalfBf16),
        "nn_sm89_tc128_f32out_s3_bf16 has the wrong .maxntid launch bound"
    );
    assert_eq!(
        words(PtxFault::MissingOpcode("fma.rn.f32"), InferenceMember::Exact),
        "nn_sm89_f32_m128n64_tail_copyplan is missing fma.rn.f32"
    );
    assert_eq!(
        words(PtxFault::ForbiddenWork, InferenceMember::Exact),
        "nn_sm89_f32_m128n64_tail_copyplan contains local, tensor, FTZ, atomic, reduction, \
         or call work"
    );
    assert_eq!(
        InferenceFault::DriverAbi.message(InferenceMember::HalfBf16),
        "nn_sm89_tc128_f32out_s3_bf16 has the wrong live five-argument/64-byte Driver ABI \
         or host bundle layout"
    );
}
