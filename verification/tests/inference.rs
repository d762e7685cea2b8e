use gemm_bi_triad::digest::FramedSha256;
use gemm_bi_triad::identity::{ArtifactKind, CudaTarget, ModuleKind};
use gemm_bi_triad::inference_bundle::{
    census_member, nvrtc_library_identity_answered, nvrtc_library_identity_matches,
    validate_census_module,
    validate_inference_sm89_driver_abi, validate_inference_sm89_envelope,
    validate_inference_sm89_exact_resources, validate_inference_sm89_half_resources,
    DriverParameter, InferenceFault, InferenceSm89EnvelopeFacts, InferenceSm89Members,
    InferenceSm89ResourceFacts, Tf32DriverAbi,
};
use gemm_bi_triad::inference_load::{
    census_inference_sm89_driver_abi, load_exact_member, load_half_member,
    load_inference_sm89_bundle,
};
use gemm_bi_triad::inference_text::InferenceMember;
use gemm_bi_triad::inference_ptx::{
    validate_exact_entry, validate_half_entry, validate_inference_sm89_ptx,
    InferenceSm89PtxAdmission, PtxFault, BF16_MMA, EXACT_SYMBOL, F16_MMA, HALF_BF16_SYMBOL,
    HALF_F16_SYMBOL,
};
use gemm_bi_triad::ptx::parse_ptx;

fn driver_abi(layout: &[(usize, usize)]) -> Tf32DriverAbi {
    Tf32DriverAbi {
        parameter_count: layout.len(),
        parameters: layout
            .iter()
            .map(|&(offset, size)| DriverParameter { offset, size })
            .collect(),
    }
}

/// The compilers that the source bundle supports: NVRTC 12.8 for `sm_89` at
/// state capacity 16, on the boards of the sm_80 tier.
fn compiler_supported(
    device_cc: Option<(i32, i32)>,
    target: CudaTarget,
    state_cap: usize,
    nvrtc: (i32, i32),
) -> bool {
    matches!(device_cc, Some((8, _)))
        && target == CudaTarget::sm(89)
        && state_cap == 16
        && nvrtc == (12, 8)
}

fn half_entry(symbol: &str, mma: &str) -> String {
    format!(
        ".visible .entry {symbol}(\n\
         .param .u64 p0, .param .u64 p1, .param .u64 p2, .param .u64 p3,\n\
         .param .align 4 .b8 params[32]\n\
         ) .maxntid 256, 1, 1 .minnctapersm 1 {{\n\
         cp.async.cg.shared.global [%r0], [%rd0], 16;\n\
         cp.async.commit_group;\n\
         cp.async.wait_group 1;\n\
         cp.async.wait_group 0;\n\
         bar.sync 0;\n\
         ldmatrix.sync.aligned.m8n8.x4.shared.b16 {{%r0,%r1,%r2,%r3}}, [%r4];\n\
         ldmatrix.sync.aligned.m8n8.x2.trans.shared.b16 {{%r4,%r5}}, [%r6];\n\
         {mma} {{%f0,%f1,%f2,%f3}}, {{%r0,%r1,%r2,%r3}}, {{%r4,%r5}}, {{%f0,%f1,%f2,%f3}};\n\
         ret;\n\
         }}\n"
    )
}

fn exact_entry() -> String {
    format!(
        ".visible .entry {EXACT_SYMBOL}(\n\
         .param .u64 p0, .param .u64 p1, .param .u64 p2, .param .u64 p3,\n\
         .param .align 4 .b8 params[32]\n\
         ) .maxntid 256, 1, 1 .minnctapersm 2 {{\n\
         cp.async.cg.shared.global [%r0], [%rd0], 16;\n\
         cp.async.commit_group;\n\
         cp.async.wait_group 0;\n\
         bar.sync 0;\n\
         fma.rn.f32 %f0, %f1, %f2, %f0;\n\
         ret;\n\
         }}\n"
    )
}

fn valid_ptx() -> String {
    format!(
        ".version 8.4\n.target sm_89\n.address_size 64\n\
         .visible .entry nn_sm89_tc128_pipeline_bf16() .maxntid 32 {{ ret; }}\n{}{}{}",
        half_entry(
            HALF_BF16_SYMBOL,
            "mma.sync.aligned.m16n8k16.row.col.f32.bf16.bf16.f32"
        ),
        half_entry(
            HALF_F16_SYMBOL,
            "mma.sync.aligned.m16n8k16.row.col.f32.f16.f16.f32"
        ),
        exact_entry(),
    )
}

fn assert_all_rejected(admission: InferenceSm89PtxAdmission) {
    assert!(admission.half_f32out_s3_bf16.is_err());
    assert!(admission.half_f32out_s3_f16.is_err());
    assert!(admission.exact_m128n64_tail.is_err());
}

#[test]
fn inference_bundle_admission_accepts_literal_members_and_ignores_old_fixed_exports() {
    let admission = validate_inference_sm89_ptx(&valid_ptx());
    assert!(admission.half_f32out_s3_bf16.is_ok());
    assert!(admission.half_f32out_s3_f16.is_ok());
    assert!(admission.exact_m128n64_tail.is_ok());
}

#[test]
fn inference_bundle_admission_missing_or_bad_member_preserves_valid_siblings() {
    let missing = valid_ptx().replace(
        &half_entry(
            HALF_F16_SYMBOL,
            "mma.sync.aligned.m16n8k16.row.col.f32.f16.f16.f32",
        ),
        "",
    );
    let admission = validate_inference_sm89_ptx(&missing);
    assert!(admission.half_f32out_s3_bf16.is_ok());
    assert!(admission.half_f32out_s3_f16.is_err());
    assert!(admission.exact_m128n64_tail.is_ok());

    let contaminated = valid_ptx().replacen(
        "fma.rn.f32 %f0, %f1, %f2, %f0;",
        "fma.rn.f32 %f0, %f1, %f2, %f0;\nld.local.u32 %r0, [%rd0];",
        1,
    );
    let admission = validate_inference_sm89_ptx(&contaminated);
    assert!(admission.half_f32out_s3_bf16.is_ok());
    assert!(admission.half_f32out_s3_f16.is_ok());
    assert!(admission.exact_m128n64_tail.is_err());
}

#[test]
fn inference_bundle_admission_rejects_duplicate_and_malformed_inventory_globally() {
    let duplicate = format!(
        "{}{}",
        valid_ptx(),
        half_entry(
            HALF_BF16_SYMBOL,
            "mma.sync.aligned.m16n8k16.row.col.f32.bf16.bf16.f32"
        )
    );
    assert_all_rejected(validate_inference_sm89_ptx(&duplicate));

    // A member exported under another name is a member that is missing:
    // the bundle addresses each one by its exact name, so the renamed
    // kernel is never launched and its siblings stay admissible.
    let renamed = valid_ptx().replace(HALF_BF16_SYMBOL, "nn_sm89_unreviewed_decoy_bf16");
    let admission = validate_inference_sm89_ptx(&renamed);
    assert!(admission.half_f32out_s3_bf16.is_err());
    assert!(admission.half_f32out_s3_f16.is_ok());
    assert!(admission.exact_m128n64_tail.is_ok());

    let malformed = format!("{}\n.visible .entry {HALF_BF16_SYMBOL}", valid_ptx());
    assert_all_rejected(validate_inference_sm89_ptx(&malformed));
}

#[test]
fn inference_bundle_admission_does_not_accept_commented_or_quoted_fake_opcodes() {
    let fake = valid_ptx().replacen(
        "fma.rn.f32 %f0, %f1, %f2, %f0;",
        "mov.u32 %r0, %r1;\n// fma.rn.f32\n.file 1 \"fma.rn.f32\"",
        1,
    );
    let admission = validate_inference_sm89_ptx(&fake);
    assert!(admission.exact_m128n64_tail.is_err());

    let fake = valid_ptx()
        .replacen(
            "mma.sync.aligned.m16n8k16.row.col.f32.bf16.bf16.f32",
            "mov.u32",
            1,
        )
        .replacen(
            "mov.u32 {%f0,%f1,%f2,%f3}",
            "// mma.sync.aligned.m16n8k16.row.col.f32.bf16.bf16.f32\nmov.u32 {%f0,%f1,%f2,%f3}",
            1,
        );
    assert!(
        validate_inference_sm89_ptx(&fake)
            .half_f32out_s3_bf16
            .is_err()
    );
}

#[test]
fn inference_bundle_admission_requires_real_global_to_shared_async_copies() {
    let half = valid_ptx().replacen(
        "cp.async.cg.shared.global [%r0], [%rd0], 16;",
        "cp.async.mbarrier.arrive.noinc.shared.b64 [%r0];",
        1,
    );
    let admission = validate_inference_sm89_ptx(&half);
    assert!(admission.half_f32out_s3_bf16.is_err());
    assert!(admission.half_f32out_s3_f16.is_ok());
    assert!(admission.exact_m128n64_tail.is_ok());

    let valid_exact = exact_entry();
    let invalid_exact = valid_exact.replacen(
        "cp.async.cg.shared.global [%r0], [%rd0], 16;",
        "cp.async.mbarrier.arrive.noinc.shared.b64 [%r0];",
        1,
    );
    let exact = valid_ptx().replace(&valid_exact, &invalid_exact);
    let admission = validate_inference_sm89_ptx(&exact);
    assert!(admission.half_f32out_s3_bf16.is_ok());
    assert!(admission.half_f32out_s3_f16.is_ok());
    assert!(admission.exact_m128n64_tail.is_err());
}

#[test]
fn inference_bundle_admission_rejects_barrier_reductions_as_sync_evidence_or_work() {
    let half = valid_ptx().replacen("bar.sync 0;", "bar.red.popc.u32 %r0, 0, %p0;", 1);
    let admission = validate_inference_sm89_ptx(&half);
    assert!(admission.half_f32out_s3_bf16.is_err());
    assert!(admission.half_f32out_s3_f16.is_ok());
    assert!(admission.exact_m128n64_tail.is_ok());

    let valid_exact = exact_entry();
    let invalid_exact = valid_exact.replacen("bar.sync 0;", "bar.red.popc.u32 %r0, 0, %p0;", 1);
    let exact = valid_ptx().replace(&valid_exact, &invalid_exact);
    let admission = validate_inference_sm89_ptx(&exact);
    assert!(admission.half_f32out_s3_bf16.is_ok());
    assert!(admission.half_f32out_s3_f16.is_ok());
    assert!(admission.exact_m128n64_tail.is_err());
}

#[test]
fn inference_bundle_admission_rejects_wrong_parameters_alignment_and_launch_bounds() {
    let cases = [
        valid_ptx().replacen(".param .u64 p3,", "", 1),
        valid_ptx().replacen(
            ".param .align 4 .b8 params[32]",
            ".param .align 8 .b8 params[32]",
            1,
        ),
        valid_ptx().replacen(".maxntid 256, 1, 1", ".maxntid 128, 1, 1", 1),
        valid_ptx().replacen(".minnctapersm 1", ".minnctapersm 2", 1),
        valid_ptx().replacen("params[32]", "params[28]", 1),
    ];
    for ptx in cases {
        assert!(
            validate_inference_sm89_ptx(&ptx)
                .half_f32out_s3_bf16
                .is_err()
        );
    }
    let exact = valid_ptx().replacen(".minnctapersm 2", ".minnctapersm 1", 1);
    assert!(
        validate_inference_sm89_ptx(&exact)
            .exact_m128n64_tail
            .is_err()
    );
}

#[test]
fn inference_bundle_admission_rejects_local_tensor_ftz_atomic_and_call_contamination() {
    let exact_forbidden = [
        "ld.local.u32 %r0, [%rd0];",
        "mma.sync.aligned.m16n8k8.row.col.f32.tf32.tf32.f32 {%f0}, {%r0}, {%r1}, {%f0};",
        "fma.rn.ftz.f32 %f0, %f1, %f2, %f0;",
        "atom.global.add.u32 %r0, [%rd0], 1;",
        "red.global.add.u32 [%rd0], 1;",
        "call.uni helper, ();",
    ];
    for forbidden in exact_forbidden {
        let ptx = valid_ptx().replacen(
            "fma.rn.f32 %f0, %f1, %f2, %f0;",
            &format!("fma.rn.f32 %f0, %f1, %f2, %f0;\n{forbidden}"),
            1,
        );
        assert!(
            validate_inference_sm89_ptx(&ptx)
                .exact_m128n64_tail
                .is_err(),
            "{forbidden}"
        );
    }

    for forbidden in [
        ".local .align 4 .b8 spill[4];",
        "atom.global.add.u32 %r0, [%rd0], 1;",
        "redux.sync.add.u32 %r0, %r1, 0xffffffff;",
        "call.uni helper, ();",
    ] {
        let ptx = valid_ptx().replacen(
            "mma.sync.aligned.m16n8k16.row.col.f32.bf16.bf16.f32",
            &format!("{forbidden}\nmma.sync.aligned.m16n8k16.row.col.f32.bf16.bf16.f32"),
            1,
        );
        assert!(
            validate_inference_sm89_ptx(&ptx)
                .half_f32out_s3_bf16
                .is_err(),
            "{forbidden}"
        );
    }
}

#[test]
fn inference_bundle_admission_enforces_the_live_five_argument_driver_abi() {
    let valid =
        driver_abi(&[(0, 8), (8, 8), (16, 8), (24, 8), (32, 32)]);
    assert!(validate_inference_sm89_driver_abi(&valid, 32, 4).is_ok());

    let wrong_layout =
        driver_abi(&[(0, 8), (8, 8), (16, 8), (24, 8), (32, 28)]);
    assert!(
        validate_inference_sm89_driver_abi(&wrong_layout, 32, 4).is_err()
    );
    assert!(validate_inference_sm89_driver_abi(&valid, 28, 4).is_err());
    assert!(validate_inference_sm89_driver_abi(&valid, 32, 8).is_err());
}

#[test]
fn inference_bundle_admission_enforces_half_resource_boundaries() {
    let valid = InferenceSm89ResourceFacts {
        local_bytes: 0,
        registers: 188,
        static_shared_bytes: 0,
        max_threads: 256,
        optin_shared_bytes: 98_304,
        active_blocks: 1,
    };
    assert!(validate_inference_sm89_half_resources(valid).is_ok());
    for invalid in [
        InferenceSm89ResourceFacts {
            local_bytes: 1,
            ..valid
        },
        InferenceSm89ResourceFacts {
            registers: 0,
            ..valid
        },
        InferenceSm89ResourceFacts {
            registers: 189,
            ..valid
        },
        InferenceSm89ResourceFacts {
            static_shared_bytes: 1,
            ..valid
        },
        InferenceSm89ResourceFacts {
            max_threads: 255,
            ..valid
        },
        InferenceSm89ResourceFacts {
            optin_shared_bytes: 98_303,
            ..valid
        },
        InferenceSm89ResourceFacts {
            active_blocks: 0,
            ..valid
        },
    ] {
        assert!(validate_inference_sm89_half_resources(invalid).is_err());
    }
}

#[test]
fn inference_bundle_admission_enforces_exact_resource_boundaries() {
    let valid = InferenceSm89ResourceFacts {
        local_bytes: 0,
        registers: 128,
        static_shared_bytes: 49_152,
        max_threads: 256,
        optin_shared_bytes: 0,
        active_blocks: 2,
    };
    assert!(validate_inference_sm89_exact_resources(valid).is_ok());
    for invalid in [
        InferenceSm89ResourceFacts {
            local_bytes: 1,
            ..valid
        },
        InferenceSm89ResourceFacts {
            registers: 0,
            ..valid
        },
        InferenceSm89ResourceFacts {
            registers: 129,
            ..valid
        },
        InferenceSm89ResourceFacts {
            static_shared_bytes: 49_151,
            ..valid
        },
        InferenceSm89ResourceFacts {
            max_threads: 255,
            ..valid
        },
        InferenceSm89ResourceFacts {
            active_blocks: 1,
            ..valid
        },
    ] {
        assert!(validate_inference_sm89_exact_resources(invalid).is_err());
    }
}

#[test]
fn inference_bundle_admission_declines_outside_the_exact_compiler_envelope() {
    let valid = InferenceSm89EnvelopeFacts {
        module_kind: ModuleKind::Fixed,
        artifact_kind: ArtifactKind::Ptx,
        compiler_output_kind: ArtifactKind::Ptx,
        compile_key_matches: true,
        target: CudaTarget::sm(89),
        state_cap: 16,
        nvrtc: (12, 8),
        nvrtc_library_known: true,
        nvrtc_library_current: true,
        device_cc: Some((8, 9)),
    };
    assert!(validate_inference_sm89_envelope(valid, compiler_supported).is_ok());
    assert!(
        validate_inference_sm89_envelope(
            InferenceSm89EnvelopeFacts {
                device_cc: Some((8, 6)),
                ..valid
            },
            compiler_supported
        )
        .is_ok(),
        "an sm_80-tier board outside the frozen evidence takes the proof path"
    );
    for invalid in [
        InferenceSm89EnvelopeFacts {
            module_kind: ModuleKind::TriadSm80,
            ..valid
        },
        InferenceSm89EnvelopeFacts {
            artifact_kind: ArtifactKind::Cubin,
            ..valid
        },
        InferenceSm89EnvelopeFacts {
            compiler_output_kind: ArtifactKind::Cubin,
            ..valid
        },
        InferenceSm89EnvelopeFacts {
            compile_key_matches: false,
            ..valid
        },
        InferenceSm89EnvelopeFacts {
            target: CudaTarget::compute(89),
            ..valid
        },
        InferenceSm89EnvelopeFacts {
            state_cap: 32,
            ..valid
        },
        InferenceSm89EnvelopeFacts {
            nvrtc: (13, 1),
            ..valid
        },
        InferenceSm89EnvelopeFacts {
            nvrtc_library_known: false,
            ..valid
        },
        InferenceSm89EnvelopeFacts {
            nvrtc_library_current: false,
            ..valid
        },
        InferenceSm89EnvelopeFacts {
            device_cc: Some((7, 5)),
            ..valid
        },
        InferenceSm89EnvelopeFacts {
            device_cc: Some((12, 0)),
            ..valid
        },
        InferenceSm89EnvelopeFacts {
            device_cc: None,
            ..valid
        },
    ] {
        assert!(validate_inference_sm89_envelope(invalid, compiler_supported).is_err());
    }
}

#[test]
fn inference_bundle_admission_rechecks_nvrtc_library_freshness() {
    let raw_domain = b"literal-test-NVRTC-domain";
    let expected_digest = FramedSha256::new("nvrtc-library-set-identity.v2")
        .optional("domain", Some(raw_domain.as_slice()))
        .finish();
    let checks = std::cell::Cell::new(0);
    assert!(nvrtc_library_identity_matches(
        expected_digest,
        Some(raw_domain.as_slice()),
        |_| {
            checks.set(checks.get() + 1);
            true
        },
    ));
    assert_eq!(checks.get(), 1);

    assert!(!nvrtc_library_identity_matches(
        expected_digest,
        Some(raw_domain.as_slice()),
        |_| false,
    ));
    assert!(!nvrtc_library_identity_matches(
        expected_digest,
        None,
        |_| true,
    ));
    assert!(!nvrtc_library_identity_matches(
        [0x5a; 32],
        Some(raw_domain.as_slice()),
        |_| true,
    ));
}

#[test]
fn libraries_of_another_identity_are_not_asked_for() {
    let never = |_: &[u8]| -> bool { panic!("only libraries of the identity are asked for") };
    assert!(!nvrtc_library_identity_matches(
        [0x5a; 32],
        Some(b"other".as_slice()),
        never,
    ));
    assert!(!nvrtc_library_identity_matches([0x5a; 32], None, never));
    let domain = b"other".as_slice();
    let identity = FramedSha256::new("nvrtc-library-set-identity.v2")
        .optional("domain", Some(domain))
        .finish();
    assert!(nvrtc_library_identity_answered(identity, Some(domain), true));
    assert!(!nvrtc_library_identity_answered(identity, Some(domain), false));
    assert!(!nvrtc_library_identity_answered([0x5a; 32], Some(domain), true));
    assert!(!nvrtc_library_identity_answered(identity, None, true));
}

#[test]
fn admission_names_the_first_fault_of_a_member() {
    let rejected = |ptx: &str| validate_inference_sm89_ptx(ptx).half_f32out_s3_bf16;
    let faults = [
        (
            valid_ptx().replacen(".param .u64 p3,", "", 1),
            PtxFault::WrongParameters,
        ),
        (
            valid_ptx().replacen(".maxntid 256, 1, 1", ".maxntid 128, 1, 1", 1),
            PtxFault::WrongLaunchBound(".maxntid"),
        ),
        (
            valid_ptx().replacen(".maxntid 256, 1, 1", ".maxntid 256 .maxntid 256", 1),
            PtxFault::WrongLaunchBound(".maxntid"),
        ),
        (
            valid_ptx().replacen(".minnctapersm 1", "", 1),
            PtxFault::WrongLaunchBound(".minnctapersm"),
        ),
        (
            valid_ptx().replacen("cp.async.commit_group;", "", 1),
            PtxFault::MissingOpcode("cp.async.commit_group"),
        ),
        (
            valid_ptx().replacen("cp.async.wait_group 1;", "", 1),
            PtxFault::IncompleteProtocol,
        ),
        (
            valid_ptx().replacen("bar.sync 0;", "bar.sync 0;\nwgmma.fence;", 1),
            PtxFault::ForbiddenWork,
        ),
        (
            valid_ptx().replacen(HALF_BF16_SYMBOL, "elsewhere", 1),
            PtxFault::MissingEntry,
        ),
        (
            format!("{}\n/* never closed", valid_ptx()),
            PtxFault::Unparsed,
        ),
        (
            format!(".visible .entry {HALF_BF16_SYMBOL} .maxntid 256 {{ ret; }}"),
            PtxFault::NoParameters,
        ),
        (
            format!(".visible .entry {HALF_BF16_SYMBOL} ( .maxntid 256 {{ ret; }}"),
            PtxFault::NoParameterEnd,
        ),
        (
            format!(".visible .entry {HALF_BF16_SYMBOL} ) ( {{ ret; }}"),
            PtxFault::MalformedParameters,
        ),
    ];
    for (ptx, fault) in faults {
        assert_eq!(rejected(&ptx), Err(fault), "{fault:?}");
        let message = InferenceFault::Ptx(fault).message(InferenceMember::HalfBf16);
        assert!(message.contains(match fault {
            PtxFault::Unparsed => "parse failed",
            _ => HALF_BF16_SYMBOL,
        }));
    }
    let twice = format!("{}{}", valid_ptx(), exact_entry());
    assert_eq!(
        validate_inference_sm89_ptx(&twice).half_f32out_s3_f16,
        Err(PtxFault::DuplicateExport(EXACT_SYMBOL))
    );
}

#[test]
fn forbidden_work_is_refused_wherever_it_stands() {
    let exact = exact_entry();
    let lines: Vec<&str> = exact.lines().collect();
    let opening = lines.iter().position(|line| line.ends_with('{')).unwrap();
    for at in opening + 1..lines.len() {
        for (inserted, admitted) in [
            ("atom.global.add.u32 %r0, [%rd0], 1;", false),
            (".file 1 \"atom.global.add.u32 call.uni\"", true),
            ("// atom.global.add.u32", true),
        ] {
            let mut changed = lines.clone();
            changed.insert(at, inserted);
            let ptx = valid_ptx().replace(&exact, &(changed.join("\n") + "\n"));
            let admission = validate_inference_sm89_ptx(&ptx);
            assert!(admission.half_f32out_s3_bf16.is_ok());
            assert!(admission.half_f32out_s3_f16.is_ok());
            assert_eq!(admission.exact_m128n64_tail.is_ok(), admitted);
        }
    }
}

#[test]
fn members_need_no_line_of_their_own() {
    let flat: Vec<String> = [
        half_entry(
            HALF_BF16_SYMBOL,
            "mma.sync.aligned.m16n8k16.row.col.f32.bf16.bf16.f32",
        ),
        half_entry(
            HALF_F16_SYMBOL,
            "mma.sync.aligned.m16n8k16.row.col.f32.f16.f16.f32",
        ),
        exact_entry(),
    ]
    .iter()
    .map(|entry| entry.trim_end().replace('\n', " "))
    .collect();
    let whole = validate_inference_sm89_ptx(&flat.concat());
    assert_eq!(whole.half_f32out_s3_bf16, Ok(()));
    assert_eq!(whole.half_f32out_s3_f16, Ok(()));
    assert_eq!(whole.exact_m128n64_tail, Ok(()));
    let removed = validate_inference_sm89_ptx(&format!("{}{}", flat[0], flat[2]));
    assert_eq!(removed.half_f32out_s3_bf16, Ok(()));
    assert_eq!(removed.half_f32out_s3_f16, Err(PtxFault::MissingEntry));
    assert_eq!(removed.exact_m128n64_tail, Ok(()));
    let renamed = flat[1].replace(HALF_F16_SYMBOL, "nn_sm89_renamed");
    assert_eq!(
        validate_inference_sm89_ptx(&format!("{}{renamed}{}", flat[0], flat[2])),
        removed
    );
}

#[test]
fn members_of_a_parsed_text_are_validated_one_by_one() {
    let parsed = parse_ptx(valid_ptx().as_bytes()).unwrap();
    assert_eq!(validate_exact_entry(&parsed), Ok(()));
    assert_eq!(
        validate_half_entry(&parsed, HALF_BF16_SYMBOL, BF16_MMA),
        Ok(())
    );
    assert_eq!(
        validate_half_entry(&parsed, HALF_BF16_SYMBOL, F16_MMA),
        Err(PtxFault::MissingOpcode(F16_MMA))
    );
    let worked = valid_ptx().replacen(
        "fma.rn.f32 %f0, %f1, %f2, %f0;",
        "fma.rn.f32 %f0, %f1, %f2, %f0;\nredux.sync.add.u32 %r0, %r1, 0;",
        1,
    );
    let parsed = parse_ptx(worked.as_bytes()).unwrap();
    assert_eq!(validate_exact_entry(&parsed), Err(PtxFault::ForbiddenWork));
}

#[test]
fn other_texts_decide_nothing_about_a_member() {
    let exact = exact_entry();
    let other = ".visible .entry nn_sm89_other() .maxntid 32 { call.uni helper, (); }\n";
    let comment = format!("// .visible .entry {EXACT_SYMBOL}\n");
    let renamed = exact.replace(EXACT_SYMBOL, "nn_sm89_renamed");
    let whole = validate_inference_sm89_ptx(&valid_ptx());
    for extra in [other, comment.as_str(), renamed.as_str()] {
        for ptx in [
            format!("{extra}{}", valid_ptx()),
            format!("{}{extra}", valid_ptx()),
        ] {
            assert_eq!(validate_inference_sm89_ptx(&ptx), whole);
        }
    }
    let removed = validate_inference_sm89_ptx(&valid_ptx().replace(&exact, ""));
    assert_eq!(removed.half_f32out_s3_bf16, whole.half_f32out_s3_bf16);
    assert_eq!(removed.half_f32out_s3_f16, whole.half_f32out_s3_f16);
    assert_eq!(
        removed,
        validate_inference_sm89_ptx(&valid_ptx().replace(&exact, &renamed))
    );
}

#[test]
fn a_single_block_bound_and_other_kernels_are_accepted() {
    let one_dimension = valid_ptx().replace(".maxntid 256, 1, 1", ".maxntid 256");
    let admission = validate_inference_sm89_ptx(&one_dimension);
    assert!(admission.half_f32out_s3_bf16.is_ok());
    assert!(admission.exact_m128n64_tail.is_ok());
    let more = format!("{}.visible .entry other() {{ atom.add; }}\n", valid_ptx());
    assert_eq!(
        validate_inference_sm89_ptx(&more),
        validate_inference_sm89_ptx(&valid_ptx())
    );
}

#[test]
fn modifiers_are_whole_parts_of_an_opcode() {
    let harmless = valid_ptx().replacen("bar.sync 0;", "bar.sync 0;\nmov.tf32x.ftzz %r0;", 1);
    assert!(validate_inference_sm89_ptx(&harmless)
        .half_f32out_s3_bf16
        .is_ok());
    let flushed = valid_ptx().replacen("bar.sync 0;", "bar.sync 0;\nadd.ftz %r0;", 1);
    assert!(validate_inference_sm89_ptx(&flushed)
        .half_f32out_s3_bf16
        .is_err());
}

#[test]
fn census_asks_the_driver_only_about_admitted_members() {
    let asked = std::cell::Cell::new(0);
    let layout = [(0, 8), (8, 8), (16, 8), (24, 8), (32, 32)];
    let answer = || {
        asked.set(asked.get() + 1);
        Ok(driver_abi(&layout))
    };
    assert_eq!(
        census_member(Err(PtxFault::MissingEntry), answer, 32),
        Err(InferenceFault::Ptx(PtxFault::MissingEntry))
    );
    assert_eq!(asked.get(), 0);
    assert_eq!(census_member(Ok(()), answer, 32), Ok(driver_abi(&layout)));
    assert_eq!(asked.get(), 1);
    assert_eq!(
        census_member(Ok(()), answer, 28),
        Err(InferenceFault::DriverAbi)
    );
    assert_eq!(
        census_member(Ok(()), || Err(InferenceFault::Census), 32),
        Err(InferenceFault::Census)
    );
    assert!(validate_census_module(ModuleKind::Fixed, true).is_ok());
    assert!(validate_census_module(ModuleKind::Fixed, false).is_err());
    assert_eq!(
        validate_census_module(ModuleKind::TriadSm80, true),
        Err(InferenceFault::Census)
    );
    let none: InferenceSm89Members<u32> = InferenceSm89Members::rejected(InferenceFault::Envelope);
    assert_eq!(none.half_f32out_s3_bf16, Err(InferenceFault::Envelope));
    assert_eq!(none.exact_m128n64_tail, Err(InferenceFault::Envelope));
}

#[test]
fn census_loads_asks_and_unloads() {
    let layout = [(0, 8), (8, 8), (16, 8), (24, 8), (32, 32)];
    let steps = std::cell::RefCell::new(Vec::new());
    let ptx = valid_ptx();
    let members = census_inference_sm89_driver_abi(
        ModuleKind::Fixed,
        true,
        &ptx,
        32,
        28,
        || {
            steps.borrow_mut().push("load");
            Ok(())
        },
        |symbol| {
            steps.borrow_mut().push(symbol);
            Ok(driver_abi(&layout))
        },
        || {
            steps.borrow_mut().push("unload");
            Ok(())
        },
    );
    assert_eq!(
        *steps.borrow(),
        vec!["load", HALF_BF16_SYMBOL, HALF_F16_SYMBOL, EXACT_SYMBOL, "unload"]
    );
    assert_eq!(members.half_f32out_s3_bf16, Ok(driver_abi(&layout)));
    assert_eq!(members.half_f32out_s3_f16, Ok(driver_abi(&layout)));
    assert_eq!(members.exact_m128n64_tail, Err(InferenceFault::DriverAbi));
}

#[test]
fn census_refuses_every_member_where_the_module_cannot_be_used() {
    let ptx = valid_ptx();
    let fault = InferenceFault::Driver("no module");
    let unloadable = census_inference_sm89_driver_abi(
        ModuleKind::Fixed,
        true,
        &ptx,
        32,
        32,
        || Err(fault),
        |_| panic!("nothing is loaded"),
        || panic!("nothing is loaded"),
    );
    assert_eq!(unloadable.half_f32out_s3_bf16, Err(fault));
    assert_eq!(unloadable.exact_m128n64_tail, Err(fault));
    let stuck = census_inference_sm89_driver_abi(
        ModuleKind::Fixed,
        true,
        &ptx,
        32,
        32,
        || Ok(()),
        |_| Ok(driver_abi(&[(0, 8), (8, 8), (16, 8), (24, 8), (32, 32)])),
        || Err(fault),
    );
    assert_eq!(stuck.half_f32out_s3_f16, Err(fault));
    let other = census_inference_sm89_driver_abi(
        ModuleKind::Fixed,
        false,
        &ptx,
        32,
        32,
        || panic!("another module is not loaded"),
        |_| panic!("another module is not loaded"),
        || panic!("another module is not loaded"),
    );
    assert_eq!(other.half_f32out_s3_f16, Err(InferenceFault::Census));
}

fn half_resources() -> InferenceSm89ResourceFacts {
    InferenceSm89ResourceFacts {
        local_bytes: 0,
        registers: 188,
        static_shared_bytes: 0,
        max_threads: 256,
        optin_shared_bytes: 98_304,
        active_blocks: 1,
    }
}

#[test]
fn members_are_loaded_only_behind_an_admitted_argument_layout() {
    let valid = || driver_abi(&[(0, 8), (8, 8), (16, 8), (24, 8), (32, 32)]);
    assert_eq!(
        load_half_member(&Ok(valid()), 32, || Ok((5_u32, half_resources()))),
        Ok(5)
    );
    assert_eq!(
        load_half_member(&Ok(valid()), 28, || -> Result<
            (u32, InferenceSm89ResourceFacts),
            InferenceFault,
        > { panic!("nothing is loaded") }),
        Err(InferenceFault::DriverAbi)
    );
    assert_eq!(
        load_exact_member(&Err(InferenceFault::Census), 32, || -> Result<
            (u32, InferenceSm89ResourceFacts),
            InferenceFault,
        > { panic!("nothing is loaded") }),
        Err(InferenceFault::Census)
    );
    let spilled = InferenceSm89ResourceFacts {
        local_bytes: 1,
        ..half_resources()
    };
    assert_eq!(
        load_half_member(&Ok(valid()), 32, || Ok((5_u32, spilled))),
        Err(InferenceFault::Resources(spilled))
    );
    assert_eq!(
        load_exact_member(&Ok(valid()), 32, || Ok((5_u32, spilled))),
        Err(InferenceFault::Resources(spilled))
    );
}

#[test]
fn bundle_members_stand_on_their_own() {
    let facts = InferenceSm89EnvelopeFacts {
        module_kind: ModuleKind::Fixed,
        artifact_kind: ArtifactKind::Ptx,
        compiler_output_kind: ArtifactKind::Ptx,
        compile_key_matches: true,
        target: CudaTarget::sm(89),
        state_cap: 16,
        nvrtc: (12, 8),
        nvrtc_library_known: true,
        nvrtc_library_current: true,
        device_cc: Some((8, 9)),
    };
    let valid = || driver_abi(&[(0, 8), (8, 8), (16, 8), (24, 8), (32, 32)]);
    let census = InferenceSm89Members {
        half_f32out_s3_bf16: Ok(valid()),
        half_f32out_s3_f16: Ok(valid()),
        exact_m128n64_tail: Err(InferenceFault::Ptx(PtxFault::MissingEntry)),
    };
    let missing = InferenceFault::Driver("load retained Inference kernel");
    let loads = || {
        (
            || Ok((1_u32, half_resources())),
            move || Err(missing),
            || -> Result<(u32, InferenceSm89ResourceFacts), InferenceFault> {
                panic!("a refused member is not loaded")
            },
        )
    };
    let members =
        load_inference_sm89_bundle(facts, compiler_supported, &census, 32, 32, loads());
    assert_eq!(members.half_f32out_s3_bf16, Ok(1));
    assert_eq!(members.half_f32out_s3_f16, Err(missing));
    assert_eq!(
        members.exact_m128n64_tail,
        Err(InferenceFault::Ptx(PtxFault::MissingEntry))
    );
    let outside = InferenceSm89EnvelopeFacts {
        compile_key_matches: false,
        ..facts
    };
    let members =
        load_inference_sm89_bundle(outside, compiler_supported, &census, 32, 32, loads());
    assert_eq!(members.half_f32out_s3_bf16, Err(InferenceFault::Envelope));
}
