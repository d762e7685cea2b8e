use gemm_bi_triad::identity::WeightDtype;
use gemm_bi_triad::route_proof::{
    compare_words, proof_output_bytes, prove_bits, settled_verdict, tile_waves, wave_guard_admits, RouteProofKey, RouteProofLedger,
    RouteProofVerdict, TileFootprint,
};
use gemm_bi_triad::shape::ResolvedGemmOp;

const ADA_MULTIPROCESSORS: u32 = 142;

fn footprint(tile: (u32, u32), resident: u32) -> TileFootprint {
    TileFootprint { tile, resident }
}

#[test]
fn tile_waves_count_grids_against_the_resident_ctas_of_the_board() {
    // 288 tiles of 64x64 over 284 resident CTAs: the tail wave holds four.
    assert_eq!(
        tile_waves(1536, 768, footprint((64, 64), 2), ADA_MULTIPROCESSORS),
        Some(2)
    );
    // 132 tiles of 144x96 at one CTA per multiprocessor: one wave.
    assert_eq!(
        tile_waves(4621, 384, footprint((144, 96), 1), ADA_MULTIPROCESSORS),
        Some(1)
    );
    assert_eq!(tile_waves(0, 384, footprint((64, 64), 2), 142), Some(0));
    assert_eq!(tile_waves(64, 64, footprint((0, 64), 2), 142), None);
    assert_eq!(tile_waves(64, 64, footprint((64, 64), 2), 0), None);
}

#[test]
fn the_wave_guard_admits_every_measured_winner_on_its_own_board() {
    // The wide TF32 tiles against the portable tiles they replaced.
    for (rows, columns, candidate, reference) in [
        (4621, 384, footprint((144, 96), 1), footprint((128, 64), 2)),
        (
            4096,
            3072,
            footprint((128, 192), 1),
            footprint((128, 64), 2),
        ),
        (3072, 1536, footprint((192, 192), 1), footprint((64, 64), 4)),
        (768, 3072, footprint((96, 192), 1), footprint((128, 96), 1)),
        (1536, 768, footprint((96, 96), 1), footprint((128, 96), 1)),
        // The half tiles against the tiled 64x64 reference.
        (2048, 3072, footprint((128, 128), 1), footprint((64, 64), 2)),
        (128, 512, footprint((32, 16), 3), footprint((64, 64), 2)),
        (1024, 128, footprint((16, 64), 2), footprint((64, 64), 2)),
    ] {
        assert!(
            wave_guard_admits(rows, columns, candidate, reference, ADA_MULTIPROCESSORS),
            "{rows}x{columns} {candidate:?} against {reference:?}"
        );
    }
}

#[test]
fn the_wave_guard_declines_a_grid_that_spills_into_a_wave_the_reference_avoids() {
    // 132 tiles of 144x96 land in one wave on 142 multiprocessors and in
    // two on 130, where the portable 128x64 grid of 222 CTAs still fits
    // one wave at two resident CTAs.
    let candidate = footprint((144, 96), 1);
    let reference = footprint((128, 64), 2);
    assert!(wave_guard_admits(4621, 384, candidate, reference, 142));
    assert!(!wave_guard_admits(4621, 384, candidate, reference, 130));
    // A smaller tile is never declined: more waves of less work is a
    // throughput question the guard does not pretend to answer.
    assert!(wave_guard_admits(
        4621,
        384,
        footprint((64, 64), 1),
        footprint((128, 64), 2),
        130
    ));
}

#[test]
fn ledger_records_one_verdict_per_candidate_and_cell() {
    let mut ledger = RouteProofLedger::default();
    let key = RouteProofKey {
        candidate: "tn_sm89_relay_m64n64_bk64_s3_bf16",
        op: ResolvedGemmOp::Tn,
        dtype: WeightDtype::Bf16,
        dims: (2048, 1536, 768),
    };
    assert_eq!(ledger.verdict(key), None);
    ledger.record(key, RouteProofVerdict::Admitted);
    assert_eq!(ledger.verdict(key), Some(RouteProofVerdict::Admitted));
    let other_dims = RouteProofKey {
        dims: (2048, 768, 3072),
        ..key
    };
    assert_eq!(ledger.verdict(other_dims), None);
    ledger.record(other_dims, RouteProofVerdict::Declined);
    assert_eq!(ledger.len(), 2);
    ledger.record(key, RouteProofVerdict::Declined);
    assert_eq!(ledger.len(), 2);
    assert_eq!(ledger.verdict(key), Some(RouteProofVerdict::Declined));
}

#[test]
fn ledger_tells_candidates_operations_and_types_apart() {
    let mut ledger = RouteProofLedger::default();
    let key = RouteProofKey {
        candidate: "a",
        op: ResolvedGemmOp::Nn,
        dtype: WeightDtype::F16,
        dims: (1, 2, 3),
    };
    ledger.record(key, RouteProofVerdict::Admitted);
    for other in [
        RouteProofKey {
            candidate: "b",
            ..key
        },
        RouteProofKey {
            op: ResolvedGemmOp::Nt,
            ..key
        },
        RouteProofKey {
            dtype: WeightDtype::Bf16,
            ..key
        },
        RouteProofKey {
            dims: (1, 2, 4),
            ..key
        },
    ] {
        assert_eq!(ledger.verdict(other), None);
    }
    assert_eq!(ledger.len(), 1);
}

#[test]
fn tile_waves_decline_grids_that_cannot_be_counted() {
    assert_eq!(
        tile_waves(usize::MAX, usize::MAX, footprint((1, 1), 1), 1),
        None
    );
    // A tile that never stays resident still runs one at a time.
    assert_eq!(tile_waves(128, 128, footprint((64, 64), 0), 2), Some(2));
}

#[test]
fn equal_words_admit_and_any_difference_declines() {
    assert_eq!(
        compare_words(&vec![1, 2, 3], &vec![1, 2, 3]),
        RouteProofVerdict::Admitted
    );
    assert_eq!(
        compare_words(&vec![], &vec![]),
        RouteProofVerdict::Admitted
    );
    assert_eq!(
        compare_words(&vec![0], &vec![0x8000_0000]),
        RouteProofVerdict::Declined
    );
    assert_eq!(
        compare_words(&vec![1], &vec![1, 1]),
        RouteProofVerdict::Declined
    );
}

#[test]
fn a_failing_arm_is_no_verdict_and_the_candidate_runs_first() {
    let order = std::cell::RefCell::new(Vec::new());
    let verdict = prove_bits(
        || {
            order.borrow_mut().push("candidate");
            Ok::<Vec<u32>, &str>(vec![7])
        },
        || {
            order.borrow_mut().push("reference");
            Ok(vec![7])
        },
    );
    assert_eq!(verdict, Ok(RouteProofVerdict::Admitted));
    assert_eq!(*order.borrow(), vec!["candidate", "reference"]);
    assert_eq!(
        prove_bits(
            || Err("candidate failed"),
            || panic!("the reference of a failed candidate is not run"),
        ),
        Err("candidate failed")
    );
    assert_eq!(
        prove_bits(|| Ok(vec![7]), || Err("reference failed")),
        Err("reference failed")
    );
    assert_eq!(
        prove_bits(|| Ok::<Vec<u32>, &str>(vec![7]), || Ok(vec![8])),
        Ok(RouteProofVerdict::Declined)
    );
}

#[test]
fn proof_outputs_hold_every_element() {
    assert_eq!(proof_output_bytes(10, WeightDtype::F32), Ok(40));
    assert_eq!(proof_output_bytes(10, WeightDtype::Bf16), Ok(20));
    assert_eq!(proof_output_bytes(0, WeightDtype::F16), Ok(0));
    assert_eq!(
        proof_output_bytes(usize::MAX / 2, WeightDtype::F32).map_err(|error| error.message()),
        Err("proof output byte count overflows usize".to_string())
    );
}

#[test]
fn failed_proofs_decline_the_candidate() {
    let proof = |candidate: Result<Vec<u32>, &'static str>| {
        settled_verdict(prove_bits(|| candidate, || Ok(vec![1, 2])))
    };
    assert_eq!(proof(Ok(vec![1, 2])), RouteProofVerdict::Admitted);
    assert_eq!(proof(Ok(vec![1, 3])), RouteProofVerdict::Declined);
    assert_eq!(proof(Err("no such kernel")), RouteProofVerdict::Declined);
}
