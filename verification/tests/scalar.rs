use gemm_bi_triad::control::validate_prepared_scalar_binding;
use gemm_bi_triad::identity::{
    PhysicalGemmBackend, ResolvedNumericContract, ResolvedOutputOwnership,
};
use gemm_bi_triad::kernel::LaunchConfig;
use gemm_bi_triad::scalar_dw::{scalar_backward_launch_plan, scalar_backward_request};
use gemm_bi_triad::scalar_nodes::{scalar_nodes_defined, scalar_physical_nodes, SCALAR_NN_M64N64_DYNAMIC_SHARED_BYTES};
use gemm_bi_triad::scalar_plan::{
    scalar_argument_layout, scalar_node_count, scalar_plan_fields, scalar_plan_requires_zero_beta,
    scalar_transpose_scratch_elements, ScalarArgumentLayout, ScalarDispatchPlan,
    SCALAR_TRANSPOSE_SCRATCH_CAP_ELEMENTS, SPLITK_SCRATCH_CAP,
};
use gemm_bi_triad::scalar_routes::scalar_route_contract;
use gemm_bi_triad::shape::{
    validate_f32_triad_operands, F32TriadOperands, F32TriadRequest, F32TriadShape, GemmDims,
    ResolvedGemmOp,
};

const ONE: u32 = 0x3f80_0000;
const ZERO: u32 = 0;

/// The buckets that the dispatcher routes these products to on a board of
/// 142 multiprocessors.
fn dispatched(op: ResolvedGemmOp, dims: (usize, usize, usize)) -> ScalarDispatchPlan {
    match (op, dims) {
        (ResolvedGemmOp::Nn, (32, 32 | 64 | 96, 128)) => ScalarDispatchPlan::NnSplitKThin,
        (ResolvedGemmOp::Nn, (2048, 128, 1024)) => ScalarDispatchPlan::NnFinal { slim: false },
        (ResolvedGemmOp::Nn, (3, 4, 5)) => ScalarDispatchPlan::NnUltraThin,
        (ResolvedGemmOp::Tn, (3, 4, 5)) => ScalarDispatchPlan::TnNarrow,
        (ResolvedGemmOp::Nt, (3, 4, 5)) => ScalarDispatchPlan::NtNarrow,
        (ResolvedGemmOp::Tn, (32, 4, 1)) => ScalarDispatchPlan::TnGemv,
        (ResolvedGemmOp::Tn, (256, 128, 128)) => ScalarDispatchPlan::TnSplitM {
            m_chunk: 16,
            chunks: 16,
        },
        (ResolvedGemmOp::Tn, (255, 128, 128)) => ScalarDispatchPlan::TnFinal { slim: true },
        (ResolvedGemmOp::Tn, (128, 1024, 1024)) => ScalarDispatchPlan::TnFinal { slim: false },
        (ResolvedGemmOp::Tn, (1024, 47, 17) | (1024, 128, 25) | (4096, 64, 64)) => {
            ScalarDispatchPlan::TnNarrow
        }
        (ResolvedGemmOp::Nt, (1, 7, 1)) => ScalarDispatchPlan::NtGemv,
        (ResolvedGemmOp::Nt, (32, 95, 128)) => ScalarDispatchPlan::NtSplitKTail {
            k_main: 64,
            k_tail: 31,
        },
        (ResolvedGemmOp::Nt, (32, 94, 128)) => ScalarDispatchPlan::NtSplitKTail {
            k_main: 64,
            k_tail: 30,
        },
        (ResolvedGemmOp::Nt, (32, 96, 128)) => ScalarDispatchPlan::NtSplitKMain {
            n_main: 128,
            n_tail: 0,
        },
        (ResolvedGemmOp::Nt, (512, 16, 2048) | (16, 512, 2048)) => {
            ScalarDispatchPlan::NtSplitKMain {
                n_main: 2048,
                n_tail: 0,
            }
        }
        (ResolvedGemmOp::Nt, (31, 95, 128)) => ScalarDispatchPlan::NtSmallBatchWide,
        (ResolvedGemmOp::Nt, (32, 95, 127)) => ScalarDispatchPlan::NtNarrow,
        (ResolvedGemmOp::Nt, (32, 95, 129)) => ScalarDispatchPlan::NtMidBatchWide,
        (ResolvedGemmOp::Nt, (2048, 1024, 129)) => ScalarDispatchPlan::NtFinal { slim: false },
        (ResolvedGemmOp::Nt, (2048, 512, 129)) => ScalarDispatchPlan::NtFinal { slim: true },
        _ => panic!("no plan is recorded for {op:?} {dims:?}"),
    }
}

/// The qualified buckets of these products on a board of 170
/// multiprocessors.
fn qualified(request: F32TriadRequest) -> ScalarDispatchPlan {
    let shape = request.shape;
    match (request.op, (shape.m, shape.k, shape.n)) {
        (ResolvedGemmOp::Nn, (128, 8_192, 128)) => ScalarDispatchPlan::NnM32N64SplitK32Qualified,
        (ResolvedGemmOp::Tn, (256, 512, 384)) => ScalarDispatchPlan::TnM16N16SplitM16Qualified,
        (ResolvedGemmOp::Tn, (1024, 47, 17) | (1024, 128, 25)) => {
            ScalarDispatchPlan::TnNarrowSplitM {
                m_chunk: 32,
                chunks: 32,
            }
        }
        (ResolvedGemmOp::Tn, (4096, 64, 64)) => ScalarDispatchPlan::TnNarrowSplitM {
            m_chunk: 48,
            chunks: 86,
        },
        (ResolvedGemmOp::Nt, (512, 16, 2_048)) => ScalarDispatchPlan::NtM2N16SplitK32Qualified,
        (ResolvedGemmOp::Nt, (1_024, 256, 128)) => {
            ScalarDispatchPlan::NtD128OutTransposeM64N64Qualified
        }
        (ResolvedGemmOp::Nt, (4_621, 384, 1_928)) => ScalarDispatchPlan::NtPrismVectorQualified,
        (ResolvedGemmOp::Nt, (4_096, 3_072, 1_536)) => {
            ScalarDispatchPlan::NtLargeDeepTransposeM64N64Qualified
        }
        (ResolvedGemmOp::Nt, (2_048, 1_536, 768)) => {
            ScalarDispatchPlan::NtD768OutTransposeM64N64Qualified
        }
        _ => panic!("no qualified plan is recorded for {request:?}"),
    }
}

fn scalar_fixture(
    op: ResolvedGemmOp,
    dims: (usize, usize, usize),
) -> (F32TriadRequest, F32TriadOperands, ScalarDispatchPlan) {
    let request = F32TriadRequest {
        op,
        shape: F32TriadShape::contiguous(op, dims),
    };
    let operands = F32TriadOperands {
        output: 0x1000,
        a: 0x2000,
        b: 0x3000,
        bias: (op == ResolvedGemmOp::Nn).then_some(0x4000),
        alpha: ONE,
        beta: if op == ResolvedGemmOp::Tn { ONE } else { ZERO },
    };
    (request, operands, dispatched(op, dims))
}

fn backward_plan(
    op: ResolvedGemmOp,
    dims: (usize, usize, usize),
) -> (GemmDims, F32TriadRequest, ScalarDispatchPlan) {
    scalar_backward_launch_plan(op, dims, Ok(dispatched(op, dims))).unwrap()
}

fn scalar_test_operands(op: ResolvedGemmOp, alpha: u32) -> F32TriadOperands {
    F32TriadOperands {
        output: 0x3000,
        a: 0x1000,
        b: 0x2000,
        bias: None,
        alpha,
        beta: if op == ResolvedGemmOp::Tn { ONE } else { ZERO },
    }
}

fn zero_request(op: ResolvedGemmOp) -> F32TriadRequest {
    let dims = match op {
        ResolvedGemmOp::Nn => (3, 0, 5),
        ResolvedGemmOp::Tn => (0, 3, 5),
        ResolvedGemmOp::Nt => (3, 5, 0),
    };
    F32TriadRequest {
        op,
        shape: F32TriadShape::contiguous(op, dims),
    }
}

#[test]
fn scalar_physical_plan_freezes_maximum_node_counts_and_neighbors() {
    for (op, dims, expected) in [
        (ResolvedGemmOp::Nn, (32, 32, 128), 2),
        (ResolvedGemmOp::Tn, (256, 128, 128), 2),
        (ResolvedGemmOp::Nt, (32, 95, 128), 34),
        (ResolvedGemmOp::Nt, (32, 96, 128), 3),
        (ResolvedGemmOp::Nt, (31, 95, 128), 1),
        (ResolvedGemmOp::Nt, (32, 95, 127), 1),
        (ResolvedGemmOp::Nt, (32, 95, 129), 1),
    ] {
        let (request, operands, plan) = scalar_fixture(op, dims);
        let nodes = scalar_physical_nodes(request, operands, plan).unwrap();
        assert_eq!(nodes.len(), expected, "{op:?} {dims:?} {plan:?}");
    }
}

#[test]
fn scalar_nt_thin_output_cells_have_the_qualified_splitk_node_identity() {
    for (dims, expected_grids) in [
        ((512, 16, 2048), [(64, 1, 1), (1024, 1, 1), (32, 1, 1)]),
        ((16, 512, 2048), [(64, 16, 1), (512, 1, 1), (32, 1, 1)]),
    ] {
        let (request, operands, plan) = scalar_fixture(ResolvedGemmOp::Nt, dims);
        assert_eq!(
            plan,
            ScalarDispatchPlan::NtSplitKMain {
                n_main: 2048,
                n_tail: 0,
            }
        );
        let nodes = scalar_physical_nodes(request, operands, plan).unwrap();
        assert_eq!(nodes.len(), 3);
        assert_eq!(
            nodes.iter().map(|node| node.symbol).collect::<Vec<_>>(),
            [
                "gemm_bi_transpose_f32_2d",
                "gemm_bi_nn_splitk32_partial",
                "gemm_bi_splitk_reduce",
            ]
        );
        assert_eq!(
            nodes
                .iter()
                .map(|node| node.launch.grid_dim)
                .collect::<Vec<_>>(),
            expected_grids
        );
        for index in 0..nodes.len() {
            assert!(
                nodes[..index].iter().all(|node| {
                    node.launch.arguments_digest != nodes[index].launch.arguments_digest
                }),
                "{dims:?} physical argument digest collision at node {index}"
            );
        }
        assert_ne!(
            scalar_route_contract(nodes[1].symbol),
            scalar_route_contract(nodes[2].symbol),
            "{dims:?} partial and reducer identities"
        );
    }
}

#[test]
fn scalar_big_nt_uses_its_exact_shared_memory_contract() {
    for (op, dims, expected_plan, symbol, shared_mem_bytes) in [
        (
            ResolvedGemmOp::Nn,
            (2048, 128, 1024),
            ScalarDispatchPlan::NnFinal { slim: false },
            "gemm_bi_nn",
            34 * 1024,
        ),
        (
            ResolvedGemmOp::Tn,
            (128, 1024, 1024),
            ScalarDispatchPlan::TnFinal { slim: false },
            "gemm_bi_tn_aligned",
            34 * 1024,
        ),
        (
            ResolvedGemmOp::Nt,
            (2048, 1024, 129),
            ScalarDispatchPlan::NtFinal { slim: false },
            "gemm_bi_nt",
            33_376,
        ),
        (
            ResolvedGemmOp::Nt,
            (2048, 512, 129),
            ScalarDispatchPlan::NtFinal { slim: true },
            "gemm_bi_nt_slim",
            0,
        ),
    ] {
        let (request, operands, plan) = scalar_fixture(op, dims);
        assert_eq!(plan, expected_plan);
        let nodes = scalar_physical_nodes(request, operands, plan).unwrap();
        assert_eq!(nodes.len(), 1);
        assert_eq!(nodes[0].symbol, symbol);
        assert_eq!(nodes[0].launch.shared_mem_bytes, shared_mem_bytes);
    }
}

#[test]
fn scalar_nn_m64n64_plan_has_the_qualified_seven_cell_identity() {
    let operands = F32TriadOperands {
        output: 0x1000,
        a: 0x2000,
        b: 0x3000,
        bias: None,
        alpha: ONE,
        beta: ZERO,
    };
    let mut digests = Vec::new();
    for (dims, expected_grid) in [
        ((2_048, 3_072, 768), 384),
        ((4_096, 3_072, 1_536), 1_536),
        ((512, 3_072, 768), 96),
        ((4_096, 512, 768), 768),
        ((2_048, 768, 3_072), 1_536),
        ((2_048, 1_536, 768), 384),
        ((4_621, 384, 1_928), 2_263),
    ] {
        let request = F32TriadRequest {
            op: ResolvedGemmOp::Nn,
            shape: F32TriadShape::contiguous(ResolvedGemmOp::Nn, dims),
        };
        let nodes =
            scalar_physical_nodes(request, operands, ScalarDispatchPlan::NnM64N64Qualified)
                .unwrap();
        assert_eq!(nodes.len(), 1);
        assert_eq!(nodes[0].symbol, "gemm_bi_nn_m64n64_bk16_s2_v1");
        assert_eq!(nodes[0].tile, (64, 64));
        assert_eq!((nodes[0].bk, nodes[0].stages), (16, 2));
        assert_eq!(nodes[0].launch.grid_dim, (expected_grid, 1, 1));
        assert_eq!(nodes[0].launch.block_dim, (128, 1, 1));
        assert_eq!(nodes[0].launch.shared_mem_bytes, 17_408);
        assert_ne!(nodes[0].launch.arguments_digest, [0; 32]);
        assert!(!digests.contains(&nodes[0].launch.arguments_digest));
        digests.push(nodes[0].launch.arguments_digest);
    }
    assert_eq!(
        scalar_plan_fields(ScalarDispatchPlan::NnM64N64Qualified),
        (24, 0, 0)
    );
    assert_eq!(
        scalar_argument_layout(
            F32TriadRequest {
                op: ResolvedGemmOp::Nn,
                shape: F32TriadShape::contiguous(ResolvedGemmOp::Nn, (2_048, 768, 3_072),),
            },
            operands,
            ScalarDispatchPlan::NnM64N64Qualified,
            0,
        )
        .null_pointer_mask,
        0b1000,
    );
}

#[test]
fn scalar_nn_m32n64_splitk32_plan_has_two_exact_ordered_nodes() {
    let request = F32TriadRequest {
        op: ResolvedGemmOp::Nn,
        shape: F32TriadShape::contiguous(ResolvedGemmOp::Nn, (128, 8_192, 128)),
    };
    let operands = scalar_test_operands(ResolvedGemmOp::Nn, 1.0f32.to_bits());
    let plan = ScalarDispatchPlan::NnM32N64SplitK32Qualified;
    let nodes = scalar_physical_nodes(request, operands, plan).unwrap();
    assert_eq!(nodes.len(), 2);
    assert_eq!(
        nodes.iter().map(|node| node.symbol).collect::<Vec<_>>(),
        [
            "gemm_bi_nn_splitk32_m32n64_exact_v1",
            "gemm_bi_splitk_reduce",
        ]
    );
    assert_eq!(nodes[0].tile, (32, 64));
    assert_eq!((nodes[0].bk, nodes[0].stages), (32, 1));
    assert_eq!(nodes[0].launch.grid_dim, (2_048, 1, 1));
    assert_eq!(nodes[0].launch.block_dim, (128, 1, 1));
    assert_eq!(nodes[0].launch.shared_mem_bytes, 0);
    assert_eq!(nodes[1].launch.grid_dim, (64, 1, 1));
    assert_eq!(nodes[1].launch.block_dim, (256, 1, 1));
    assert_eq!(nodes[1].launch.shared_mem_bytes, 0);
    assert_ne!(nodes[0].launch.arguments_digest, [0; 32]);
    assert_ne!(nodes[1].launch.arguments_digest, [0; 32]);
    assert_ne!(
        nodes[0].launch.arguments_digest,
        nodes[1].launch.arguments_digest
    );
    assert_eq!(scalar_plan_fields(plan), (36, 0, 0));
    assert!(scalar_plan_requires_zero_beta(plan));
    assert!(plan.needs_split_scratch());
    assert!(!plan.needs_transpose_scratch());
    let partial_elements = request.shape.k / 32 * request.shape.m * request.shape.n;
    assert_eq!(partial_elements, 4_194_304);
    assert!(partial_elements <= SPLITK_SCRATCH_CAP);
    assert_eq!(
        scalar_route_contract(nodes[0].symbol),
        (
            PhysicalGemmBackend::ScalarFmaSplitKPartialV1,
            ResolvedNumericContract::ScalarFmaSplitKPartialV1,
            ResolvedOutputOwnership::OneCtaPerOutputTilePerSplitKPartitionV1,
        )
    );
}

#[test]
fn scalar_nt_d768_transpose_plan_has_two_exact_ordered_nodes() {
    let request = F32TriadRequest {
        op: ResolvedGemmOp::Nt,
        shape: F32TriadShape::contiguous(ResolvedGemmOp::Nt, (2_048, 768, 3_072)),
    };
    let operands = scalar_test_operands(ResolvedGemmOp::Nt, 0.0f32.to_bits());
    let plan = ScalarDispatchPlan::NtD768TransposeM64N64Qualified;
    let nodes = scalar_physical_nodes(request, operands, plan).unwrap();
    assert_eq!(nodes.len(), 2);
    assert_eq!(
        nodes.iter().map(|node| node.symbol).collect::<Vec<_>>(),
        [
            "gemm_bi_transpose_f32_32x16_d768_v1",
            "gemm_bi_nn_m64n64_bk16_s2_v1",
        ]
    );
    assert_eq!(nodes[0].tile, (32, 32));
    assert_eq!((nodes[0].bk, nodes[0].stages), (1, 1));
    assert_eq!(nodes[0].launch.grid_dim, (96, 24, 1));
    assert_eq!(nodes[0].launch.block_dim, (32, 16, 1));
    assert_eq!(nodes[0].launch.shared_mem_bytes, 0);
    assert_eq!(nodes[1].tile, (64, 64));
    assert_eq!((nodes[1].bk, nodes[1].stages), (16, 2));
    assert_eq!(nodes[1].launch.grid_dim, (384, 1, 1));
    assert_eq!(nodes[1].launch.block_dim, (128, 1, 1));
    assert_eq!(
        nodes[1].launch.shared_mem_bytes,
        SCALAR_NN_M64N64_DYNAMIC_SHARED_BYTES
    );
    assert_ne!(nodes[0].launch.arguments_digest, [0; 32]);
    assert_ne!(nodes[1].launch.arguments_digest, [0; 32]);
    assert_ne!(
        nodes[0].launch.arguments_digest,
        nodes[1].launch.arguments_digest
    );
    assert_eq!(scalar_plan_fields(plan), (25, 0, 0));
    assert!(scalar_plan_requires_zero_beta(plan));
    assert_eq!(
        scalar_argument_layout(request, operands, plan, 0),
        ScalarArgumentLayout::default()
    );
    assert_eq!(
        scalar_argument_layout(request, operands, plan, 1).null_pointer_mask,
        0b1000
    );
}

#[test]
fn scalar_nt_d768_out_transpose_plan_has_distinct_tag_and_exact_nodes() {
    let request = F32TriadRequest {
        op: ResolvedGemmOp::Nt,
        shape: F32TriadShape::contiguous(ResolvedGemmOp::Nt, (2_048, 1_536, 768)),
    };
    let operands = scalar_test_operands(ResolvedGemmOp::Nt, 0.0f32.to_bits());
    let plan = ScalarDispatchPlan::NtD768OutTransposeM64N64Qualified;
    let nodes = scalar_physical_nodes(request, operands, plan).unwrap();
    assert_eq!(nodes.len(), 2);
    assert_eq!(
        nodes.iter().map(|node| node.symbol).collect::<Vec<_>>(),
        [
            "gemm_bi_transpose_f32_32x16_d768_v1",
            "gemm_bi_nn_m64n64_bk16_s2_v1",
        ]
    );
    assert_eq!(nodes[0].launch.grid_dim, (24, 48, 1));
    assert_eq!(nodes[0].launch.block_dim, (32, 16, 1));
    assert_eq!(nodes[0].launch.shared_mem_bytes, 0);
    assert_eq!(nodes[1].launch.grid_dim, (768, 1, 1));
    assert_eq!(nodes[1].launch.block_dim, (128, 1, 1));
    assert_eq!(
        nodes[1].launch.shared_mem_bytes,
        SCALAR_NN_M64N64_DYNAMIC_SHARED_BYTES
    );
    assert_ne!(nodes[0].launch.arguments_digest, [0; 32]);
    assert_ne!(nodes[1].launch.arguments_digest, [0; 32]);
    assert_ne!(
        nodes[0].launch.arguments_digest,
        nodes[1].launch.arguments_digest
    );
    assert_eq!(scalar_plan_fields(plan), (26, 0, 0));
    assert!(scalar_plan_requires_zero_beta(plan));
    assert_eq!(
        scalar_argument_layout(request, operands, plan, 0),
        ScalarArgumentLayout::default()
    );
    assert_eq!(
        scalar_argument_layout(request, operands, plan, 1).null_pointer_mask,
        0b1000
    );
}

#[test]
fn scalar_nt_large_deep_transpose_plan_has_the_qualified_revision_and_two_exact_nodes() {
    let request = F32TriadRequest {
        op: ResolvedGemmOp::Nt,
        shape: F32TriadShape::contiguous(ResolvedGemmOp::Nt, (4_096, 3_072, 1_536)),
    };
    let operands = scalar_test_operands(ResolvedGemmOp::Nt, 1.0f32.to_bits());
    let plan = ScalarDispatchPlan::NtLargeDeepTransposeM64N64Qualified;
    let nodes = scalar_physical_nodes(request, operands, plan).unwrap();
    assert_eq!(nodes.len(), 2);
    assert_eq!(
        nodes.iter().map(|node| node.symbol).collect::<Vec<_>>(),
        [
            "gemm_bi_transpose_f32_32x16_d768_v1",
            "gemm_bi_nn_m64n64_bk16_s2_v1",
        ]
    );
    assert_eq!(nodes[0].tile, (32, 32));
    assert_eq!((nodes[0].bk, nodes[0].stages), (1, 1));
    assert_eq!(nodes[0].launch.grid_dim, (48, 96, 1));
    assert_eq!(nodes[0].launch.block_dim, (32, 16, 1));
    assert_eq!(nodes[0].launch.shared_mem_bytes, 0);
    assert_eq!(nodes[1].tile, (64, 64));
    assert_eq!((nodes[1].bk, nodes[1].stages), (16, 2));
    assert_eq!(nodes[1].launch.grid_dim, (3_072, 1, 1));
    assert_eq!(nodes[1].launch.block_dim, (128, 1, 1));
    assert_eq!(
        nodes[1].launch.shared_mem_bytes,
        SCALAR_NN_M64N64_DYNAMIC_SHARED_BYTES
    );
    assert_ne!(nodes[0].launch.arguments_digest, [0; 32]);
    assert_ne!(nodes[1].launch.arguments_digest, [0; 32]);
    assert_ne!(
        nodes[0].launch.arguments_digest,
        nodes[1].launch.arguments_digest
    );
    assert_eq!(scalar_plan_fields(plan), (27, 0, 0));
    assert!(scalar_plan_requires_zero_beta(plan));
    assert_eq!(scalar_node_count(plan), 2);
    assert_eq!(
        scalar_argument_layout(request, operands, plan, 0),
        ScalarArgumentLayout::default()
    );
    assert_eq!(
        scalar_argument_layout(request, operands, plan, 1).null_pointer_mask,
        0b1000
    );
}

#[test]
fn scalar_nt_prism_vector_plan_has_the_qualified_revision_and_two_exact_nodes() {
    let request = F32TriadRequest {
        op: ResolvedGemmOp::Nt,
        shape: F32TriadShape::contiguous(ResolvedGemmOp::Nt, (4_621, 384, 1_928)),
    };
    let operands = scalar_test_operands(ResolvedGemmOp::Nt, 1.0f32.to_bits());
    let plan = ScalarDispatchPlan::NtPrismVectorQualified;
    let nodes = scalar_physical_nodes(request, operands, plan).unwrap();
    assert_eq!(nodes.len(), 2);
    assert_eq!(
        nodes.iter().map(|node| node.symbol).collect::<Vec<_>>(),
        [
            "gemm_bi_transpose_f32_32x16_d768_v1",
            "gemm_bi_nn_prism_m64n64_bk16_s2_v1",
        ]
    );
    assert_eq!(nodes[0].tile, (32, 32));
    assert_eq!((nodes[0].bk, nodes[0].stages), (1, 1));
    assert_eq!(nodes[0].launch.grid_dim, (61, 12, 1));
    assert_eq!(nodes[0].launch.block_dim, (32, 16, 1));
    assert_eq!(nodes[0].launch.shared_mem_bytes, 0);
    assert_eq!(nodes[1].tile, (64, 64));
    assert_eq!((nodes[1].bk, nodes[1].stages), (16, 2));
    assert_eq!(nodes[1].launch.grid_dim, (438, 1, 1));
    assert_eq!(nodes[1].launch.block_dim, (128, 1, 1));
    assert_eq!(
        nodes[1].launch.shared_mem_bytes,
        SCALAR_NN_M64N64_DYNAMIC_SHARED_BYTES
    );
    assert_ne!(nodes[0].launch.arguments_digest, [0; 32]);
    assert_ne!(nodes[1].launch.arguments_digest, [0; 32]);
    assert_ne!(
        nodes[0].launch.arguments_digest,
        nodes[1].launch.arguments_digest
    );
    assert_eq!(scalar_plan_fields(plan), (30, 0, 0));
    assert!(scalar_plan_requires_zero_beta(plan));
    assert_eq!(scalar_node_count(plan), 2);
    assert_eq!(
        scalar_argument_layout(request, operands, plan, 0),
        ScalarArgumentLayout::default()
    );
    assert_eq!(
        scalar_argument_layout(request, operands, plan, 1).null_pointer_mask,
        0b1000
    );
    assert_eq!(
        scalar_transpose_scratch_elements(request, plan).unwrap(),
        Some(740_352)
    );
    assert_eq!(
        SCALAR_TRANSPOSE_SCRATCH_CAP_ELEMENTS,
        4_718_592
    );
}

#[test]
fn scalar_nt_d128_out_transpose_plan_has_the_qualified_revision_and_two_exact_nodes() {
    let request = F32TriadRequest {
        op: ResolvedGemmOp::Nt,
        shape: F32TriadShape::contiguous(ResolvedGemmOp::Nt, (1_024, 256, 128)),
    };
    let operands = scalar_test_operands(ResolvedGemmOp::Nt, 1.0f32.to_bits());
    let plan = ScalarDispatchPlan::NtD128OutTransposeM64N64Qualified;
    let nodes = scalar_physical_nodes(request, operands, plan).unwrap();
    assert_eq!(nodes.len(), 2);
    assert_eq!(
        nodes.iter().map(|node| node.symbol).collect::<Vec<_>>(),
        [
            "gemm_bi_transpose_f32_32x16_d768_v1",
            "gemm_bi_nn_m64n64_bk16_s2_v1",
        ]
    );
    assert_eq!(
        (nodes[0].tile, nodes[0].bk, nodes[0].stages),
        ((32, 32), 1, 1)
    );
    assert_eq!(nodes[0].launch.grid_dim, (4, 8, 1));
    assert_eq!(nodes[0].launch.block_dim, (32, 16, 1));
    assert_eq!(nodes[0].launch.shared_mem_bytes, 0);
    assert_eq!(
        (nodes[1].tile, nodes[1].bk, nodes[1].stages),
        ((64, 64), 16, 2)
    );
    assert_eq!(nodes[1].launch.grid_dim, (64, 1, 1));
    assert_eq!(nodes[1].launch.block_dim, (128, 1, 1));
    assert_eq!(
        nodes[1].launch.shared_mem_bytes,
        SCALAR_NN_M64N64_DYNAMIC_SHARED_BYTES
    );
    assert_ne!(nodes[0].launch.arguments_digest, [0; 32]);
    assert_ne!(nodes[1].launch.arguments_digest, [0; 32]);
    assert_ne!(
        nodes[0].launch.arguments_digest,
        nodes[1].launch.arguments_digest
    );
    assert_eq!(scalar_plan_fields(plan), (29, 0, 0));
    assert!(scalar_plan_requires_zero_beta(plan));
    assert_eq!(scalar_node_count(plan), 2);
    assert_eq!(
        scalar_argument_layout(request, operands, plan, 0),
        ScalarArgumentLayout::default()
    );
    assert_eq!(
        scalar_argument_layout(request, operands, plan, 1).null_pointer_mask,
        0b1000
    );
    assert_eq!(
        scalar_transpose_scratch_elements(request, plan).unwrap(),
        Some(32_768)
    );
}

#[test]
fn prepared_scalar_binding_uses_frozen_digest_and_rejects_symbol_config_or_order_changes() {
    let request = F32TriadRequest {
        op: ResolvedGemmOp::Nt,
        shape: F32TriadShape::contiguous(ResolvedGemmOp::Nt, (1_024, 256, 128)),
    };
    let operands = scalar_test_operands(ResolvedGemmOp::Nt, 1.0f32.to_bits());
    let nodes = scalar_physical_nodes(
        request,
        operands,
        ScalarDispatchPlan::NtD128OutTransposeM64N64Qualified,
    )
    .unwrap();
    assert_eq!(nodes.len(), 2);
    for node in &nodes {
        let config = LaunchConfig {
            grid_dim: node.launch.grid_dim,
            block_dim: node.launch.block_dim,
            shared_mem_bytes: node.launch.shared_mem_bytes,
        };
        assert_eq!(
            validate_prepared_scalar_binding(node.symbol, node.launch, node.symbol, config)
                .unwrap(),
            node.launch.arguments_digest
        );
        assert_ne!(node.launch.arguments_digest, [0; 32]);

        for wrong_config in [
            LaunchConfig {
                grid_dim: (config.grid_dim.0 + 1, config.grid_dim.1, config.grid_dim.2),
                ..config
            },
            LaunchConfig {
                block_dim: (
                    config.block_dim.0 + 1,
                    config.block_dim.1,
                    config.block_dim.2,
                ),
                ..config
            },
            LaunchConfig {
                shared_mem_bytes: config.shared_mem_bytes + 4,
                ..config
            },
        ] {
            assert!(
                validate_prepared_scalar_binding(
                    node.symbol,
                    node.launch,
                    node.symbol,
                    wrong_config,
                )
                .is_err()
            );
        }
    }
    let first_config = LaunchConfig {
        grid_dim: nodes[0].launch.grid_dim,
        block_dim: nodes[0].launch.block_dim,
        shared_mem_bytes: nodes[0].launch.shared_mem_bytes,
    };
    assert!(
        validate_prepared_scalar_binding(
            nodes[0].symbol,
            nodes[0].launch,
            nodes[1].symbol,
            first_config,
        )
        .is_err()
    );
    let mut zero_digest = nodes[0].launch;
    zero_digest.arguments_digest = [0; 32];
    assert!(
        validate_prepared_scalar_binding(
            nodes[0].symbol,
            zero_digest,
            nodes[0].symbol,
            first_config,
        )
        .is_err()
    );
}

#[test]
fn scalar_nt_d128_out_raw_and_prepared_identity_match() {
    let request = F32TriadRequest {
        op: ResolvedGemmOp::Nt,
        shape: F32TriadShape::contiguous(ResolvedGemmOp::Nt, (1_024, 256, 128)),
    };
    let operands = scalar_test_operands(ResolvedGemmOp::Nt, 1.0f32.to_bits());
    let raw_plan = qualified(request);
    let prepared_plan = qualified(request);
    assert_eq!(
        raw_plan,
        ScalarDispatchPlan::NtD128OutTransposeM64N64Qualified
    );
    assert_eq!(prepared_plan, raw_plan);
    assert_eq!(
        scalar_physical_nodes(request, operands, prepared_plan).unwrap(),
        scalar_physical_nodes(request, operands, raw_plan).unwrap()
    );
}

#[test]
fn scalar_tn_m16n16_raw_and_prepared_one_node_identity_match() {
    let request = F32TriadRequest {
        op: ResolvedGemmOp::Tn,
        shape: F32TriadShape::contiguous(ResolvedGemmOp::Tn, (256, 512, 384)),
    };
    let operands = scalar_test_operands(ResolvedGemmOp::Tn, 1.0f32.to_bits());
    let raw_plan = qualified(request);
    let prepared_plan = qualified(request);
    assert_eq!(raw_plan, ScalarDispatchPlan::TnM16N16SplitM16Qualified);
    assert_eq!(prepared_plan, raw_plan);

    let raw_nodes = scalar_physical_nodes(request, operands, raw_plan).unwrap();
    let prepared_nodes = scalar_physical_nodes(request, operands, prepared_plan).unwrap();
    assert_eq!(prepared_nodes, raw_nodes);
    assert_eq!(raw_nodes.len(), scalar_node_count(raw_plan));
    assert_eq!(raw_nodes.len(), 1);
    let node = raw_nodes[0];
    assert_eq!(node.symbol, "gemm_bi_tn_m16n16_bk16_s2_splitm16_v1");
    assert_eq!(node.tile, (16, 16));
    assert_eq!((node.bk, node.stages), (16, 2));
    assert_eq!(node.launch.grid_dim, (768, 1, 1));
    assert_eq!(node.launch.block_dim, (64, 1, 1));
    assert_eq!(node.launch.shared_mem_bytes, 4_096);
    assert_ne!(node.launch.arguments_digest, [0; 32]);
    assert_eq!(scalar_plan_fields(raw_plan), (35, 0, 0));
    assert_eq!(
        scalar_argument_layout(request, operands, raw_plan, 0),
        ScalarArgumentLayout::default()
    );
    assert_eq!(
        scalar_route_contract(node.symbol),
        (
            PhysicalGemmBackend::ScalarFmaTnSplitMF64ReduceV1,
            ResolvedNumericContract::ScalarFmaTnSplitMF64ReduceV1,
            ResolvedOutputOwnership::OneCtaPerOutputTileV1,
        )
    );
    assert!(!raw_plan.needs_transpose_scratch());
    assert!(!raw_plan.needs_split_scratch());
}

#[test]
fn scalar_nn_m32n64_splitk32_raw_and_prepared_identity_match() {
    let request = F32TriadRequest {
        op: ResolvedGemmOp::Nn,
        shape: F32TriadShape::contiguous(ResolvedGemmOp::Nn, (128, 8_192, 128)),
    };
    let operands = scalar_test_operands(ResolvedGemmOp::Nn, 1.0f32.to_bits());
    let raw_plan = qualified(request);
    let prepared_plan = qualified(request);
    assert_eq!(raw_plan, ScalarDispatchPlan::NnM32N64SplitK32Qualified);
    assert_eq!(prepared_plan, raw_plan);

    let raw_nodes = scalar_physical_nodes(request, operands, raw_plan).unwrap();
    let prepared_nodes = scalar_physical_nodes(request, operands, prepared_plan).unwrap();
    assert_eq!(prepared_nodes, raw_nodes);
    assert_eq!(raw_nodes.len(), scalar_node_count(raw_plan));
    assert_eq!(raw_nodes.len(), 2);
    assert_eq!(
        raw_nodes.iter().map(|node| node.symbol).collect::<Vec<_>>(),
        [
            "gemm_bi_nn_splitk32_m32n64_exact_v1",
            "gemm_bi_splitk_reduce",
        ]
    );
    assert!(
        raw_nodes
            .iter()
            .all(|node| node.launch.arguments_digest != [0; 32])
    );
    assert_ne!(
        raw_nodes[0].launch.arguments_digest,
        raw_nodes[1].launch.arguments_digest
    );
}

#[test]
fn scalar_nt_m2n16_raw_and_prepared_one_node_identity_match() {
    let request = F32TriadRequest {
        op: ResolvedGemmOp::Nt,
        shape: F32TriadShape::contiguous(ResolvedGemmOp::Nt, (512, 16, 2_048)),
    };
    let operands = scalar_test_operands(ResolvedGemmOp::Nt, 1.0f32.to_bits());
    let raw_plan = qualified(request);
    let prepared_plan = qualified(request);
    assert_eq!(raw_plan, ScalarDispatchPlan::NtM2N16SplitK32Qualified);
    assert_eq!(prepared_plan, raw_plan);

    let raw_nodes = scalar_physical_nodes(request, operands, raw_plan).unwrap();
    let prepared_nodes = scalar_physical_nodes(request, operands, prepared_plan).unwrap();
    assert_eq!(prepared_nodes, raw_nodes);
    assert_eq!(raw_nodes.len(), scalar_node_count(raw_plan));
    assert_eq!(raw_nodes.len(), 1);
    let node = raw_nodes[0];
    assert_eq!(node.symbol, "gemm_bi_nt_m2n16_bk64_splitk32_v1");
    assert_eq!(node.tile, (2, 16));
    assert_eq!((node.bk, node.stages), (64, 2));
    assert_eq!(node.launch.grid_dim, (256, 1, 1));
    assert_eq!(node.launch.block_dim, (64, 1, 1));
    assert_eq!(node.launch.shared_mem_bytes, 17_984);
    assert_ne!(node.launch.arguments_digest, [0; 32]);
    assert_eq!(scalar_plan_fields(raw_plan), (31, 0, 0));
    assert!(!raw_plan.needs_transpose_scratch());
    assert!(!raw_plan.needs_split_scratch());
}

#[test]
fn scalar_nt_prism_raw_and_prepared_identity_match() {
    let request = F32TriadRequest {
        op: ResolvedGemmOp::Nt,
        shape: F32TriadShape::contiguous(ResolvedGemmOp::Nt, (4_621, 384, 1_928)),
    };
    let operands = scalar_test_operands(ResolvedGemmOp::Nt, 1.0f32.to_bits());
    let raw_plan = qualified(request);
    let prepared_plan = qualified(request);
    assert_eq!(raw_plan, ScalarDispatchPlan::NtPrismVectorQualified);
    assert_eq!(prepared_plan, raw_plan);
    assert_eq!(
        scalar_physical_nodes(request, operands, prepared_plan).unwrap(),
        scalar_physical_nodes(request, operands, raw_plan).unwrap()
    );
}

#[test]
fn scalar_nt_large_deep_raw_and_prepared_identity_match() {
    let request = F32TriadRequest {
        op: ResolvedGemmOp::Nt,
        shape: F32TriadShape::contiguous(ResolvedGemmOp::Nt, (4_096, 3_072, 1_536)),
    };
    let operands = scalar_test_operands(ResolvedGemmOp::Nt, 1.0f32.to_bits());
    let raw_plan = qualified(request);
    let prepared_plan = qualified(request);
    assert_eq!(
        raw_plan,
        ScalarDispatchPlan::NtLargeDeepTransposeM64N64Qualified
    );
    assert_eq!(prepared_plan, raw_plan);
    assert_eq!(
        scalar_physical_nodes(request, operands, prepared_plan).unwrap(),
        scalar_physical_nodes(request, operands, raw_plan).unwrap()
    );
}

#[test]
fn scalar_transpose_workspace_extent_is_checked_per_plan() {
    let large_deep = F32TriadRequest {
        op: ResolvedGemmOp::Nt,
        shape: F32TriadShape::contiguous(ResolvedGemmOp::Nt, (4_096, 3_072, 1_536)),
    };
    assert_eq!(
        scalar_transpose_scratch_elements(
            large_deep,
            ScalarDispatchPlan::NtLargeDeepTransposeM64N64Qualified,
        )
        .unwrap(),
        Some(SCALAR_TRANSPOSE_SCRATCH_CAP_ELEMENTS)
    );
    let oversized = F32TriadRequest {
        shape: F32TriadShape {
            k: large_deep.shape.k + 1,
            ..large_deep.shape
        },
        ..large_deep
    };
    assert!(
        scalar_transpose_scratch_elements(
            oversized,
            ScalarDispatchPlan::NtLargeDeepTransposeM64N64Qualified,
        )
        .is_err()
    );
    assert_eq!(
        scalar_transpose_scratch_elements(
            large_deep,
            ScalarDispatchPlan::NtFinal { slim: false },
        )
        .unwrap(),
        None
    );
}

#[test]
fn plans_are_frozen_where_their_offsets_are_addressable() {
    let defined = |op, dims, plan| {
        let request = F32TriadRequest {
            op,
            shape: F32TriadShape::contiguous(op, dims),
        };
        scalar_nodes_defined(request, scalar_test_operands(op, ONE), plan)
    };
    let thin = ScalarDispatchPlan::NnUltraThin;
    assert!(defined(ResolvedGemmOp::Nn, (3, 1 << 29, 5), thin));
    assert!(!defined(ResolvedGemmOp::Nn, (3, 1 << 30, 5), thin));
    let tail = |k_tail| ScalarDispatchPlan::NtSplitKTail { k_main: 64, k_tail };
    assert!(defined(ResolvedGemmOp::Nt, (32, 95, 128), tail(31)));
    assert!(!defined(ResolvedGemmOp::Nt, (32, 95, 128), tail(usize::MAX)));
}

#[test]
fn scalar_nt_d768_out_raw_and_prepared_paths_freeze_the_same_identity() {
    let request = F32TriadRequest {
        op: ResolvedGemmOp::Nt,
        shape: F32TriadShape::contiguous(ResolvedGemmOp::Nt, (2_048, 1_536, 768)),
    };
    let operands = scalar_test_operands(ResolvedGemmOp::Nt, 1.0f32.to_bits());
    let raw_plan = qualified(request);
    let prepared_plan = qualified(request);
    assert_eq!(
        raw_plan,
        ScalarDispatchPlan::NtD768OutTransposeM64N64Qualified
    );
    assert_eq!(prepared_plan, raw_plan);

    let raw_nodes = scalar_physical_nodes(request, operands, raw_plan).unwrap();
    let prepared_nodes = scalar_physical_nodes(request, operands, prepared_plan).unwrap();
    assert_eq!(prepared_nodes, raw_nodes);
    assert_eq!(raw_nodes.len(), scalar_node_count(raw_plan));
    assert_eq!(raw_nodes.len(), 2);
    assert_eq!(scalar_plan_fields(raw_plan), (26, 0, 0));
    assert!(raw_plan.needs_transpose_scratch());
    assert!(!raw_plan.needs_split_scratch());
}

#[test]
fn scalar_node_identity_distinguishes_equal_symbol_sequences() {
    let left = scalar_fixture(ResolvedGemmOp::Nn, (32, 64, 128));
    let right = scalar_fixture(ResolvedGemmOp::Nn, (32, 96, 128));
    let left_nodes = scalar_physical_nodes(left.0, left.1, left.2).unwrap();
    let right_nodes = scalar_physical_nodes(right.0, right.1, right.2).unwrap();
    let left_symbols: Vec<_> = left_nodes.iter().map(|node| node.symbol).collect();
    let right_symbols: Vec<_> = right_nodes.iter().map(|node| node.symbol).collect();
    assert_eq!(left_symbols, right_symbols);
    assert_ne!(left_nodes, right_nodes);
    assert_ne!(
        left_nodes[0].launch.arguments_digest,
        right_nodes[0].launch.arguments_digest
    );
}

#[test]
fn scalar_splitk_symbols_have_stage_specific_route_contracts() {
    let partial = (
        PhysicalGemmBackend::ScalarFmaSplitKPartialV1,
        ResolvedNumericContract::ScalarFmaSplitKPartialV1,
        ResolvedOutputOwnership::OneCtaPerOutputTilePerSplitKPartitionV1,
    );
    assert_eq!(partial.0.code(), 17);
    assert_eq!(partial.1.code(), 16);
    assert_eq!(partial.2.code(), 9);
    for symbol in [
        "gemm_bi_nn_splitk32_partial",
        "gemm_bi_nn_splitk_slim_partial",
    ] {
        assert_eq!(scalar_route_contract(symbol), partial, "{symbol}");
    }

    let reducer = (
        PhysicalGemmBackend::ScalarFmaSplitKF32ReduceV1,
        ResolvedNumericContract::ScalarFmaSplitKF32ReduceV1,
        ResolvedOutputOwnership::OneThreadPerOutputElementFixedSplitKReduceV1,
    );
    assert_eq!(reducer.0.code(), 18);
    assert_eq!(reducer.1.code(), 17);
    assert_eq!(reducer.2.code(), 10);
    assert_eq!(scalar_route_contract("gemm_bi_splitk_reduce"), reducer);
    assert_ne!(partial, reducer);
    assert_ne!(
        partial,
        scalar_route_contract("gemm_bi_nn_splitk32_partial_typo")
    );
}

#[test]
fn scalar_argument_layout_tracks_the_physical_pointer_abi() {
    let (nn_request, mut nn_operands, nn_plan) =
        scalar_fixture(ResolvedGemmOp::Nn, (32, 32, 128));
    nn_operands.bias = None;
    assert!(scalar_plan_requires_zero_beta(nn_plan));
    assert_eq!(
        scalar_argument_layout(nn_request, nn_operands, nn_plan, 0),
        ScalarArgumentLayout::default()
    );
    assert_eq!(
        scalar_argument_layout(nn_request, nn_operands, nn_plan, 1).null_pointer_mask,
        0b11100
    );

    let (tn_request, tn_operands, tn_plan) =
        scalar_fixture(ResolvedGemmOp::Tn, (256, 128, 128));
    assert!(!scalar_plan_requires_zero_beta(tn_plan));
    for index in 0..scalar_node_count(tn_plan) {
        assert_eq!(
            scalar_argument_layout(tn_request, tn_operands, tn_plan, index),
            ScalarArgumentLayout::default()
        );
    }

    let (nt_request, nt_operands, nt_plan) = scalar_fixture(ResolvedGemmOp::Nt, (32, 95, 128));
    assert_eq!(
        scalar_argument_layout(nt_request, nt_operands, nt_plan, 2).null_pointer_mask,
        0b11100
    );
    let tail = scalar_argument_layout(nt_request, nt_operands, nt_plan, 3);
    assert_eq!(tail.output_offset, 0);
    assert_eq!(tail.output_column, Some(64));
    assert_eq!(tail.b_offset, 64 * 128 * 4);
    assert_eq!(tail.null_pointer_mask, 0);
}

#[test]
fn f32_triad_operand_validation_rejects_null_and_misaligned_pointers() {
    for op in [ResolvedGemmOp::Nn, ResolvedGemmOp::Tn, ResolvedGemmOp::Nt] {
        let (request, operands, _) = scalar_fixture(op, (3, 4, 5));
        validate_f32_triad_operands(request, operands)
            .unwrap_or_else(|error| panic!("aligned {op:?} operands were rejected: {error:?}"));

        validate_f32_triad_operands(
            request,
            F32TriadOperands {
                b: operands.b + std::mem::size_of::<f32>() as u64,
                ..operands
            },
        )
        .unwrap_or_else(|error| {
            panic!("4-byte-aligned B+1 f32 {op:?} operand was rejected: {error:?}")
        });

        for (name, misaligned) in [
            (
                "A",
                F32TriadOperands {
                    a: operands.a + 2,
                    ..operands
                },
            ),
            (
                "B",
                F32TriadOperands {
                    b: operands.b + 2,
                    ..operands
                },
            ),
        ] {
            let error = validate_f32_triad_operands(request, misaligned)
                .expect_err("misaligned f32 inputs must be rejected");
            assert!(error.message().contains(&format!("{name} pointer")), "{error:?}");
        }

        let zero_reduction_operands = F32TriadOperands {
            a: 0,
            b: 0,
            ..operands
        };
        validate_f32_triad_operands(zero_request(op), zero_reduction_operands)
            .unwrap_or_else(|error| panic!("K=0 {op:?} operands were rejected: {error:?}"));
    }

    let (request, operands, _) = scalar_fixture(ResolvedGemmOp::Nn, (3, 4, 5));
    for output in [0, 0x1002] {
        let error =
            validate_f32_triad_operands(request, F32TriadOperands { output, ..operands })
                .expect_err("null and misaligned outputs must be rejected");
        assert!(error.message().contains("output pointer"), "{error:?}");
    }
    for bias in [0, 0x2002] {
        let error = validate_f32_triad_operands(
            request,
            F32TriadOperands {
                bias: Some(bias),
                ..operands
            },
        )
        .expect_err("null and misaligned biases must be rejected");
        assert!(error.message().contains("bias pointer"), "{error:?}");
    }
}

#[test]
fn backward_launch_plan_uses_the_canonical_op_and_contiguous_abi() {
    let (tn_dims, tn_request, tn_plan) = backward_plan(ResolvedGemmOp::Tn, (32, 4, 1));
    assert_eq!(
        scalar_backward_request(ResolvedGemmOp::Tn, (32, 4, 1)).unwrap(),
        (tn_dims, tn_request)
    );
    assert_eq!(tn_dims.tuple(), (32, 4, 1));
    assert_eq!(
        tn_request.shape,
        F32TriadShape {
            m: 32,
            k: 4,
            n: 1,
            lda: 4,
            ldb: 1,
            ldc: 1,
        }
    );
    assert_eq!(tn_plan, ScalarDispatchPlan::TnGemv);

    let (nt_dims, nt_request, nt_plan) = backward_plan(ResolvedGemmOp::Nt, (1, 7, 1));
    assert_eq!(
        scalar_backward_request(ResolvedGemmOp::Nt, (1, 7, 1)).unwrap(),
        (nt_dims, nt_request)
    );
    assert_eq!(nt_dims.tuple(), (1, 7, 1));
    assert_eq!(
        nt_request.shape,
        F32TriadShape {
            m: 1,
            k: 7,
            n: 1,
            lda: 1,
            ldb: 1,
            ldc: 7,
        }
    );
    assert_eq!(nt_plan, ScalarDispatchPlan::NtGemv);
}

#[test]
fn tn_splitm_plan_matches_enqueue_geometry_at_the_batch_boundary() {
    let (_, request, plan) = backward_plan(ResolvedGemmOp::Tn, (256, 128, 128));
    assert_eq!(
        plan,
        ScalarDispatchPlan::TnSplitM {
            m_chunk: 16,
            chunks: 16,
        }
    );
    let nodes =
        scalar_physical_nodes(request, scalar_test_operands(ResolvedGemmOp::Tn, 1.0f32.to_bits()), plan)
            .unwrap();
    assert_eq!(nodes.len(), 2);
    assert_eq!(nodes[0].symbol, "gemm_bi_tn_splitm_partial_aligned");
    assert_eq!(nodes[0].launch.grid_dim, (1, 1, 16));
    assert_eq!(nodes[0].launch.block_dim, (256, 1, 1));
    assert_eq!(nodes[1].symbol, "gemm_bi_splitm_reduce");
    assert_eq!(nodes[1].launch.grid_dim, (64, 1, 1));
    assert_eq!(nodes[1].launch.block_dim, (256, 1, 1));

    let (_, below_request, below_plan) = backward_plan(ResolvedGemmOp::Tn, (255, 128, 128));
    assert_eq!(below_plan, ScalarDispatchPlan::TnFinal { slim: true });
    let below = scalar_physical_nodes(
        below_request,
        scalar_test_operands(ResolvedGemmOp::Tn, 1.0f32.to_bits()),
        below_plan,
    )
    .unwrap();
    assert_eq!(below.len(), 1);
    assert_eq!(below[0].symbol, "gemm_bi_tn_slim");
}

#[test]
fn tn_narrow_splitm_qualified_manifests_have_exact_two_node_geometry() {
    for (dims, partition, partial_grid, reducer_grid) in [
        ((1024, 47, 17), (32, 32), (1, 1, 32), (4, 1, 1)),
        ((1024, 128, 25), (32, 32), (2, 1, 32), (13, 1, 1)),
        ((4096, 64, 64), (48, 86), (1, 2, 86), (16, 1, 1)),
    ] {
        let (_, request, automatic) = backward_plan(ResolvedGemmOp::Tn, dims);
        assert_eq!(automatic, ScalarDispatchPlan::TnNarrow, "{dims:?}");
        let aligned = scalar_test_operands(ResolvedGemmOp::Tn, 1.0f32.to_bits());
        let plan = qualified(request);
        assert_eq!(
            plan,
            ScalarDispatchPlan::TnNarrowSplitM {
                m_chunk: partition.0,
                chunks: partition.1,
            },
            "{dims:?}"
        );

        let aligned_nodes = scalar_physical_nodes(request, aligned, plan).unwrap();
        assert_eq!(aligned_nodes.len(), 2, "{dims:?}");
        assert_eq!(
            aligned_nodes[0].symbol, "gemm_bi_tn_narrow_splitm_partial_aligned",
            "{dims:?}"
        );
        assert_eq!(aligned_nodes[0].launch.grid_dim, partial_grid, "{dims:?}");
        assert_eq!(aligned_nodes[0].launch.block_dim, (128, 1, 1), "{dims:?}");
        assert_eq!(aligned_nodes[1].symbol, "gemm_bi_splitm_reduce", "{dims:?}");
        assert_eq!(aligned_nodes[1].launch.grid_dim, reducer_grid, "{dims:?}");
        assert_eq!(aligned_nodes[1].launch.block_dim, (256, 1, 1), "{dims:?}");

        for unaligned in [
            F32TriadOperands {
                a: aligned.a + std::mem::size_of::<f32>() as u64,
                ..aligned
            },
            F32TriadOperands {
                b: aligned.b + std::mem::size_of::<f32>() as u64,
                ..aligned
            },
            F32TriadOperands {
                a: aligned.a + std::mem::size_of::<f32>() as u64,
                b: aligned.b + std::mem::size_of::<f32>() as u64,
                ..aligned
            },
        ] {
            let unaligned_nodes = scalar_physical_nodes(request, unaligned, plan).unwrap();
            assert_eq!(unaligned_nodes.len(), 2, "{dims:?}");
            assert_eq!(
                unaligned_nodes[0].symbol, "gemm_bi_tn_narrow_splitm_partial",
                "{dims:?}"
            );
            assert_eq!(unaligned_nodes[0].launch.grid_dim, partial_grid, "{dims:?}");
            assert_eq!(
                unaligned_nodes[1].symbol, "gemm_bi_splitm_reduce",
                "{dims:?}"
            );
            assert_eq!(unaligned_nodes[1].launch.grid_dim, reducer_grid, "{dims:?}");
        }

        let output_offset = F32TriadOperands {
            output: aligned.output + std::mem::size_of::<f32>() as u64,
            ..aligned
        };
        let output_offset_nodes = scalar_physical_nodes(request, output_offset, plan).unwrap();
        assert_eq!(
            output_offset_nodes[0].symbol, "gemm_bi_tn_narrow_splitm_partial_aligned",
            "{dims:?}"
        );
    }
}

#[test]
fn tn_big_and_splitm_physical_symbols_separate_aligned_hot_paths() {
    for (dims, aligned_symbol, fallback_symbol) in [
        (
            (256, 128, 128),
            "gemm_bi_tn_splitm_partial_aligned",
            "gemm_bi_tn_splitm_partial",
        ),
        ((128, 1024, 1024), "gemm_bi_tn_aligned", "gemm_bi_tn"),
    ] {
        let (_, request, plan) = backward_plan(ResolvedGemmOp::Tn, dims);
        let aligned = scalar_test_operands(ResolvedGemmOp::Tn, 1.0f32.to_bits());
        let mut unaligned = aligned;
        unaligned.a += std::mem::size_of::<f32>() as u64;

        let aligned_nodes = scalar_physical_nodes(request, aligned, plan).unwrap();
        let unaligned_nodes = scalar_physical_nodes(request, unaligned, plan).unwrap();
        assert_eq!(aligned_nodes[0].symbol, aligned_symbol, "{dims:?}");
        assert_eq!(unaligned_nodes[0].symbol, fallback_symbol, "{dims:?}");
        assert_ne!(
            aligned_nodes[0].launch.arguments_digest,
            unaligned_nodes[0].launch.arguments_digest,
            "{dims:?}"
        );
    }
}

#[test]
fn nt_k_tail_34_node_plan_preserves_repeated_symbol_arguments_and_neighbors() {
    let (_, request, plan) = backward_plan(ResolvedGemmOp::Nt, (32, 95, 128));
    assert_eq!(
        plan,
        ScalarDispatchPlan::NtSplitKTail {
            k_main: 64,
            k_tail: 31,
        }
    );
    let operands = scalar_test_operands(ResolvedGemmOp::Nt, 1.0f32.to_bits());
    let nodes = scalar_physical_nodes(request, operands, plan).unwrap();
    assert_eq!(nodes.len(), 34);
    assert_eq!(nodes[0].symbol, "gemm_bi_transpose_f32_2d");
    assert_eq!(nodes[0].launch.grid_dim, (4, 2, 1));
    assert_eq!(nodes[0].launch.block_dim, (32, 32, 1));
    assert_eq!(nodes[1].symbol, "gemm_bi_nn_splitk32_partial");
    assert_eq!(nodes[1].launch.grid_dim, (4, 1, 1));
    assert_eq!(nodes[2].symbol, "gemm_bi_splitk_reduce");
    assert_eq!(nodes[2].launch.grid_dim, (8, 1, 1));
    for node in &nodes[3..] {
        assert_eq!(node.symbol, "gemm_bi_dx_col_gemv");
        assert_eq!(node.launch.grid_dim, (1, 1, 1));
        assert_eq!(node.launch.block_dim, (128, 1, 1));
    }
    for (index, node) in nodes[3..].iter().enumerate() {
        assert!(
            nodes[3..index + 3]
                .iter()
                .all(|prior| prior.launch.arguments_digest != node.launch.arguments_digest),
            "tail node {index} collided with an earlier physical argument digest"
        );
    }

    let (_, tail_30_request, tail_30_plan) = backward_plan(ResolvedGemmOp::Nt, (32, 94, 128));
    assert_eq!(
        scalar_physical_nodes(tail_30_request, operands, tail_30_plan)
            .unwrap()
            .len(),
        33
    );
    let (_, aligned_request, aligned_plan) = backward_plan(ResolvedGemmOp::Nt, (32, 96, 128));
    assert!(matches!(
        aligned_plan,
        ScalarDispatchPlan::NtSplitKMain {
            n_main: 128,
            n_tail: 0
        }
    ));
    assert_eq!(
        scalar_physical_nodes(aligned_request, operands, aligned_plan)
            .unwrap()
            .len(),
        3
    );

    for (dims, expected_plan) in [
        ((31, 95, 128), ScalarDispatchPlan::NtSmallBatchWide),
        ((32, 95, 127), ScalarDispatchPlan::NtNarrow),
        ((32, 95, 129), ScalarDispatchPlan::NtMidBatchWide),
    ] {
        let (_, neighbor_request, neighbor_plan) = backward_plan(ResolvedGemmOp::Nt, dims);
        assert_eq!(neighbor_plan, expected_plan, "neighbor {dims:?}");
        let neighbor =
            scalar_physical_nodes(neighbor_request, operands, neighbor_plan).unwrap();
        assert_eq!(neighbor.len(), 1, "neighbor {dims:?}");
        assert_eq!(neighbor[0].symbol, "gemm_bi_nt_narrow", "neighbor {dims:?}");
    }

    let alpha_mutation =
        scalar_physical_nodes(request, scalar_test_operands(ResolvedGemmOp::Nt, 2.0f32.to_bits()), plan)
            .unwrap();
    assert_ne!(
        nodes[0].launch.arguments_digest,
        alpha_mutation[0].launch.arguments_digest
    );
}
