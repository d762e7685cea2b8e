use gemm_bi_triad::arith::{
    checked_byte_offset, checked_grid_product, checked_i32, checked_ptr_add, checked_tile_grid,
    checked_u32, checked_u32_product, div_ceil_u32, div_ceil_u64, div_ceil_usize,
};
use gemm_bi_triad::arguments::{
    PhysicalScalarKernelArgument, PhysicalScalarKernelArguments, ScalarLaunchArgs,
};
use gemm_bi_triad::error::LaunchError;
use gemm_bi_triad::kernel::{KernelArg, LaunchConfig, LaunchProgram};
use gemm_bi_triad::scalar_dw::gemm_bi_backward_dw;
use gemm_bi_triad::scalar_dx::gemm_bi_backward_dx;
use gemm_bi_triad::scalar_forward::{gemm_bi_forward, gemm_bi_forward_sub, GemmBiFwdSubOperands};
use gemm_bi_triad::scalar_launch::ScalarWorkspace;
use gemm_bi_triad::scalar_nodes::scalar_physical_nodes;
use gemm_bi_triad::scalar_plan::ScalarDispatchPlan;
use gemm_bi_triad::shape::{
    F32TriadOperands, F32TriadRequest, F32TriadShape, GemmDims, ResolvedGemmOp,
};

const ONE: u32 = 0x3f80_0000;
const ZERO: u32 = 0;

const WORKSPACE: ScalarWorkspace = ScalarWorkspace {
    split: 0x10_0000,
    transpose: 0x20_0000,
    transpose_len: 4_718_592,
};

fn forward(dims: (usize, usize, usize), plan: ScalarDispatchPlan) -> LaunchProgram {
    gemm_bi_forward(0x1000, 0x2000, 0x3000, 0x4000, dims, Ok(plan), WORKSPACE)
}

#[test]
fn a_single_column_is_one_gemv() {
    let program = forward((10, 64, 1), ScalarDispatchPlan::NnGemv);
    assert_eq!(program.outcome, Ok(()));
    assert_eq!(program.launches.len(), 1);
    assert_eq!(program.launches[0].symbol, "gemm_bi_nn_gemv");
    assert_eq!(program.launches[0].config, LaunchConfig::linear(3, 128, 0));
    assert_eq!(
        program.launches[0].args,
        vec![
            KernelArg::Pointer(0x1000),
            KernelArg::Pointer(0x2000),
            KernelArg::Pointer(0x3000),
            KernelArg::Pointer(0x4000),
            KernelArg::Float(ONE),
            KernelArg::Float(ZERO),
            KernelArg::Int(10),
            KernelArg::Int(64),
            KernelArg::Int(64),
            KernelArg::Int(1),
        ]
    );
}

#[test]
fn a_k_tail_is_read_behind_the_main_part() {
    let plan = ScalarDispatchPlan::NnSplitKThinTail {
        k_main: 96,
        k_tail: 4,
    };
    let program = forward((4, 100, 8), plan);
    assert_eq!(program.outcome, Ok(()));
    assert_eq!(program.launches.len(), 2);
    assert_eq!(program.launches[0].symbol, "gemm_bi_nn_splitk32_partial");
    assert_eq!(program.launches[0].config.grid_dim, (3, 1, 1));
    assert_eq!(program.launches[1].symbol, "gemm_bi_splitk_reduce");
    assert!(program.launches[1]
        .args
        .contains(&KernelArg::Pointer(0x2000 + 96 * 4)));
    assert!(program.launches[1]
        .args
        .contains(&KernelArg::Pointer(0x3000 + 96 * 8 * 4)));
}

#[test]
fn the_batch_enters_a_plan_only_as_its_row_count() {
    for plan in [
        ScalarDispatchPlan::NnNarrow,
        ScalarDispatchPlan::NnSplitKThin,
        ScalarDispatchPlan::NnFinal { slim: true },
    ] {
        let few = forward((3, 128, 40), plan);
        let many = forward((700, 128, 40), plan);
        assert_eq!(few.outcome, Ok(()));
        assert_eq!(many.outcome, Ok(()));
        assert_eq!(few.launches.len(), many.launches.len());
        for (left, right) in few.launches.iter().zip(&many.launches) {
            assert_eq!(left.symbol, right.symbol);
            assert_eq!(left.config.block_dim, right.config.block_dim);
            assert_eq!(left.config.shared_mem_bytes, right.config.shared_mem_bytes);
            assert_eq!(left.args.len(), right.args.len());
            for (a, b) in left.args.iter().zip(&right.args) {
                assert!(a == b || (*a == KernelArg::Int(3) && *b == KernelArg::Int(700)));
            }
        }
    }
}

#[test]
fn batches_in_other_buffers_run_the_same_launches() {
    let plan = ScalarDispatchPlan::NnSplitKThinTail {
        k_main: 96,
        k_tail: 4,
    };
    let near = gemm_bi_forward(0x1000, 0x2000, 0x3000, 0x4000, (4, 100, 8), Ok(plan), WORKSPACE);
    let far = gemm_bi_forward(
        0x1_1000,
        0x2_2000,
        0x3_3000,
        0x4_4000,
        (9, 100, 8),
        Ok(plan),
        ScalarWorkspace {
            split: 0x50_0000,
            ..WORKSPACE
        },
    );
    assert_eq!(near.launches.len(), far.launches.len());
    let moves = [0x1_0000, 0x2_0000, 0x3_0000, 0x4_0000, 0x40_0000];
    for (left, right) in near.launches.iter().zip(&far.launches) {
        assert_eq!(left.symbol, right.symbol);
        assert_eq!(left.config.block_dim, right.config.block_dim);
        assert_eq!(left.args.len(), right.args.len());
        for (a, b) in left.args.iter().zip(&right.args) {
            match (a, b) {
                (KernelArg::Pointer(a), KernelArg::Pointer(b)) => {
                    assert!(a == b || moves.contains(&(b - a)));
                }
                _ => assert!(a == b || (*a == KernelArg::Int(4) && *b == KernelArg::Int(9))),
            }
        }
    }
}

#[test]
fn a_packed_copy_runs_the_launches_of_its_strided_rows() {
    let plan = ScalarDispatchPlan::NnSplitKThinTail {
        k_main: 96,
        k_tail: 4,
    };
    let operands = GemmBiFwdSubOperands {
        x_ptr: 0x2000,
        lda: 130,
        w_ptr: 0x3000,
        bias_ptr: 0,
    };
    let dims = (4, 100, 8);
    let strided = gemm_bi_forward_sub(0x1000, operands, dims, Ok(plan), WORKSPACE);
    let packed = gemm_bi_forward(0x1000, 0x7_2000, 0x3000, 0, dims, Ok(plan), WORKSPACE);
    assert_eq!(strided.outcome, packed.outcome);
    assert_eq!(strided.launches.len(), packed.launches.len());
    for (left, right) in strided.launches.iter().zip(&packed.launches) {
        assert_eq!(left.symbol, right.symbol);
        assert_eq!(left.config, right.config);
        for (a, b) in left.args.iter().zip(&right.args) {
            match (a, b) {
                (KernelArg::Pointer(a), KernelArg::Pointer(b)) => {
                    assert!(a == b || b - a == 0x7_0000);
                }
                _ => assert!(a == b || (*a == KernelArg::Int(130) && *b == KernelArg::Int(100))),
            }
        }
    }
}

#[test]
fn a_strided_forward_product_reads_rows_at_their_stride() {
    let operands = GemmBiFwdSubOperands {
        x_ptr: 0x2000,
        lda: 96,
        w_ptr: 0x3000,
        bias_ptr: 0,
    };
    let program = gemm_bi_forward_sub(
        0x1000,
        operands,
        (10, 64, 1),
        Ok(ScalarDispatchPlan::NnGemv),
        WORKSPACE,
    );
    assert_eq!(program.launches[0].args[8], KernelArg::Int(96));
    let short = GemmBiFwdSubOperands {
        lda: 63,
        ..operands
    };
    let refused = gemm_bi_forward_sub(
        0x1000,
        short,
        (10, 64, 1),
        Ok(ScalarDispatchPlan::NnGemv),
        WORKSPACE,
    );
    assert!(matches!(
        refused.outcome,
        Err(LaunchError::InvalidDimensions(_))
    ));
    assert!(refused.launches.is_empty());
}

#[test]
fn gradients_take_their_operands_in_their_own_order() {
    let dw = gemm_bi_backward_dw(
        0x1000,
        0x2000,
        0x3000,
        (128, 64, 64),
        Ok(ScalarDispatchPlan::TnFinal { slim: true }),
        WORKSPACE,
    );
    assert_eq!(dw.outcome, Ok(()));
    assert_eq!(dw.launches.len(), 1);
    assert_eq!(dw.launches[0].args[0], KernelArg::Pointer(0x1000));
    assert_eq!(dw.launches[0].args[1], KernelArg::Pointer(0x3000));
    assert_eq!(dw.launches[0].args[2], KernelArg::Pointer(0x2000));
    let dx = gemm_bi_backward_dx(
        0x1000,
        0x2000,
        0x3000,
        (128, 64, 64),
        Ok(ScalarDispatchPlan::NtFinal { slim: true }),
        WORKSPACE,
    );
    assert_eq!(dx.outcome, Ok(()));
    assert_eq!(dx.launches[0].args[0], KernelArg::Pointer(0x1000));
    assert_eq!(dx.launches[0].args[1], KernelArg::Pointer(0x2000));
    assert_eq!(dx.launches[0].args[2], KernelArg::Pointer(0x3000));
}

#[test]
fn an_undispatched_product_enqueues_nothing() {
    let refusal = LaunchError::Rejected("no plan");
    let program = gemm_bi_forward(
        0x1000,
        0x2000,
        0x3000,
        0,
        (10, 64, 1),
        Err(refusal),
        WORKSPACE,
    );
    assert_eq!(program.outcome, Err(refusal));
    assert!(program.launches.is_empty());
    let huge = gemm_bi_forward(
        0x1000,
        0x2000,
        0x3000,
        0,
        (1 << 31, 64, 1),
        Err(refusal),
        WORKSPACE,
    );
    assert!(huge.outcome.is_err());
    assert_ne!(huge.outcome, Err(refusal));
}

/// The symbols and geometries that are frozen for a product.
fn frozen(
    op: ResolvedGemmOp,
    dims: (usize, usize, usize),
    tensors: (u64, u64, u64),
    plan: ScalarDispatchPlan,
) -> Vec<(&'static str, (u32, u32, u32), (u32, u32, u32))> {
    let request = F32TriadRequest {
        op,
        shape: F32TriadShape::contiguous(op, dims),
    };
    let operands = F32TriadOperands {
        output: tensors.0,
        a: tensors.1,
        b: tensors.2,
        bias: None,
        alpha: ONE,
        beta: if op == ResolvedGemmOp::Tn { ONE } else { ZERO },
    };
    scalar_physical_nodes(request, operands, plan)
        .unwrap()
        .iter()
        .map(|node| (node.symbol, node.launch.grid_dim, node.launch.block_dim))
        .collect()
}

fn launched(program: &LaunchProgram) -> Vec<(&'static str, (u32, u32, u32), (u32, u32, u32))> {
    program
        .launches
        .iter()
        .map(|launch| {
            (
                launch.symbol,
                launch.config.grid_dim,
                launch.config.block_dim,
            )
        })
        .collect()
}

#[test]
fn a_forward_tail_completes_where_it_can_be_addressed() {
    let plan = ScalarDispatchPlan::NnSplitKThinTail {
        k_main: 96,
        k_tail: 4,
    };
    let dims = (4, 100, 8);
    for (x, completes) in [(u64::MAX - 96 * 4, true), (u64::MAX - 96 * 4 + 1, false)] {
        let program = gemm_bi_forward(0x1000, x, 0x3000, 0, dims, Ok(plan), WORKSPACE);
        assert_eq!(program.outcome.is_ok(), completes);
        let nodes = frozen(ResolvedGemmOp::Nn, dims, (0x1000, x, 0x3000), plan);
        assert_eq!(launched(&program) == nodes, completes);
    }
}

#[test]
fn a_weight_gradient_completes_on_its_frozen_nodes() {
    let plan = ScalarDispatchPlan::TnSplitM {
        m_chunk: 16,
        chunks: 16,
    };
    let dims = (256, 128, 128);
    let program = gemm_bi_backward_dw(0x1000, 0x2000, 0x3000, dims, Ok(plan), WORKSPACE);
    assert_eq!(program.outcome, Ok(()));
    let nodes = frozen(ResolvedGemmOp::Tn, dims, (0x1000, 0x3000, 0x2000), plan);
    assert_eq!(launched(&program), nodes);
}

#[test]
fn an_input_gradient_completes_where_its_last_column_can_be_addressed() {
    let plan = ScalarDispatchPlan::NtSplitKTail {
        k_main: 64,
        k_tail: 31,
    };
    let dims = (32, 95, 128);
    let last = 94 * 128 * 4;
    for (w, completes) in [(u64::MAX - last, true), (u64::MAX - last + 1, false)] {
        let program = gemm_bi_backward_dx(0x1000, 0x2000, w, dims, Ok(plan), WORKSPACE);
        assert_eq!(program.outcome.is_ok(), completes);
        let nodes = frozen(ResolvedGemmOp::Nt, dims, (0x1000, 0x2000, w), plan);
        assert_eq!(nodes.len(), 34);
        assert_eq!(launched(&program) == nodes, completes);
    }
}

#[test]
fn a_transposed_input_gradient_needs_its_frozen_workspace() {
    let plan = ScalarDispatchPlan::NtD128OutTransposeM64N64Qualified;
    let dims = (1_024, 256, 128);
    for (transpose_len, completes) in [(4_718_592, true), (4_718_591, false)] {
        let workspace = ScalarWorkspace {
            transpose_len,
            ..WORKSPACE
        };
        let program = gemm_bi_backward_dx(0x1000, 0x2000, 0x3000, dims, Ok(plan), workspace);
        assert_eq!(program.outcome.is_ok(), completes);
        let nodes = frozen(ResolvedGemmOp::Nt, dims, (0x1000, 0x2000, 0x3000), plan);
        assert_eq!(launched(&program) == nodes, completes);
    }
}

#[test]
fn checked_arithmetic_names_what_overflows() {
    assert_eq!(checked_u32(u32::MAX as usize, "x"), Ok(u32::MAX));
    assert_eq!(
        checked_u32(u32::MAX as usize + 1, "x"),
        Err(LaunchError::ExceedsU32("x"))
    );
    assert_eq!(checked_i32(i32::MAX as usize, "x"), Ok(i32::MAX));
    assert_eq!(
        checked_i32(i32::MAX as usize + 1, "x"),
        Err(LaunchError::ExceedsI32("x"))
    );
    assert_eq!(
        checked_u32_product(65_536, 65_536, "x"),
        Err(LaunchError::ProductOverflow("x"))
    );
    assert_eq!(checked_u32_product(65_535, 65_537, "x"), Ok(u32::MAX));
    assert!(checked_grid_product(65_536, 65_535, 2).is_err());
    assert_eq!(checked_grid_product(3, 5, 7), Ok(105));
    assert_eq!(checked_tile_grid(65, 64, 33, 32), Ok(4));
    assert_eq!(
        checked_byte_offset(usize::MAX, 4, "x"),
        Err(LaunchError::OffsetOverflow("x"))
    );
    assert_eq!(
        checked_ptr_add(u64::MAX, 1, "x"),
        Err(LaunchError::OffsetOverflow("x"))
    );
    assert_eq!(LaunchError::OffsetOverflow("x").message(), "x");
    assert_eq!(div_ceil_u32(0, 7), 0);
    assert_eq!(div_ceil_u32(u32::MAX, 2), 1 << 31);
    assert_eq!(div_ceil_usize(15, 7), 3);
    assert_eq!(div_ceil_u64(14, 7), 2);
}

#[test]
fn shapes_know_their_reduction_and_output() {
    let dims = (3, 4, 5);
    let nn = F32TriadShape::contiguous(ResolvedGemmOp::Nn, dims);
    assert_eq!((nn.lda, nn.ldb, nn.ldc), (4, 5, 5));
    assert_eq!(nn.reduction(ResolvedGemmOp::Nn), 4);
    assert_eq!(nn.output_rows(ResolvedGemmOp::Nn), 3);
    assert_eq!(nn.output_columns(ResolvedGemmOp::Nn), 5);
    let tn = F32TriadShape::contiguous(ResolvedGemmOp::Tn, dims);
    assert_eq!((tn.lda, tn.ldb, tn.ldc), (4, 5, 5));
    assert_eq!(tn.reduction(ResolvedGemmOp::Tn), 3);
    assert_eq!(tn.output_rows(ResolvedGemmOp::Tn), 4);
    let nt = F32TriadShape::contiguous(ResolvedGemmOp::Nt, dims);
    assert_eq!((nt.lda, nt.ldb, nt.ldc), (5, 5, 4));
    assert_eq!(nt.reduction(ResolvedGemmOp::Nt), 5);
    assert_eq!(nt.output_columns(ResolvedGemmOp::Nt), 4);
    assert_eq!(nn.validate(ResolvedGemmOp::Nn), Ok(()));
    let checked = GemmDims::nn(dims, 4).unwrap();
    assert_eq!(checked.tuple(), dims);
    assert!(GemmDims::nn((1 << 20, 1, 1 << 20), 1).is_err());
}

#[test]
fn captured_arguments_are_bounded_and_zero_filled() {
    let mut arguments = PhysicalScalarKernelArguments::new();
    for i in 0..16u8 {
        assert_eq!(arguments.push(&[i, 1]), Ok(()));
    }
    assert!(arguments.push(&[0]).is_err());
    assert_eq!(arguments.values().len(), 16);
    assert_eq!(arguments.values()[3].bytes()[..3], [3, 1, 0]);
    assert!(PhysicalScalarKernelArgument::encode(&[0; 129]).is_err());
    assert_eq!(
        PhysicalScalarKernelArgument::encode(&[7; 128])
            .unwrap()
            .bytes(),
        [7; 128]
    );
    let mut eager = ScalarLaunchArgs::new("gemm_bi_nn", false);
    eager.capture_argument(&[1]);
    assert!(eager.take_prepared().is_err());
    let mut captured = ScalarLaunchArgs::new("gemm_bi_nn", true);
    captured.capture_argument(&[1]);
    let (symbol, arguments) = captured.take_prepared().unwrap();
    assert_eq!(symbol, "gemm_bi_nn");
    assert_eq!(arguments.values().len(), 1);
}
