use gemm_bi_triad::half_launch::TypedPtr;
use gemm_bi_triad::half_typed::{
    gemm_bi_backward_dw_typed_native, gemm_bi_backward_dx_typed_native,
    gemm_bi_forward_typed_native,
};
use gemm_bi_triad::identity::WeightDtype;
use gemm_bi_triad::kernel::{KernelArg, LaunchProgram};
use gemm_bi_triad::scalar_dw::gemm_bi_backward_dw;
use gemm_bi_triad::scalar_dx::gemm_bi_backward_dx;
use gemm_bi_triad::scalar_forward::{
    gemm_bi_forward, gemm_bi_forward_sub, GemmBiFwdSubOperands,
};
use gemm_bi_triad::scalar_launch::ScalarWorkspace;
use gemm_bi_triad::scalar_plan::ScalarDispatchPlan;

const WORKSPACE: ScalarWorkspace = ScalarWorkspace {
    split: 0x10_0000,
    transpose: 0x20_0000,
    transpose_len: 4_718_592,
};

fn typed(ptr: u64) -> TypedPtr {
    TypedPtr {
        ptr,
        dtype: WeightDtype::Bf16,
    }
}

fn strided(
    lda: usize,
    dims: (usize, usize, usize),
    plan: ScalarDispatchPlan,
) -> LaunchProgram {
    let operands = GemmBiFwdSubOperands {
        x_ptr: 0x2000,
        lda,
        w_ptr: 0x3000,
        bias_ptr: 0x4000,
    };
    gemm_bi_forward_sub(0x1000, operands, dims, Ok(plan), WORKSPACE)
}

#[test]
fn typed_forward_products_run_on_the_geometry_of_their_bucket() {
    for (dims, plan) in [
        ((8, 64, 1), ScalarDispatchPlan::NnGemv),
        ((8, 64, 96), ScalarDispatchPlan::NnUltraThin),
        ((64, 64, 96), ScalarDispatchPlan::NnNarrowSmall),
        ((65, 64, 96), ScalarDispatchPlan::NnNarrow),
        ((256, 64, 256), ScalarDispatchPlan::NnFinal { slim: false }),
    ] {
        let half = gemm_bi_forward_typed_native(
            typed(0x1000),
            typed(0x2000),
            typed(0x3000),
            0x4000,
            dims,
            true,
        )
        .unwrap();
        let full = gemm_bi_forward(0x1000, 0x2000, 0x3000, 0x4000, dims, Ok(plan), WORKSPACE);
        assert_eq!(full.outcome, Ok(()));
        assert_eq!(full.launches.len(), 1);
        assert_eq!(full.launches[0].config, half.launch.config, "{plan:?}");
        assert_eq!(full.launches[0].args, half.launch.args, "{plan:?}");
    }
}

#[test]
fn typed_gradients_run_on_the_geometry_of_their_bucket() {
    for (dims, plan) in [
        ((64, 8, 1), ScalarDispatchPlan::TnGemv),
        ((64, 64, 96), ScalarDispatchPlan::TnNarrow),
        ((256, 256, 256), ScalarDispatchPlan::TnFinal { slim: false }),
    ] {
        let half = gemm_bi_backward_dw_typed_native(
            0x1000,
            typed(0x3000),
            typed(0x2000),
            dims,
            true,
        )
        .unwrap();
        let full = gemm_bi_backward_dw(0x1000, 0x3000, 0x2000, dims, Ok(plan), WORKSPACE);
        assert_eq!(full.launches[0].config, half.launch.config, "{plan:?}");
        assert_eq!(full.launches[0].args, half.launch.args, "{plan:?}");
    }
    for (dims, plan) in [
        ((64, 8, 1), ScalarDispatchPlan::NtGemv),
        ((64, 64, 96), ScalarDispatchPlan::NtNarrow),
        ((256, 256, 256), ScalarDispatchPlan::NtFinal { slim: false }),
    ] {
        let half = gemm_bi_backward_dx_typed_native(
            typed(0x1000),
            typed(0x2000),
            typed(0x3000),
            dims,
            true,
        )
        .unwrap();
        let full = gemm_bi_backward_dx(0x1000, 0x2000, 0x3000, dims, Ok(plan), WORKSPACE);
        assert_eq!(full.launches[0].config.grid_dim, half.launch.config.grid_dim);
        assert_eq!(full.launches[0].config.block_dim, half.launch.config.block_dim);
        assert_eq!(full.launches[0].args, half.launch.args, "{plan:?}");
    }
}

#[test]
fn strided_rows_change_one_argument() {
    for (dims, plan) in [
        ((8, 64, 96), ScalarDispatchPlan::NnUltraThin),
        ((65, 60, 96), ScalarDispatchPlan::NnNarrow),
        ((256, 72, 256), ScalarDispatchPlan::NnFinal { slim: true }),
    ] {
        let packed = strided(dims.1, dims, plan);
        let apart = strided(777, dims, plan);
        assert_eq!(packed.outcome, apart.outcome);
        assert_eq!(packed.launches[0].symbol, apart.launches[0].symbol);
        assert_eq!(packed.launches[0].config, apart.launches[0].config);
        let changed: Vec<_> = packed.launches[0]
            .args
            .iter()
            .zip(&apart.launches[0].args)
            .filter(|(left, right)| left != right)
            .collect();
        assert_eq!(
            changed,
            vec![(
                &KernelArg::Int(dims.1 as i32),
                &KernelArg::Int(777)
            )]
        );
    }
}
