use gemm_bi_triad::half_kernel::HalfKernelIdentity;
use gemm_bi_triad::half_tc::TcTile;
use gemm_bi_triad::identity::{ModuleKind, WeightDtype};

#[test]
fn half_kernel_identity_uses_exact_dtype_suffix_and_module_owner() {
    for (base, module_kind) in [
        ("gemm_bi_nn_gemv", ModuleKind::TriadScalar),
        ("gemm_bi_nn_ultra_thin", ModuleKind::TriadScalar),
        ("gemm_bi_nn_narrow", ModuleKind::TriadScalar),
        ("gemm_bi_nn_narrow_small", ModuleKind::TriadScalar),
        ("gemm_bi_nn_big", ModuleKind::TriadScalar),
        ("gemm_bi_tn_gemv", ModuleKind::TriadScalar),
        ("gemm_bi_tn_narrow", ModuleKind::TriadScalar),
        ("gemm_bi_tn_big", ModuleKind::TriadScalar),
        ("gemm_bi_nt_gemv", ModuleKind::TriadScalar),
        ("gemm_bi_nt_narrow", ModuleKind::TriadScalar),
        ("gemm_bi_nt_big", ModuleKind::TriadScalar),
        ("gemm_bi_nn_tc", ModuleKind::TriadSm80),
        ("gemm_bi_nn_tc64", ModuleKind::TriadSm80),
        ("gemm_bi_nn_tc16", ModuleKind::TriadSm80),
        ("gemm_bi_tn_tc", ModuleKind::TriadSm80),
        ("gemm_bi_tn_tc64", ModuleKind::TriadSm80),
        ("gemm_bi_tn_tc128x64", ModuleKind::TriadSm80),
        ("gemm_bi_nt_tc", ModuleKind::TriadSm80),
        ("gemm_bi_nt_tc64", ModuleKind::TriadSm80),
    ] {
        for (dtype, suffix) in [(WeightDtype::Bf16, "_bf16"), (WeightDtype::F16, "_f16")] {
            let identity = HalfKernelIdentity::resolve(base, dtype).unwrap();
            assert_eq!(identity.symbol, format!("{base}{suffix}"));
            assert_eq!(identity.module_kind, module_kind);
        }
    }

    let tensor_core = HalfKernelIdentity::resolve("gemm_bi_nn_tc64", WeightDtype::F16).unwrap();
    assert!(
        tensor_core
            .validate(ModuleKind::TriadScalar, tensor_core.symbol)
            .is_err()
    );
    assert!(
        tensor_core
            .validate(tensor_core.module_kind, "gemm_bi_nn_tc64")
            .is_err()
    );
    assert!(HalfKernelIdentity::resolve("gemm_bi_nn_tc64", WeightDtype::F32).is_err());
    assert!(HalfKernelIdentity::resolve("gemm_bi_unknown", WeightDtype::Bf16).is_err());
}

#[test]
fn rect128x64_tn_forced_identity_is_exact() {
    let tile = TcTile::Rect128x64;
    assert_eq!(tile.extents(), (128, 64));
    assert_eq!(tile.block_dim(), 256);
    assert_eq!(tile.bk_stages(), (32, 3));
    let config = tile.launch_cfg(1536, 768, 69_632).unwrap();
    assert_eq!(config.grid_dim, (144, 1, 1));
    assert_eq!(config.block_dim, (256, 1, 1));
    assert_eq!(config.shared_mem_bytes, 0);

    for (dtype, symbol) in [
        (WeightDtype::Bf16, "gemm_bi_tn_tc128x64_bf16"),
        (WeightDtype::F16, "gemm_bi_tn_tc128x64_f16"),
    ] {
        let identity = HalfKernelIdentity::resolve("gemm_bi_tn_tc128x64", dtype).unwrap();
        assert_eq!(identity.symbol, symbol);
        assert_eq!(identity.module_kind, ModuleKind::TriadSm80);
    }
}
