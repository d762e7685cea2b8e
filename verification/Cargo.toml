[package]
name = "gemm_bi_triad"
version = "0.1.0"
edition = "2021"
publish = false

[dependencies]
cudarc = { version = "0.17", default-features = false, features = ["std", "driver", "dynamic-loading", "cuda-12080"] }
sha2 = "0.10"
