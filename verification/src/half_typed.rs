//! Half-precision products on the scalar-FMA kernels.

use crate::arith::{checked_tile_grid, checked_u32_product, div_ceil_u32};
use crate::error::{LaunchError, UncoveredProduct};
use crate::half_kernel::HalfKernel;
use crate::half_kernel::require_half;
use crate::half_launch;
use crate::half_launch::{
    build_backward_args, build_nn_args, half_launch, HalfGemmArguments, HalfLaunch, HalfStep,
    HalfTiling, TypedPtr,
};
use crate::kernel::{KernelArg, LaunchConfig};
use crate::shape::{
    validate_bias_preseed, F32TriadShape, GemmDims, ResolvedGemmOp, F32_ONE_BITS, F32_ZERO_BITS,
};
use vstd::prelude::*;

verus! {

/// Dynamic shared memory of the 128x128 scalar kernels.
pub const HALF_BIG_SHARED_BYTES: u32 = 34816;

/// A narrow output has two to 127 columns.
#[verifier::allow_in_spec]
pub fn is_narrow(dims: GemmDims) -> bool
    returns
        2 <= dims.n && dims.n <= 127 && dims.m >= 1 && dims.k >= 1,
{
    2 <= dims.n && dims.n <= 127 && dims.m >= 1 && dims.k >= 1
}

/// A forward product with one output column and a row of at least one warp.
#[verifier::allow_in_spec]
pub fn forward_is_gemv(dims: GemmDims) -> bool
    returns
        dims.n == 1 && dims.m >= 1 && dims.k >= 32,
{
    dims.n == 1 && dims.m >= 1 && dims.k >= 32
}

/// A forward product with fewer than 32 rows and a row that fits in shared
/// memory.
#[verifier::allow_in_spec]
pub fn forward_is_ultra_thin(dims: GemmDims) -> bool
    returns
        1 <= dims.m && dims.m < 32 && 32 <= dims.k && dims.k <= 2048 && dims.n >= 32,
{
    1 <= dims.m && dims.m < 32 && 32 <= dims.k && dims.k <= 2048 && dims.n >= 32
}

/// The arguments of the forward GEMV.
pub open spec fn forward_gemv_args(tensors: HalfGemmArguments, m: i32, k: i32) -> Seq<KernelArg> {
    seq![
        KernelArg::Pointer(tensors.output),
        KernelArg::Pointer(tensors.a),
        KernelArg::Pointer(tensors.b),
        KernelArg::Pointer(tensors.bias),
        KernelArg::Float(F32_ONE_BITS),
        KernelArg::Float(F32_ZERO_BITS),
        KernelArg::Int(m),
        KernelArg::Int(k),
        KernelArg::Int(k),
        KernelArg::Int(1),
    ]
}

/// The arguments of the backward GEMVs.
pub open spec fn backward_gemv_args(tensors: HalfGemmArguments, m: i32, k: i32) -> Seq<KernelArg> {
    seq![
        KernelArg::Pointer(tensors.output),
        KernelArg::Pointer(tensors.a),
        KernelArg::Pointer(tensors.b),
        KernelArg::Float(F32_ONE_BITS),
        KernelArg::Int(m),
        KernelArg::Int(k),
        KernelArg::Int(k),
        KernelArg::Int(1),
    ]
}

/// The launch of a forward product on checked extents.
pub open spec fn forward_typed_branch(
    y: TypedPtr,
    tensors: HalfGemmArguments,
    dims: GemmDims,
    routes_to_big: bool,
) -> Result<HalfStep, LaunchError> {
    let shape = F32TriadShape::contiguous(ResolvedGemmOp::Nn, dims.tuple());
    let (m, n, k) = (dims.m as i32, dims.n as i32, dims.k as i32);
    let step = |kernel: HalfKernel, tiling: HalfTiling, config: LaunchConfig, args: Seq<KernelArg>|
        half_launch::half_step(
            kernel,
            y.dtype,
            ResolvedGemmOp::Nn,
            shape,
            tiling,
            tensors,
            config,
            args,
        );
    let tiled = half_launch::nn_args(tensors, m, n, k, (k, n, n));
    if forward_is_gemv(dims) {
        Ok(
            step(
                HalfKernel::NnGemv,
                HalfTiling { tile: (4, 1), bk_stages: (32, 1) },
                LaunchConfig::linear(div_ceil_u32(dims.m as u32, 4), 128, 0),
                forward_gemv_args(tensors, m, k),
            ),
        )
    } else if forward_is_ultra_thin(dims) {
        match checked_u32_product(dims.k as u32, 4, "typed ultra-thin shared memory") {
            Err(error) => Err(error),
            Ok(shared_mem_bytes) => Ok(
                step(
                    HalfKernel::NnUltraThin,
                    HalfTiling { tile: (1, 32), bk_stages: (32, 1) },
                    LaunchConfig {
                        grid_dim: (div_ceil_u32(dims.n as u32, 32), dims.m as u32, 1),
                        block_dim: (256, 1, 1),
                        shared_mem_bytes,
                    },
                    tiled,
                ),
            ),
        }
    } else if is_narrow(dims) {
        let with_post_op = tiled.push(KernelArg::Int(0));
        if dims.m <= 64 {
            match checked_tile_grid(dims.m as u32, 16, dims.n as u32, 16) {
                Err(error) => Err(error),
                Ok(grid) => Ok(
                    step(
                        HalfKernel::NnNarrowSmall,
                        HalfTiling { tile: (16, 16), bk_stages: (16, 1) },
                        LaunchConfig::linear(grid, 64, 0),
                        with_post_op,
                    ),
                ),
            }
        } else {
            match checked_tile_grid(dims.m as u32, 64, dims.n as u32, 32) {
                Err(error) => Err(error),
                Ok(grid) => Ok(
                    step(
                        HalfKernel::NnNarrow,
                        HalfTiling { tile: (64, 32), bk_stages: (16, 1) },
                        LaunchConfig::linear(grid, 128, 0),
                        with_post_op,
                    ),
                ),
            }
        }
    } else if routes_to_big {
        match checked_tile_grid(dims.m as u32, 128, dims.n as u32, 128) {
            Err(error) => Err(error),
            Ok(grid) => Ok(
                step(
                    HalfKernel::NnBig,
                    HalfTiling { tile: (128, 128), bk_stages: (16, 2) },
                    LaunchConfig::linear(grid, 256, HALF_BIG_SHARED_BYTES),
                    tiled,
                ),
            ),
        }
    } else {
        Err(LaunchError::Uncovered(UncoveredProduct::ForwardTyped, dims.tuple()))
    }
}

/// The launch of a typed forward product.
pub open spec fn forward_typed_step(
    y: TypedPtr,
    x: TypedPtr,
    w: TypedPtr,
    bias: u64,
    dims: (usize, usize, usize),
    routes_to_big: bool,
) -> Result<HalfStep, LaunchError> {
    match GemmDims::resolve(dims, dims.1, dims.1) {
        Err(error) => Err(error),
        Ok(checked) => match require_half(y.dtype, "output") {
            Err(error) => Err(error),
            Ok(_) => if x.dtype != y.dtype || w.dtype != y.dtype {
                Err(
                    LaunchError::Rejected(
                        "gemm_bi_forward_typed_native: mixed dtypes not supported",
                    ),
                )
            } else {
                match validate_bias_preseed(F32_ONE_BITS, bias) {
                    Err(error) => Err(error),
                    Ok(_) => forward_typed_branch(
                        y,
                        HalfGemmArguments { output: y.ptr, a: x.ptr, b: w.ptr, bias },
                        checked,
                        routes_to_big,
                    ),
                }
            },
        },
    }
}

/// `Y = X W + bias` in one half element type, on the scalar-FMA kernels.
/// `routes_to_big` says whether the dispatcher gives the shape to the
/// 128x128 bucket.
pub fn gemm_bi_forward_typed_native(
    y: TypedPtr,
    x: TypedPtr,
    w: TypedPtr,
    bias_ptr: u64,
    dims: (usize, usize, usize),
    routes_to_big: bool,
) -> (result: Result<HalfLaunch, LaunchError>)
    ensures
        half_launch::half_step_of(result) == forward_typed_step(
            y,
            x,
            w,
            bias_ptr,
            dims,
            routes_to_big,
        ),
{
    let checked = GemmDims::nn(dims, dims.1)?;
    require_half(y.dtype, "output")?;
    if x.dtype != y.dtype || w.dtype != y.dtype {
        return Err(
            LaunchError::Rejected("gemm_bi_forward_typed_native: mixed dtypes not supported"),
        );
    }
    validate_bias_preseed(F32_ONE_BITS, bias_ptr)?;
    let tensors = HalfGemmArguments { output: y.ptr, a: x.ptr, b: w.ptr, bias: bias_ptr };
    let op = ResolvedGemmOp::Nn;
    let shape = F32TriadShape::contiguous(op, dims);
    let m_u: u32 = checked.m as u32;
    let n_u: u32 = checked.n as u32;
    let k_u: u32 = checked.k as u32;
    let m: i32 = checked.m as i32;
    let n: i32 = checked.n as i32;
    let k: i32 = checked.k as i32;
    if forward_is_gemv(checked) {
        let args = vec![
            KernelArg::Pointer(tensors.output),
            KernelArg::Pointer(tensors.a),
            KernelArg::Pointer(tensors.b),
            KernelArg::Pointer(tensors.bias),
            KernelArg::Float(F32_ONE_BITS),
            KernelArg::Float(F32_ZERO_BITS),
            KernelArg::Int(m),
            KernelArg::Int(k),
            KernelArg::Int(k),
            KernelArg::Int(1),
        ];
        assert(args@ =~= forward_gemv_args(tensors, m, k));
        return Ok(
            half_launch(
                HalfKernel::NnGemv,
                y.dtype,
                op,
                shape,
                HalfTiling { tile: (4, 1), bk_stages: (32, 1) },
                tensors,
                LaunchConfig::linear(div_ceil_u32(m_u, 4), 128, 0),
                args,
            ),
        );
    }
    if forward_is_ultra_thin(checked) {
        let shared_mem_bytes: u32 = checked_u32_product(k_u, 4, "typed ultra-thin shared memory")?;
        return Ok(
            half_launch(
                HalfKernel::NnUltraThin,
                y.dtype,
                op,
                shape,
                HalfTiling { tile: (1, 32), bk_stages: (32, 1) },
                tensors,
                LaunchConfig {
                    grid_dim: (div_ceil_u32(n_u, 32), m_u, 1),
                    block_dim: (256, 1, 1),
                    shared_mem_bytes,
                },
                build_nn_args(tensors, m, n, k, (k, n, n)),
            ),
        );
    }
    if is_narrow(checked) {
        let small = checked.m <= 64;
        let grid: u32 = if small {
            checked_tile_grid(m_u, 16, n_u, 16)?
        } else {
            checked_tile_grid(m_u, 64, n_u, 32)?
        };
        let mut args = build_nn_args(tensors, m, n, k, (k, n, n));
        args.push(KernelArg::Int(0));
        return Ok(
            half_launch(
                if small {
                    HalfKernel::NnNarrowSmall
                } else {
                    HalfKernel::NnNarrow
                },
                y.dtype,
                op,
                shape,
                HalfTiling {
                    tile: if small {
                        (16, 16)
                    } else {
                        (64, 32)
                    },
                    bk_stages: (16, 1),
                },
                tensors,
                LaunchConfig::linear(
                    grid,
                    if small {
                        64
                    } else {
                        128
                    },
                    0,
                ),
                args,
            ),
        );
    }
    if routes_to_big {
        let grid: u32 = checked_tile_grid(m_u, 128, n_u, 128)?;
        return Ok(
            half_launch(
                HalfKernel::NnBig,
                y.dtype,
                op,
                shape,
                HalfTiling { tile: (128, 128), bk_stages: (16, 2) },
                tensors,
                LaunchConfig::linear(grid, 256, HALF_BIG_SHARED_BYTES),
                build_nn_args(tensors, m, n, k, (k, n, n)),
            ),
        );
    }
    Err(LaunchError::Uncovered(UncoveredProduct::ForwardTyped, dims))
}

/// A weight gradient with one output column.
#[verifier::allow_in_spec]
pub fn dw_is_gemv(dims: GemmDims) -> bool
    returns
        dims.n == 1 && dims.k >= 4 && dims.m >= 32,
{
    dims.n == 1 && dims.k >= 4 && dims.m >= 32
}

/// The launch of a weight gradient on checked extents.
pub open spec fn dw_typed_branch(
    dy: TypedPtr,
    tensors: HalfGemmArguments,
    dims: GemmDims,
    routes_to_big: bool,
) -> Result<HalfStep, LaunchError> {
    let shape = F32TriadShape::contiguous(ResolvedGemmOp::Tn, dims.tuple());
    let (m, n, k) = (dims.m as i32, dims.n as i32, dims.k as i32);
    let step = |kernel: HalfKernel, tiling: HalfTiling, config: LaunchConfig, args: Seq<KernelArg>|
        half_launch::half_step(
            kernel,
            dy.dtype,
            ResolvedGemmOp::Tn,
            shape,
            tiling,
            tensors,
            config,
            args,
        );
    if dw_is_gemv(dims) {
        Ok(
            step(
                HalfKernel::TnGemv,
                HalfTiling { tile: (4, 1), bk_stages: (32, 1) },
                LaunchConfig::linear(div_ceil_u32(dims.k as u32, 4), 128, 0),
                backward_gemv_args(tensors, m, k),
            ),
        )
    } else if is_narrow(dims) {
        match checked_tile_grid(dims.k as u32, 64, dims.n as u32, 32) {
            Err(error) => Err(error),
            Ok(grid) => Ok(
                step(
                    HalfKernel::TnNarrow,
                    HalfTiling { tile: (64, 32), bk_stages: (16, 1) },
                    LaunchConfig::linear(grid, 128, 0),
                    half_launch::backward_args(tensors, m, k, n),
                ),
            ),
        }
    } else if routes_to_big {
        match checked_tile_grid(dims.k as u32, 128, dims.n as u32, 128) {
            Err(error) => Err(error),
            Ok(grid) => Ok(
                step(
                    HalfKernel::TnBig,
                    HalfTiling { tile: (128, 128), bk_stages: (16, 2) },
                    LaunchConfig::linear(grid, 256, HALF_BIG_SHARED_BYTES),
                    half_launch::backward_args(tensors, m, k, n),
                ),
            ),
        }
    } else {
        Err(LaunchError::Uncovered(UncoveredProduct::BackwardDwTyped, dims.tuple()))
    }
}

/// The launch of a typed weight gradient.
pub open spec fn dw_typed_step(
    dw: u64,
    dy: TypedPtr,
    x: TypedPtr,
    dims: (usize, usize, usize),
    routes_to_big: bool,
) -> Result<HalfStep, LaunchError> {
    match GemmDims::resolve(dims, dims.1, dims.1) {
        Err(error) => Err(error),
        Ok(checked) => match require_half(dy.dtype, "dY") {
            Err(error) => Err(error),
            Ok(_) => if x.dtype != dy.dtype {
                Err(
                    LaunchError::Rejected(
                        "gemm_bi_backward_dw_typed_native: mixed dtypes not supported",
                    ),
                )
            } else {
                dw_typed_branch(
                    dy,
                    HalfGemmArguments { output: dw, a: x.ptr, b: dy.ptr, bias: 0 },
                    checked,
                    routes_to_big,
                )
            },
        },
    }
}

fn build_backward_gemv_args(tensors: HalfGemmArguments, m: i32, k: i32) -> (args: Vec<KernelArg>)
    ensures
        args@ == backward_gemv_args(tensors, m, k),
{
    let args = vec![
        KernelArg::Pointer(tensors.output),
        KernelArg::Pointer(tensors.a),
        KernelArg::Pointer(tensors.b),
        KernelArg::Float(F32_ONE_BITS),
        KernelArg::Int(m),
        KernelArg::Int(k),
        KernelArg::Int(k),
        KernelArg::Int(1),
    ];
    assert(args@ =~= backward_gemv_args(tensors, m, k));
    args
}

/// `dW += X^T dY` into the f32 master gradient, on the scalar-FMA kernels.
pub fn gemm_bi_backward_dw_typed_native(
    dw_ptr: u64,
    dy: TypedPtr,
    x_saved: TypedPtr,
    dims: (usize, usize, usize),
    routes_to_big: bool,
) -> (result: Result<HalfLaunch, LaunchError>)
    ensures
        half_launch::half_step_of(result) == dw_typed_step(
            dw_ptr,
            dy,
            x_saved,
            dims,
            routes_to_big,
        ),
{
    let checked = GemmDims::tn(dims)?;
    require_half(dy.dtype, "dY")?;
    if x_saved.dtype != dy.dtype {
        return Err(
            LaunchError::Rejected("gemm_bi_backward_dw_typed_native: mixed dtypes not supported"),
        );
    }
    let tensors = HalfGemmArguments { output: dw_ptr, a: x_saved.ptr, b: dy.ptr, bias: 0 };
    let op = ResolvedGemmOp::Tn;
    let shape = F32TriadShape::contiguous(op, dims);
    let n_u: u32 = checked.n as u32;
    let k_u: u32 = checked.k as u32;
    let m: i32 = checked.m as i32;
    let n: i32 = checked.n as i32;
    let k: i32 = checked.k as i32;
    if dw_is_gemv(checked) {
        return Ok(
            half_launch(
                HalfKernel::TnGemv,
                dy.dtype,
                op,
                shape,
                HalfTiling { tile: (4, 1), bk_stages: (32, 1) },
                tensors,
                LaunchConfig::linear(div_ceil_u32(k_u, 4), 128, 0),
                build_backward_gemv_args(tensors, m, k),
            ),
        );
    }
    if is_narrow(checked) {
        let grid: u32 = checked_tile_grid(k_u, 64, n_u, 32)?;
        return Ok(
            half_launch(
                HalfKernel::TnNarrow,
                dy.dtype,
                op,
                shape,
                HalfTiling { tile: (64, 32), bk_stages: (16, 1) },
                tensors,
                LaunchConfig::linear(grid, 128, 0),
                build_backward_args(tensors, m, k, n),
            ),
        );
    }
    if routes_to_big {
        let grid: u32 = checked_tile_grid(k_u, 128, n_u, 128)?;
        return Ok(
            half_launch(
                HalfKernel::TnBig,
                dy.dtype,
                op,
                shape,
                HalfTiling { tile: (128, 128), bk_stages: (16, 2) },
                tensors,
                LaunchConfig::linear(grid, 256, HALF_BIG_SHARED_BYTES),
                build_backward_args(tensors, m, k, n),
            ),
        );
    }
    Err(LaunchError::Uncovered(UncoveredProduct::BackwardDwTyped, dims))
}

/// An input gradient that is an outer product.
#[verifier::allow_in_spec]
pub fn dx_is_gemv(dims: GemmDims) -> bool
    returns
        dims.n == 1 && dims.m >= 1 && dims.k >= 1,
{
    dims.n == 1 && dims.m >= 1 && dims.k >= 1
}

/// The launch of an input gradient on checked extents.
pub open spec fn dx_typed_branch(
    dx: TypedPtr,
    tensors: HalfGemmArguments,
    dims: GemmDims,
    routes_to_big: bool,
) -> Result<HalfStep, LaunchError> {
    let shape = F32TriadShape::contiguous(ResolvedGemmOp::Nt, dims.tuple());
    let (m, n, k) = (dims.m as i32, dims.n as i32, dims.k as i32);
    let step = |kernel: HalfKernel, tiling: HalfTiling, config: LaunchConfig, args: Seq<KernelArg>|
        half_launch::half_step(
            kernel,
            dx.dtype,
            ResolvedGemmOp::Nt,
            shape,
            tiling,
            tensors,
            config,
            args,
        );
    if dx_is_gemv(dims) {
        Ok(
            step(
                HalfKernel::NtGemv,
                HalfTiling { tile: (1, 1), bk_stages: (1, 1) },
                LaunchConfig::linear(div_ceil_u32((dims.m * dims.k) as u32, 256), 256, 0),
                backward_gemv_args(tensors, m, k),
            ),
        )
    } else if is_narrow(dims) {
        match checked_tile_grid(dims.m as u32, 64, dims.k as u32, 32) {
            Err(error) => Err(error),
            Ok(grid) => Ok(
                step(
                    HalfKernel::NtNarrow,
                    HalfTiling { tile: (64, 32), bk_stages: (16, 1) },
                    LaunchConfig::linear(grid, 128, 0),
                    half_launch::backward_args(tensors, m, n, k),
                ),
            ),
        }
    } else if routes_to_big {
        match checked_tile_grid(dims.m as u32, 128, dims.k as u32, 128) {
            Err(error) => Err(error),
            Ok(grid) => Ok(
                step(
                    HalfKernel::NtBig,
                    HalfTiling { tile: (128, 128), bk_stages: (16, 2) },
                    LaunchConfig::linear(grid, 256, HALF_BIG_SHARED_BYTES),
                    half_launch::backward_args(tensors, m, n, k),
                ),
            ),
        }
    } else {
        Err(LaunchError::Uncovered(UncoveredProduct::BackwardDxTyped, dims.tuple()))
    }
}

/// The launch of a typed input gradient.
pub open spec fn dx_typed_step(
    dx: TypedPtr,
    dy: TypedPtr,
    w: TypedPtr,
    dims: (usize, usize, usize),
    routes_to_big: bool,
) -> Result<HalfStep, LaunchError> {
    match GemmDims::resolve(dims, dims.2, dims.2) {
        Err(error) => Err(error),
        Ok(checked) => match require_half(dx.dtype, "dX") {
            Err(error) => Err(error),
            Ok(_) => if dy.dtype != dx.dtype || w.dtype != dx.dtype {
                Err(
                    LaunchError::Rejected(
                        "gemm_bi_backward_dx_typed_native: mixed dtypes not supported",
                    ),
                )
            } else {
                dx_typed_branch(
                    dx,
                    HalfGemmArguments { output: dx.ptr, a: dy.ptr, b: w.ptr, bias: 0 },
                    checked,
                    routes_to_big,
                )
            },
        },
    }
}

/// `dX = dY W^T` in one half element type, on the scalar-FMA kernels.
pub fn gemm_bi_backward_dx_typed_native(
    dx: TypedPtr,
    dy: TypedPtr,
    w: TypedPtr,
    dims: (usize, usize, usize),
    routes_to_big: bool,
) -> (result: Result<HalfLaunch, LaunchError>)
    ensures
        half_launch::half_step_of(result) == dx_typed_step(dx, dy, w, dims, routes_to_big),
{
    let checked = GemmDims::nt(dims)?;
    require_half(dx.dtype, "dX")?;
    if dy.dtype != dx.dtype || w.dtype != dx.dtype {
        return Err(
            LaunchError::Rejected("gemm_bi_backward_dx_typed_native: mixed dtypes not supported"),
        );
    }
    let tensors = HalfGemmArguments { output: dx.ptr, a: dy.ptr, b: w.ptr, bias: 0 };
    let op = ResolvedGemmOp::Nt;
    let shape = F32TriadShape::contiguous(op, dims);
    let m_u: u32 = checked.m as u32;
    let k_u: u32 = checked.k as u32;
    let m: i32 = checked.m as i32;
    let n: i32 = checked.n as i32;
    let k: i32 = checked.k as i32;
    if dx_is_gemv(checked) {
        let outputs: u32 = m_u * k_u;
        return Ok(
            half_launch(
                HalfKernel::NtGemv,
                dx.dtype,
                op,
                shape,
                HalfTiling { tile: (1, 1), bk_stages: (1, 1) },
                tensors,
                LaunchConfig::linear(div_ceil_u32(outputs, 256), 256, 0),
                build_backward_gemv_args(tensors, m, k),
            ),
        );
    }
    if is_narrow(checked) {
        let grid: u32 = checked_tile_grid(m_u, 64, k_u, 32)?;
        return Ok(
            half_launch(
                HalfKernel::NtNarrow,
                dx.dtype,
                op,
                shape,
                HalfTiling { tile: (64, 32), bk_stages: (16, 1) },
                tensors,
                LaunchConfig::linear(grid, 128, 0),
                build_backward_args(tensors, m, n, k),
            ),
        );
    }
    if routes_to_big {
        let grid: u32 = checked_tile_grid(m_u, 128, k_u, 128)?;
        return Ok(
            half_launch(
                HalfKernel::NtBig,
                dx.dtype,
                op,
                shape,
                HalfTiling { tile: (128, 128), bk_stages: (16, 2) },
                tensors,
                LaunchConfig::linear(grid, 256, HALF_BIG_SHARED_BYTES),
                build_backward_args(tensors, m, n, k),
            ),
        );
    }
    Err(LaunchError::Uncovered(UncoveredProduct::BackwardDxTyped, dims))
}

} // verus!
