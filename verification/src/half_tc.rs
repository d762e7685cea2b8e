//! Half-precision products on the tensor-core kernels.

use crate::arith::{checked_i32, checked_tile_grid, checked_u32, div_ceil_u32};
use crate::error::{LaunchError, UncoveredProduct};
use crate::half_kernel::HalfKernel;
use crate::half_kernel::require_half;
use crate::half_launch;
use crate::half_launch::{
    build_backward_args, build_nn_args, half_launch, HalfGemmArguments, HalfLaunch, HalfStep,
    HalfTiling, TypedPtr,
};
use crate::kernel::{KernelArg, LaunchConfig};
use crate::scalar_plan::SPLITK_SCRATCH_CAP;
use crate::shape::{
    validate_bias_preseed, F32TriadShape, GemmDims, ResolvedGemmOp, F32_ONE_BITS,
};
use vstd::prelude::*;

verus! {

/// The tile ladder of the tensor-core kernels.
#[derive(Clone, Copy, Debug, PartialEq, Eq, Structural)]
pub enum TcTile {
    Tile128,
    Tile64,
    Thin16,
    Rect128x64,
    Tile64StreamK,
}

/// Dynamic shared memory of the 128x128 forward kernel.
pub const NN_TC_SHARED_BYTES: u32 = 71680;

/// Dynamic shared memory of the 128x128 weight-gradient kernel.
pub const TN_TC_SHARED_BYTES: u32 = 69632;

/// Dynamic shared memory of the 128x128 input-gradient kernel.
pub const NT_TC_SHARED_BYTES: u32 = 73728;

/// Slab floats of one stream-K slot: 128 threads by 32 accumulators.
pub const SM80_STREAMK_SLAB_FLOATS: usize = 4096;

/// Slots per stream-K CTA: a range can end inside its first tile or a later
/// one.
pub const SM80_STREAMK_SLOTS_PER_CTA: usize = 2;

impl TcTile {
    /// The output rows and columns of one CTA.
    #[verifier::allow_in_spec]
    pub fn extents(self) -> (u32, u32)
        returns
            (match self {
                TcTile::Tile128 => (128u32, 128u32),
                TcTile::Tile64 => (64u32, 64u32),
                TcTile::Thin16 => (16u32, 32u32),
                TcTile::Rect128x64 => (128u32, 64u32),
                TcTile::Tile64StreamK => (64u32, 64u32),
            }),
    {
        match self {
            TcTile::Tile128 => (128, 128),
            TcTile::Tile64 => (64, 64),
            TcTile::Thin16 => (16, 32),
            TcTile::Rect128x64 => (128, 64),
            TcTile::Tile64StreamK => (64, 64),
        }
    }

    /// The threads of one CTA.
    #[verifier::allow_in_spec]
    pub fn block_dim(self) -> u32
        returns
            (match self {
                TcTile::Tile128 | TcTile::Rect128x64 => 256u32,
                TcTile::Tile64 | TcTile::Thin16 | TcTile::Tile64StreamK => 128u32,
            }),
    {
        match self {
            TcTile::Tile128 | TcTile::Rect128x64 => 256,
            TcTile::Tile64 | TcTile::Thin16 | TcTile::Tile64StreamK => 128,
        }
    }

    /// The depth of one staged slab and how many slabs are in flight.
    #[verifier::allow_in_spec]
    pub fn bk_stages(self) -> (u32, u8)
        returns
            (match self {
                TcTile::Tile128 | TcTile::Tile64 | TcTile::Tile64StreamK => (64u32, 2u8),
                TcTile::Thin16 => (64u32, 4u8),
                TcTile::Rect128x64 => (32u32, 3u8),
            }),
    {
        match self {
            TcTile::Tile128 | TcTile::Tile64 | TcTile::Tile64StreamK => (64, 2),
            TcTile::Thin16 => (64, 4),
            TcTile::Rect128x64 => (32, 3),
        }
    }

    /// The tile geometry that a launch is recorded under.
    #[verifier::allow_in_spec]
    pub fn tiling(self) -> HalfTiling
        returns
            (HalfTiling { tile: self.extents(), bk_stages: self.bk_stages() }),
    {
        HalfTiling { tile: self.extents(), bk_stages: self.bk_stages() }
    }

    /// The launch over the output tiles of a `rows x columns` output.
    /// `tile128_bytes` is the dynamic shared memory of the 128x128 kernel;
    /// the other kernels stage in static shared memory.
    pub open spec fn config(
        self,
        rows: usize,
        columns: usize,
        tile128_bytes: u32,
    ) -> Result<LaunchConfig, LaunchError> {
        if self == TcTile::Tile64StreamK {
            Err(
                LaunchError::Rejected(
                    "Tile64StreamK launches a persistent grid; use the stream-K dW path",
                ),
            )
        } else {
            match (checked_u32(rows, "tile rows"), checked_u32(columns, "tile columns")) {
                (Err(error), _) => Err(error),
                (_, Err(error)) => Err(error),
                (Ok(rows), Ok(columns)) => match checked_tile_grid(
                    rows,
                    self.extents().0,
                    columns,
                    self.extents().1,
                ) {
                    Err(error) => Err(error),
                    Ok(tiles) => Ok(
                        LaunchConfig::linear(
                            tiles,
                            self.block_dim(),
                            if self == TcTile::Tile128 {
                                tile128_bytes
                            } else {
                                0
                            },
                        ),
                    ),
                },
            }
        }
    }

    /// Builds the launch over the output tiles.
    pub fn launch_cfg(self, rows: usize, columns: usize, tile128_bytes: u32) -> (result: Result<
        LaunchConfig,
        LaunchError,
    >)
        ensures
            result == self.config(rows, columns, tile128_bytes),
    {
        match self {
            TcTile::Tile64StreamK => {
                return Err(
                    LaunchError::Rejected(
                        "Tile64StreamK launches a persistent grid; use the stream-K dW path",
                    ),
                );
            },
            _ => {},
        }
        let (tile_rows, tile_columns) = self.extents();
        let rows_u: u32 = checked_u32(rows, "tile rows")?;
        let columns_u: u32 = checked_u32(columns, "tile columns")?;
        let tiles: u32 = checked_tile_grid(rows_u, tile_rows, columns_u, tile_columns)?;
        let shared_mem_bytes: u32 = match self {
            TcTile::Tile128 => tile128_bytes,
            _ => 0,
        };
        Ok(LaunchConfig::linear(tiles, self.block_dim(), shared_mem_bytes))
    }
}

/// The number of (tile, slab) units of a stream-K weight gradient.
pub open spec fn streamk_units(tiles: u32, dims: GemmDims) -> int {
    tiles * div_ceil_u32(dims.m as u32, 64)
}

/// The persistent grid of the stream-K weight gradient.
pub open spec fn streamk_grid(
    multiprocessors: u32,
    dims: (usize, usize, usize),
) -> Result<u32, LaunchError> {
    match GemmDims::resolve(dims, dims.1, dims.1) {
        Err(error) => Err(error),
        Ok(checked) => match checked_tile_grid(checked.k as u32, 64, checked.n as u32, 64) {
            Err(error) => Err(error),
            Ok(tiles) => {
                let ctas = if multiprocessors == 0 {
                    1int
                } else {
                    multiprocessors as int
                };
                let units = streamk_units(tiles, checked);
                if units == 0 {
                    Ok(1u32)
                } else if units < ctas {
                    Ok(units as u32)
                } else {
                    Ok(ctas as u32)
                }
            },
        },
    }
}

/// The persistent grid of the stream-K weight gradient: one CTA per
/// multiprocessor, never more CTAs than (tile, slab) units, never zero.
pub fn sm80_streamk_grid(multiprocessor_count: u32, dims: (usize, usize, usize)) -> (result: Result<
    u32,
    LaunchError,
>)
    ensures
        result == streamk_grid(multiprocessor_count, dims),
        result is Ok ==> 1 <= result->Ok_0,
        result is Ok && multiprocessor_count >= 1 ==> result->Ok_0 <= multiprocessor_count,
{
    let checked = GemmDims::tn(dims)?;
    let tiles: u32 = checked_tile_grid(
        checked_u32(checked.k, "tile rows")?,
        64,
        checked_u32(checked.n, "tile columns")?,
        64,
    )?;
    let slabs: u32 = div_ceil_u32(checked_u32(checked.m, "reduction rows")?, 64);
    assert(tiles * slabs <= 0xffff_ffff * 0xffff_ffff) by (nonlinear_arith)
        requires
            tiles <= 0xffff_ffff,
            slabs <= 0xffff_ffff,
    ;
    let units: u64 = tiles as u64 * slabs as u64;
    let multiprocessors: u64 = if multiprocessor_count == 0 {
        1
    } else {
        multiprocessor_count as u64
    };
    if units == 0 {
        Ok(1)
    } else if units < multiprocessors {
        Ok(units as u32)
    } else {
        Ok(multiprocessors as u32)
    }
}

/// Why the fixed workspaces cannot hold a stream-K grid.
pub open spec fn streamk_workspace_fault(grid: u32, counter_capacity: usize) -> Option<
    LaunchError,
> {
    let slots = grid * SM80_STREAMK_SLOTS_PER_CTA;
    let floats = slots * SM80_STREAMK_SLAB_FLOATS;
    if slots > usize::MAX {
        Some(LaunchError::ProductOverflow("sm80 stream-K slot count"))
    } else if floats > usize::MAX {
        Some(LaunchError::ProductOverflow("sm80 stream-K slab extent"))
    } else if floats > SPLITK_SCRATCH_CAP {
        Some(LaunchError::Rejected("sm80 stream-K slabs exceed the fixed workspace"))
    } else if slots > counter_capacity {
        Some(LaunchError::Rejected("sm80 stream-K flags exceed the fixed counter workspace"))
    } else {
        None
    }
}

/// Accepts a stream-K grid whose partial slabs and flags fit the fixed
/// workspaces, so that a grid that they cannot hold fails here and not in
/// the kernel.
pub fn sm80_streamk_workspace(grid: u32, counter_capacity: usize) -> (result: Result<
    (),
    LaunchError,
>)
    ensures
        result == (match streamk_workspace_fault(grid, counter_capacity) {
            Some(error) => Err::<(), LaunchError>(error),
            None => Ok::<(), LaunchError>(()),
        }),
{
    let ctas: usize = grid as usize;
    let slots: usize = match ctas.checked_mul(SM80_STREAMK_SLOTS_PER_CTA) {
        Some(slots) => slots,
        None => {
            return Err(LaunchError::ProductOverflow("sm80 stream-K slot count"));
        },
    };
    let floats: usize = match slots.checked_mul(SM80_STREAMK_SLAB_FLOATS) {
        Some(floats) => floats,
        None => {
            return Err(LaunchError::ProductOverflow("sm80 stream-K slab extent"));
        },
    };
    if floats > SPLITK_SCRATCH_CAP {
        return Err(LaunchError::Rejected("sm80 stream-K slabs exceed the fixed workspace"));
    }
    if slots > counter_capacity {
        return Err(
            LaunchError::Rejected("sm80 stream-K flags exceed the fixed counter workspace"),
        );
    }
    Ok(())
}

/// What the stream-K weight gradient needs of a device: its size, whether
/// the kernel is part of its module, and the fixed workspaces.
#[derive(Clone, Copy, Debug, PartialEq, Eq, Structural)]
pub struct StreamKTarget {
    pub multiprocessor_count: u32,
    pub composed: bool,
    pub counter_capacity: usize,
    pub partial: u64,
    pub flags: u64,
}

/// The tensors of a forward product.
#[derive(Clone, Copy, Debug, PartialEq, Eq, Structural)]
pub struct TcFwdOperands {
    pub y: TypedPtr,
    pub x: TypedPtr,
    pub w: TypedPtr,
    pub bias_ptr: u64,
}

/// The forward kernel of a tile.
pub open spec fn forward_tc_kernel(tile: TcTile) -> Result<HalfKernel, LaunchError> {
    match tile {
        TcTile::Tile128 => Ok(HalfKernel::NnTc),
        TcTile::Tile64 => Ok(HalfKernel::NnTc64),
        TcTile::Thin16 => Ok(HalfKernel::NnTc16),
        TcTile::Rect128x64 => Err(
            LaunchError::Rejected(
                "Rect128x64 is a forced TN dW tile; NN has no rectangular route",
            ),
        ),
        TcTile::Tile64StreamK => Err(
            LaunchError::Rejected("Tile64StreamK is a TN dW schedule; NN has no stream-K route"),
        ),
    }
}

/// The launch of a forward product on a tile, behind its validation.
pub open spec fn forward_tc_branch(
    ops: TcFwdOperands,
    shape: F32TriadShape,
    tile: TcTile,
) -> Result<HalfStep, LaunchError> {
    let tensors = HalfGemmArguments {
        output: ops.y.ptr,
        a: ops.x.ptr,
        b: ops.w.ptr,
        bias: ops.bias_ptr,
    };
    match tile.config(shape.m, shape.n, NN_TC_SHARED_BYTES) {
        Err(error) => Err(error),
        Ok(config) => match forward_tc_kernel(tile) {
            Err(error) => Err(error),
            Ok(kernel) => match (
                checked_i32(shape.lda, "lda"),
                checked_i32(shape.ldb, "ldb"),
                checked_i32(shape.ldc, "ldc"),
            ) {
                (Err(error), _, _) => Err(error),
                (_, Err(error), _) => Err(error),
                (_, _, Err(error)) => Err(error),
                (Ok(lda), Ok(ldb), Ok(ldc)) => Ok(
                    half_launch::half_step(
                        kernel,
                        ops.y.dtype,
                        ResolvedGemmOp::Nn,
                        shape,
                        tile.tiling(),
                        tensors,
                        config,
                        half_launch::nn_args(
                            tensors,
                            shape.m as i32,
                            shape.n as i32,
                            shape.k as i32,
                            (lda, ldb, ldc),
                        ),
                    ),
                ),
            },
        },
    }
}

/// The launch of a forward product on a forced tile.
pub open spec fn forward_tc_step(
    ops: TcFwdOperands,
    shape: F32TriadShape,
    tile: TcTile,
) -> Result<HalfStep, LaunchError> {
    match shape.validated(ResolvedGemmOp::Nn) {
        Err(error) => Err(error),
        Ok(_) => match GemmDims::resolve((shape.m, shape.k, shape.n), shape.lda, shape.k) {
            Err(error) => Err(error),
            Ok(_) => match require_half(ops.y.dtype, "output") {
                Err(error) => Err(error),
                Ok(_) => if ops.x.dtype != ops.y.dtype || ops.w.dtype != ops.y.dtype {
                    Err(LaunchError::Rejected("gemm_bi_forward_tc: mixed dtypes not supported"))
                } else {
                    match validate_bias_preseed(F32_ONE_BITS, ops.bias_ptr) {
                        Err(error) => Err(error),
                        Ok(_) => forward_tc_branch(ops, shape, tile),
                    }
                },
            },
        },
    }
}

/// `Y = X W + bias` on the tensor cores with a forced tile, for a shape
/// that need not be packed.
pub fn gemm_bi_forward_tc_with_tile_shape(
    ops: &TcFwdOperands,
    shape: F32TriadShape,
    tile: TcTile,
) -> (result: Result<HalfLaunch, LaunchError>)
    ensures
        half_launch::half_step_of(result) == forward_tc_step(*ops, shape, tile),
{
    shape.validate(ResolvedGemmOp::Nn)?;
    let checked = GemmDims::nn((shape.m, shape.k, shape.n), shape.lda)?;
    require_half(ops.y.dtype, "output")?;
    if ops.x.dtype != ops.y.dtype || ops.w.dtype != ops.y.dtype {
        return Err(LaunchError::Rejected("gemm_bi_forward_tc: mixed dtypes not supported"));
    }
    validate_bias_preseed(F32_ONE_BITS, ops.bias_ptr)?;
    let tensors = HalfGemmArguments {
        output: ops.y.ptr,
        a: ops.x.ptr,
        b: ops.w.ptr,
        bias: ops.bias_ptr,
    };
    let config = tile.launch_cfg(checked.m, checked.n, NN_TC_SHARED_BYTES)?;
    let kernel = match tile {
        TcTile::Tile128 => HalfKernel::NnTc,
        TcTile::Tile64 => HalfKernel::NnTc64,
        TcTile::Thin16 => HalfKernel::NnTc16,
        TcTile::Rect128x64 => {
            return Err(
                LaunchError::Rejected(
                    "Rect128x64 is a forced TN dW tile; NN has no rectangular route",
                ),
            );
        },
        TcTile::Tile64StreamK => {
            return Err(
                LaunchError::Rejected(
                    "Tile64StreamK is a TN dW schedule; NN has no stream-K route",
                ),
            );
        },
    };
    let lda: i32 = checked_i32(shape.lda, "lda")?;
    let ldb: i32 = checked_i32(shape.ldb, "ldb")?;
    let ldc: i32 = checked_i32(shape.ldc, "ldc")?;
    let args = build_nn_args(
        tensors,
        checked.m as i32,
        checked.n as i32,
        checked.k as i32,
        (lda, ldb, ldc),
    );
    Ok(
        half_launch(
            kernel,
            ops.y.dtype,
            ResolvedGemmOp::Nn,
            shape,
            tile.tiling(),
            tensors,
            config,
            args,
        ),
    )
}

/// `Y = X W + bias` on the tensor cores with a forced tile.
pub fn gemm_bi_forward_tc_with_tile(
    ops: &TcFwdOperands,
    dims: (usize, usize, usize),
    tile: TcTile,
) -> (result: Result<HalfLaunch, LaunchError>)
    ensures
        half_launch::half_step_of(result) == forward_tc_step(
            *ops,
            F32TriadShape::contiguous(ResolvedGemmOp::Nn, dims),
            tile,
        ),
{
    gemm_bi_forward_tc_with_tile_shape(
        ops,
        F32TriadShape::contiguous(ResolvedGemmOp::Nn, dims),
        tile,
    )
}

/// A launch together with the tile that was picked for it.
pub open spec fn with_tile(
    tile: TcTile,
    launch: Result<HalfStep, LaunchError>,
) -> Result<(TcTile, HalfStep), LaunchError> {
    match launch {
        Ok(step) => Ok((tile, step)),
        Err(error) => Err(error),
    }
}

/// The step of a launch whose tile was picked, or why there is none.
pub open spec fn picked_step_of(
    launch: Result<(TcTile, HalfLaunch), LaunchError>,
) -> Result<(TcTile, HalfStep), LaunchError> {
    match launch {
        Ok(picked) => Ok((picked.0, picked.1@)),
        Err(error) => Err(error),
    }
}

/// `Y = X W + bias` on the tensor cores. `picked` is the tile that the
/// dispatcher picks for the shape, if it covers it.
pub fn gemm_bi_forward_tc(
    y: TypedPtr,
    x: TypedPtr,
    w: TypedPtr,
    bias_ptr: u64,
    dims: (usize, usize, usize),
    picked: Option<TcTile>,
) -> (result: Result<(TcTile, HalfLaunch), LaunchError>)
    ensures
        picked_step_of(result) == (match GemmDims::resolve(dims, dims.1, dims.1) {
            Err(error) => Err::<(TcTile, HalfStep), LaunchError>(error),
            Ok(_) => match picked {
                None => Err::<(TcTile, HalfStep), LaunchError>(
                    LaunchError::Uncovered(UncoveredProduct::ForwardTc, dims),
                ),
                Some(tile) => with_tile(
                    tile,
                    forward_tc_step(
                        TcFwdOperands { y, x, w, bias_ptr },
                        F32TriadShape::contiguous(ResolvedGemmOp::Nn, dims),
                        tile,
                    ),
                ),
            },
        }),
{
    let _ = GemmDims::nn(dims, dims.1)?;
    match picked {
        None => Err(LaunchError::Uncovered(UncoveredProduct::ForwardTc, dims)),
        Some(tile) => {
            let ops = TcFwdOperands { y, x, w, bias_ptr };
            let launch = gemm_bi_forward_tc_with_tile(&ops, dims, tile)?;
            Ok((tile, launch))
        },
    }
}

/// The kernel and the geometry of a weight gradient on a tile.
pub open spec fn dw_tc_choice(
    dims: (usize, usize, usize),
    tile: TcTile,
    target: StreamKTarget,
) -> Result<(HalfKernel, LaunchConfig), LaunchError> {
    let tiled = |kernel: HalfKernel|
        match tile.config(dims.1, dims.2, TN_TC_SHARED_BYTES) {
            Err(error) => Err::<(HalfKernel, LaunchConfig), LaunchError>(error),
            Ok(config) => Ok::<(HalfKernel, LaunchConfig), LaunchError>((kernel, config)),
        };
    match tile {
        TcTile::Tile128 => tiled(HalfKernel::TnTc),
        TcTile::Tile64 => tiled(HalfKernel::TnTc64),
        TcTile::Rect128x64 => tiled(HalfKernel::TnTc128x64),
        TcTile::Thin16 => Err(
            LaunchError::Rejected(
                "Thin16 is an NN-forward rung; the TN dW path has no thin tile",
            ),
        ),
        TcTile::Tile64StreamK => match streamk_grid(target.multiprocessor_count, dims) {
            Err(error) => Err(error),
            Ok(grid) => match streamk_workspace_fault(grid, target.counter_capacity) {
                Some(error) => Err(error),
                None => if target.composed {
                    Ok((HalfKernel::TnTc64StreamK, LaunchConfig::linear(grid, 128, 0)))
                } else {
                    Err(
                        LaunchError::Rejected(
                            "the portable stream-K dW kernel is not composed for this target",
                        ),
                    )
                },
            },
        },
    }
}

/// The arguments of a weight gradient on a tile: the stream-K kernel takes
/// its workspaces as well.
pub open spec fn dw_tc_args(
    tensors: HalfGemmArguments,
    dims: (usize, usize, usize),
    tile: TcTile,
    target: StreamKTarget,
) -> Seq<KernelArg> {
    let args = half_launch::backward_args(
        tensors,
        dims.0 as i32,
        dims.1 as i32,
        dims.2 as i32,
    );
    if tile == TcTile::Tile64StreamK {
        args.push(KernelArg::Pointer(target.partial)).push(KernelArg::Pointer(target.flags))
    } else {
        args
    }
}

/// The launch of a weight gradient on a forced tile.
pub open spec fn dw_tc_step(
    dw: u64,
    dy: TypedPtr,
    x: TypedPtr,
    dims: (usize, usize, usize),
    tile: TcTile,
    target: StreamKTarget,
) -> Result<HalfStep, LaunchError> {
    let tensors = HalfGemmArguments { output: dw, a: x.ptr, b: dy.ptr, bias: 0 };
    match GemmDims::resolve(dims, dims.1, dims.1) {
        Err(error) => Err(error),
        Ok(_) => match require_half(dy.dtype, "dY") {
            Err(error) => Err(error),
            Ok(_) => if dy.dtype != x.dtype {
                Err(LaunchError::Rejected("gemm_bi_backward_dw_tc: mixed dtypes not supported"))
            } else {
                match dw_tc_choice(dims, tile, target) {
                    Err(error) => Err(error),
                    Ok((kernel, config)) => Ok(
                        half_launch::half_step(
                            kernel,
                            dy.dtype,
                            ResolvedGemmOp::Tn,
                            F32TriadShape::contiguous(ResolvedGemmOp::Tn, dims),
                            tile.tiling(),
                            tensors,
                            config,
                            dw_tc_args(tensors, dims, tile, target),
                        ),
                    ),
                }
            },
        },
    }
}

fn choose_dw_tc(dims: (usize, usize, usize), tile: TcTile, target: StreamKTarget) -> (result:
    Result<(HalfKernel, LaunchConfig), LaunchError>)
    ensures
        result == dw_tc_choice(dims, tile, target),
{
    match tile {
        TcTile::Tile128 => {
            let config = tile.launch_cfg(dims.1, dims.2, TN_TC_SHARED_BYTES)?;
            Ok((HalfKernel::TnTc, config))
        },
        TcTile::Tile64 => {
            let config = tile.launch_cfg(dims.1, dims.2, TN_TC_SHARED_BYTES)?;
            Ok((HalfKernel::TnTc64, config))
        },
        TcTile::Rect128x64 => {
            let config = tile.launch_cfg(dims.1, dims.2, TN_TC_SHARED_BYTES)?;
            Ok((HalfKernel::TnTc128x64, config))
        },
        TcTile::Thin16 => Err(
            LaunchError::Rejected(
                "Thin16 is an NN-forward rung; the TN dW path has no thin tile",
            ),
        ),
        TcTile::Tile64StreamK => {
            let grid: u32 = sm80_streamk_grid(target.multiprocessor_count, dims)?;
            sm80_streamk_workspace(grid, target.counter_capacity)?;
            if !target.composed {
                return Err(
                    LaunchError::Rejected(
                        "the portable stream-K dW kernel is not composed for this target",
                    ),
                );
            }
            Ok((HalfKernel::TnTc64StreamK, LaunchConfig::linear(grid, tile.block_dim(), 0)))
        },
    }
}

/// `dW += X^T dY` on the tensor cores with a forced tile.
pub fn gemm_bi_backward_dw_tc_with_tile(
    dw_ptr: u64,
    dy: TypedPtr,
    x_saved: TypedPtr,
    dims: (usize, usize, usize),
    tile: TcTile,
    target: StreamKTarget,
) -> (result: Result<HalfLaunch, LaunchError>)
    ensures
        half_launch::half_step_of(result) == dw_tc_step(dw_ptr, dy, x_saved, dims, tile, target),
{
    let checked = GemmDims::tn(dims)?;
    require_half(dy.dtype, "dY")?;
    if dy.dtype != x_saved.dtype {
        return Err(LaunchError::Rejected("gemm_bi_backward_dw_tc: mixed dtypes not supported"));
    }
    let tensors = HalfGemmArguments { output: dw_ptr, a: x_saved.ptr, b: dy.ptr, bias: 0 };
    let (kernel, config) = choose_dw_tc(dims, tile, target)?;
    let mut args = build_backward_args(
        tensors,
        checked.m as i32,
        checked.k as i32,
        checked.n as i32,
    );
    match tile {
        TcTile::Tile64StreamK => {
            args.push(KernelArg::Pointer(target.partial));
            args.push(KernelArg::Pointer(target.flags));
        },
        _ => {},
    }
    Ok(
        half_launch(
            kernel,
            dy.dtype,
            ResolvedGemmOp::Tn,
            F32TriadShape::contiguous(ResolvedGemmOp::Tn, dims),
            tile.tiling(),
            tensors,
            config,
            args,
        ),
    )
}

/// `dW += X^T dY` on the tensor cores. `picked` is the tile that the
/// dispatcher picks for the shape and the device, if it covers it.
pub fn gemm_bi_backward_dw_tc(
    dw_ptr: u64,
    dy: TypedPtr,
    x_saved: TypedPtr,
    dims: (usize, usize, usize),
    picked: Option<TcTile>,
    target: StreamKTarget,
) -> (result: Result<(TcTile, HalfLaunch), LaunchError>)
    ensures
        picked_step_of(result) == (match GemmDims::resolve(dims, dims.1, dims.1) {
            Err(error) => Err::<(TcTile, HalfStep), LaunchError>(error),
            Ok(_) => match picked {
                None => Err::<(TcTile, HalfStep), LaunchError>(
                    LaunchError::Uncovered(UncoveredProduct::BackwardDwTc, dims),
                ),
                Some(tile) => with_tile(
                    tile,
                    dw_tc_step(dw_ptr, dy, x_saved, dims, tile, target),
                ),
            },
        }),
{
    let _ = GemmDims::tn(dims)?;
    match picked {
        None => Err(LaunchError::Uncovered(UncoveredProduct::BackwardDwTc, dims)),
        Some(tile) => {
            let launch = gemm_bi_backward_dw_tc_with_tile(dw_ptr, dy, x_saved, dims, tile, target)?;
            Ok((tile, launch))
        },
    }
}

/// The input-gradient kernel of a tile.
pub open spec fn dx_tc_kernel(tile: TcTile) -> Result<HalfKernel, LaunchError> {
    match tile {
        TcTile::Tile128 => Ok(HalfKernel::NtTc),
        TcTile::Tile64 => Ok(HalfKernel::NtTc64),
        TcTile::Thin16 => Err(
            LaunchError::Rejected(
                "Thin16 is an NN-forward rung; the NT dX path has no thin tile",
            ),
        ),
        TcTile::Rect128x64 => Err(
            LaunchError::Rejected(
                "Rect128x64 is a forced TN dW tile; NT has no rectangular route",
            ),
        ),
        TcTile::Tile64StreamK => Err(
            LaunchError::Rejected("Tile64StreamK is a TN dW schedule; NT has no stream-K route"),
        ),
    }
}

/// The launch of an input gradient on a forced tile.
pub open spec fn dx_tc_step(
    dx: TypedPtr,
    dy: TypedPtr,
    w: TypedPtr,
    dims: (usize, usize, usize),
    tile: TcTile,
) -> Result<HalfStep, LaunchError> {
    let tensors = HalfGemmArguments { output: dx.ptr, a: dy.ptr, b: w.ptr, bias: 0 };
    match GemmDims::resolve(dims, dims.2, dims.2) {
        Err(error) => Err(error),
        Ok(_) => match require_half(dx.dtype, "dX") {
            Err(error) => Err(error),
            Ok(_) => if dx.dtype != dy.dtype || dy.dtype != w.dtype {
                Err(LaunchError::Rejected("gemm_bi_backward_dx_tc: mixed dtypes not supported"))
            } else {
                match tile.config(dims.0, dims.1, NT_TC_SHARED_BYTES) {
                    Err(error) => Err(error),
                    Ok(config) => match dx_tc_kernel(tile) {
                        Err(error) => Err(error),
                        Ok(kernel) => Ok(
                            half_launch::half_step(
                                kernel,
                                dx.dtype,
                                ResolvedGemmOp::Nt,
                                F32TriadShape::contiguous(ResolvedGemmOp::Nt, dims),
                                tile.tiling(),
                                tensors,
                                config,
                                half_launch::backward_args(
                                    tensors,
                                    dims.0 as i32,
                                    dims.2 as i32,
                                    dims.1 as i32,
                                ),
                            ),
                        ),
                    },
                }
            },
        },
    }
}

/// `dX = dY W^T` on the tensor cores with a forced tile.
pub fn gemm_bi_backward_dx_tc_with_tile(
    dx: TypedPtr,
    dy: TypedPtr,
    w: TypedPtr,
    dims: (usize, usize, usize),
    tile: TcTile,
) -> (result: Result<HalfLaunch, LaunchError>)
    ensures
        half_launch::half_step_of(result) == dx_tc_step(dx, dy, w, dims, tile),
{
    let checked = GemmDims::nt(dims)?;
    require_half(dx.dtype, "dX")?;
    if dx.dtype != dy.dtype || dy.dtype != w.dtype {
        return Err(LaunchError::Rejected("gemm_bi_backward_dx_tc: mixed dtypes not supported"));
    }
    let tensors = HalfGemmArguments { output: dx.ptr, a: dy.ptr, b: w.ptr, bias: 0 };
    let config = tile.launch_cfg(checked.m, checked.k, NT_TC_SHARED_BYTES)?;
    let kernel = match tile {
        TcTile::Tile128 => HalfKernel::NtTc,
        TcTile::Tile64 => HalfKernel::NtTc64,
        TcTile::Thin16 => {
            return Err(
                LaunchError::Rejected(
                    "Thin16 is an NN-forward rung; the NT dX path has no thin tile",
                ),
            );
        },
        TcTile::Rect128x64 => {
            return Err(
                LaunchError::Rejected(
                    "Rect128x64 is a forced TN dW tile; NT has no rectangular route",
                ),
            );
        },
        TcTile::Tile64StreamK => {
            return Err(
                LaunchError::Rejected(
                    "Tile64StreamK is a TN dW schedule; NT has no stream-K route",
                ),
            );
        },
    };
    Ok(
        half_launch(
            kernel,
            dx.dtype,
            ResolvedGemmOp::Nt,
            F32TriadShape::contiguous(ResolvedGemmOp::Nt, dims),
            tile.tiling(),
            tensors,
            config,
            build_backward_args(
                tensors,
                checked.m as i32,
                checked.n as i32,
                checked.k as i32,
            ),
        ),
    )
}

/// `dX = dY W^T` on the tensor cores. `picked` is the tile that the
/// dispatcher picks for the shape and the device, if it covers it.
pub fn gemm_bi_backward_dx_tc(
    dx: TypedPtr,
    dy: TypedPtr,
    w: TypedPtr,
    dims: (usize, usize, usize),
    picked: Option<TcTile>,
) -> (result: Result<(TcTile, HalfLaunch), LaunchError>)
    ensures
        picked_step_of(result) == (match GemmDims::resolve(dims, dims.2, dims.2) {
            Err(error) => Err::<(TcTile, HalfStep), LaunchError>(error),
            Ok(_) => match picked {
                None => Err::<(TcTile, HalfStep), LaunchError>(
                    LaunchError::Uncovered(UncoveredProduct::BackwardDxTc, dims),
                ),
                Some(tile) => with_tile(tile, dx_tc_step(dx, dy, w, dims, tile)),
            },
        }),
{
    let _ = GemmDims::nt(dims)?;
    match picked {
        None => Err(LaunchError::Uncovered(UncoveredProduct::BackwardDxTc, dims)),
        Some(tile) => {
            let launch = gemm_bi_backward_dx_tc_with_tile(dx, dy, w, dims, tile)?;
            Ok((tile, launch))
        },
    }
}

} // verus!
