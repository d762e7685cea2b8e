//! One half-precision launch together with what is recorded of it.

use crate::error::LaunchError;
use crate::half_kernel::HalfKernel;
use crate::half_kernel::half_symbol;
use crate::identity::WeightDtype;
use crate::kernel::{KernelArg, KernelLaunch, LaunchConfig, LaunchStep};
use crate::shape::{F32TriadShape, ResolvedGemmOp, F32_ONE_BITS, F32_ZERO_BITS};
use vstd::prelude::*;

verus! {

/// A device pointer with its element type.
#[derive(Clone, Copy, Debug, PartialEq, Eq, Structural)]
pub struct TypedPtr {
    pub ptr: u64,
    pub dtype: WeightDtype,
}

/// The tensors of a half-precision product. A null bias is no bias.
#[derive(Clone, Copy, Debug, PartialEq, Eq, Structural)]
pub struct HalfGemmArguments {
    pub output: u64,
    pub a: u64,
    pub b: u64,
    pub bias: u64,
}

/// What a half-precision launch is recorded under.
#[derive(Clone, Copy, Debug, PartialEq, Eq)]
pub struct HalfGemmObservation {
    pub base: &'static str,
    pub op: ResolvedGemmOp,
    pub dtype: WeightDtype,
    pub dims: (usize, usize, usize),
    pub strides: (usize, usize, usize),
    pub tile: (u32, u32),
    pub bk_stages: (u32, u8),
    pub arguments: HalfGemmArguments,
}

impl HalfGemmObservation {
    /// The shape of the product.
    #[verifier::allow_in_spec]
    pub fn shape(self) -> F32TriadShape
        returns
            (F32TriadShape {
                m: self.dims.0,
                k: self.dims.1,
                n: self.dims.2,
                lda: self.strides.0,
                ldb: self.strides.1,
                ldc: self.strides.2,
            }),
    {
        F32TriadShape {
            m: self.dims.0,
            k: self.dims.1,
            n: self.dims.2,
            lda: self.strides.0,
            ldb: self.strides.1,
            ldc: self.strides.2,
        }
    }
}

/// The branch that a half-precision product took, without its tensors.
#[derive(Clone, Copy, Debug, PartialEq, Eq)]
pub struct HalfNativeBranchSeal {
    pub base: &'static str,
    pub op: ResolvedGemmOp,
    pub dtype: WeightDtype,
    pub dims: (usize, usize, usize),
    pub strides: (usize, usize, usize),
    pub tile: (u32, u32),
    pub bk_stages: (u32, u8),
    pub grid_dim: (u32, u32, u32),
    pub block_dim: (u32, u32, u32),
    pub shared_mem_bytes: u32,
}

/// The seal of an enqueued launch.
#[verifier::allow_in_spec]
pub fn branch_seal(observation: HalfGemmObservation, config: LaunchConfig) -> HalfNativeBranchSeal
    returns
        (HalfNativeBranchSeal {
            base: observation.base,
            op: observation.op,
            dtype: observation.dtype,
            dims: observation.dims,
            strides: observation.strides,
            tile: observation.tile,
            bk_stages: observation.bk_stages,
            grid_dim: config.grid_dim,
            block_dim: config.block_dim,
            shared_mem_bytes: config.shared_mem_bytes,
        }),
{
    HalfNativeBranchSeal {
        base: observation.base,
        op: observation.op,
        dtype: observation.dtype,
        dims: observation.dims,
        strides: observation.strides,
        tile: observation.tile,
        bk_stages: observation.bk_stages,
        grid_dim: config.grid_dim,
        block_dim: config.block_dim,
        shared_mem_bytes: config.shared_mem_bytes,
    }
}

/// A half-precision launch and its observation.
#[derive(Debug, PartialEq, Eq)]
pub struct HalfLaunch {
    pub launch: KernelLaunch,
    pub observation: HalfGemmObservation,
}

/// A half-precision launch with its arguments as a sequence.
#[verifier::ext_equal]
pub struct HalfStep {
    pub step: LaunchStep,
    pub observation: HalfGemmObservation,
}

impl View for HalfLaunch {
    type V = HalfStep;

    open spec fn view(&self) -> HalfStep {
        HalfStep { step: self.launch@, observation: self.observation }
    }
}

impl HalfLaunch {
    /// The branch that was taken.
    pub fn seal(&self) -> (seal: HalfNativeBranchSeal)
        ensures
            seal == branch_seal(self@.observation, self@.step.config),
    {
        branch_seal(self.observation, self.launch.config)
    }
}

/// The step of a launch, or why there is none.
pub open spec fn half_step_of(launch: Result<HalfLaunch, LaunchError>) -> Result<
    HalfStep,
    LaunchError,
> {
    match launch {
        Ok(launch) => Ok(launch@),
        Err(error) => Err(error),
    }
}

/// The tile geometry of a half kernel.
#[derive(Clone, Copy, Debug, PartialEq, Eq)]
pub struct HalfTiling {
    pub tile: (u32, u32),
    pub bk_stages: (u32, u8),
}

/// The step of a kernel on a product.
pub open spec fn half_step(
    kernel: HalfKernel,
    dtype: WeightDtype,
    op: ResolvedGemmOp,
    shape: F32TriadShape,
    tiling: HalfTiling,
    arguments: HalfGemmArguments,
    config: LaunchConfig,
    args: Seq<KernelArg>,
) -> HalfStep {
    HalfStep {
        step: LaunchStep { symbol: half_symbol(kernel, dtype)->0, config, args },
        observation: HalfGemmObservation {
            base: kernel.base(),
            op,
            dtype,
            dims: (shape.m, shape.k, shape.n),
            strides: (shape.lda, shape.ldb, shape.ldc),
            tile: tiling.tile,
            bk_stages: tiling.bk_stages,
            arguments,
        },
    }
}

/// Builds the launch of a kernel on a product.
pub fn half_launch(
    kernel: HalfKernel,
    dtype: WeightDtype,
    op: ResolvedGemmOp,
    shape: F32TriadShape,
    tiling: HalfTiling,
    arguments: HalfGemmArguments,
    config: LaunchConfig,
    args: Vec<KernelArg>,
) -> (launch: HalfLaunch)
    requires
        half_symbol(kernel, dtype) is Some,
    ensures
        launch@ == half_step(kernel, dtype, op, shape, tiling, arguments, config, args@),
{
    let symbol: &'static str = match half_symbol(kernel, dtype) {
        Some(symbol) => symbol,
        None => kernel.base(),
    };
    HalfLaunch {
        launch: KernelLaunch { symbol, config, args },
        observation: HalfGemmObservation {
            base: kernel.base(),
            op,
            dtype,
            dims: (shape.m, shape.k, shape.n),
            strides: (shape.lda, shape.ldb, shape.ldc),
            tile: tiling.tile,
            bk_stages: tiling.bk_stages,
            arguments,
        },
    }
}

/// The arguments of the tiled forward kernels: an unscaled product that
/// overwrites the output.
pub open spec fn nn_args(
    tensors: HalfGemmArguments,
    m: i32,
    n: i32,
    k: i32,
    strides: (i32, i32, i32),
) -> Seq<KernelArg> {
    seq![
        KernelArg::Pointer(tensors.output),
        KernelArg::Pointer(tensors.a),
        KernelArg::Pointer(tensors.b),
        KernelArg::Pointer(tensors.bias),
        KernelArg::Float(F32_ONE_BITS),
        KernelArg::Float(F32_ZERO_BITS),
        KernelArg::Int(m),
        KernelArg::Int(n),
        KernelArg::Int(k),
        KernelArg::Int(strides.0),
        KernelArg::Int(strides.1),
        KernelArg::Int(strides.2),
    ]
}

/// Builds the arguments of the tiled forward kernels.
pub fn build_nn_args(
    tensors: HalfGemmArguments,
    m: i32,
    n: i32,
    k: i32,
    strides: (i32, i32, i32),
) -> (args: Vec<KernelArg>)
    ensures
        args@ == nn_args(tensors, m, n, k, strides),
{
    let args = vec![
        KernelArg::Pointer(tensors.output),
        KernelArg::Pointer(tensors.a),
        KernelArg::Pointer(tensors.b),
        KernelArg::Pointer(tensors.bias),
        KernelArg::Float(F32_ONE_BITS),
        KernelArg::Float(F32_ZERO_BITS),
        KernelArg::Int(m),
        KernelArg::Int(n),
        KernelArg::Int(k),
        KernelArg::Int(strides.0),
        KernelArg::Int(strides.1),
        KernelArg::Int(strides.2),
    ];
    assert(args@ =~= nn_args(tensors, m, n, k, strides));
    args
}

/// The arguments of the tiled backward kernels: an unscaled product over
/// three extents.
pub open spec fn backward_args(
    tensors: HalfGemmArguments,
    first: i32,
    second: i32,
    third: i32,
) -> Seq<KernelArg> {
    seq![
        KernelArg::Pointer(tensors.output),
        KernelArg::Pointer(tensors.a),
        KernelArg::Pointer(tensors.b),
        KernelArg::Float(F32_ONE_BITS),
        KernelArg::Int(first),
        KernelArg::Int(second),
        KernelArg::Int(third),
    ]
}

/// Builds the arguments of the tiled backward kernels.
pub fn build_backward_args(
    tensors: HalfGemmArguments,
    first: i32,
    second: i32,
    third: i32,
) -> (args: Vec<KernelArg>)
    ensures
        args@ == backward_args(tensors, first, second, third),
{
    let args = vec![
        KernelArg::Pointer(tensors.output),
        KernelArg::Pointer(tensors.a),
        KernelArg::Pointer(tensors.b),
        KernelArg::Float(F32_ONE_BITS),
        KernelArg::Int(first),
        KernelArg::Int(second),
        KernelArg::Int(third),
    ];
    assert(args@ =~= backward_args(tensors, first, second, third));
    args
}

} // verus!
