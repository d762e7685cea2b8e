//! Kernel launches as data: geometry, arguments and programs.

use crate::digest::Sha256Digest;
use crate::error::LaunchError;
use crate::params::{
    SgbNnM64N64Params, SgbZeroReductionParams, Sm100KernelParams, Sm120FmaKernelParams,
    Sm120KernelParams, Sm80Tf32KernelParams, Sm90aTf32KernelParams,
};
use vstd::prelude::*;

verus! {

/// Grid, block and dynamic shared memory of one launch.
#[derive(Clone, Copy, Debug, PartialEq, Eq)]
pub struct LaunchConfig {
    pub grid_dim: (u32, u32, u32),
    pub block_dim: (u32, u32, u32),
    pub shared_mem_bytes: u32,
}

impl LaunchConfig {
    /// A one-dimensional grid of one-dimensional blocks.
    #[verifier::allow_in_spec]
    pub fn linear(grid: u32, block: u32, shared_mem_bytes: u32) -> LaunchConfig
        returns
            (LaunchConfig { grid_dim: (grid, 1, 1), block_dim: (block, 1, 1), shared_mem_bytes }),
    {
        LaunchConfig { grid_dim: (grid, 1, 1), block_dim: (block, 1, 1), shared_mem_bytes }
    }

    /// Whether two configurations launch the same geometry.
    pub fn same(&self, other: &LaunchConfig) -> (equal: bool)
        ensures
            equal == (*self == *other),
    {
        self.grid_dim.0 == other.grid_dim.0 && self.grid_dim.1 == other.grid_dim.1
            && self.grid_dim.2 == other.grid_dim.2 && self.block_dim.0 == other.block_dim.0
            && self.block_dim.1 == other.block_dim.1 && self.block_dim.2 == other.block_dim.2
            && self.shared_mem_bytes == other.shared_mem_bytes
    }
}

/// A launch geometry together with the digest of its arguments.
#[derive(Clone, Copy, Debug, PartialEq, Eq)]
pub struct ResolvedKernelLaunch {
    pub grid_dim: (u32, u32, u32),
    pub block_dim: (u32, u32, u32),
    pub shared_mem_bytes: u32,
    pub arguments_digest: Sha256Digest,
}

impl ResolvedKernelLaunch {
    /// The geometry alone.
    #[verifier::allow_in_spec]
    pub fn config(self) -> LaunchConfig
        returns
            (LaunchConfig {
                grid_dim: self.grid_dim,
                block_dim: self.block_dim,
                shared_mem_bytes: self.shared_mem_bytes,
            }),
    {
        LaunchConfig {
            grid_dim: self.grid_dim,
            block_dim: self.block_dim,
            shared_mem_bytes: self.shared_mem_bytes,
        }
    }
}

/// An encoded tensor map.
#[derive(Clone, Copy, Debug, PartialEq, Eq)]
pub struct TensorMap {
    pub bytes: [u8; 128],
}

/// One kernel argument. Floats travel by their bit patterns.
#[derive(Clone, Copy, Debug, PartialEq, Eq)]
pub enum KernelArg {
    Pointer(u64),
    Int(i32),
    Float(u32),
    M64N64(SgbNnM64N64Params),
    ZeroReduction(SgbZeroReductionParams),
    Sm80(Sm80Tf32KernelParams),
    Sm90a(Sm90aTf32KernelParams),
    Sm100(Sm100KernelParams),
    Sm120(Sm120KernelParams),
    Sm120Fma(Sm120FmaKernelParams),
    TensorMap(TensorMap),
}

/// One kernel launch: which kernel, over which grid, on which arguments.
#[derive(Debug, PartialEq, Eq)]
pub struct KernelLaunch {
    pub symbol: &'static str,
    pub config: LaunchConfig,
    pub args: Vec<KernelArg>,
}

/// A kernel launch with its arguments as a sequence.
pub struct LaunchStep {
    pub symbol: &'static str,
    pub config: LaunchConfig,
    pub args: Seq<KernelArg>,
}

impl View for KernelLaunch {
    type V = LaunchStep;

    open spec fn view(&self) -> LaunchStep {
        LaunchStep { symbol: self.symbol, config: self.config, args: self.args@ }
    }
}

/// The launches of a sequence as steps.
pub open spec fn steps(launches: Seq<KernelLaunch>) -> Seq<LaunchStep> {
    Seq::new(launches.len(), |i: int| launches[i]@)
}

/// The launches that a GEMM enqueues, in order, and how it ends. Launches
/// that precede a refusal stay enqueued.
#[derive(Debug, PartialEq, Eq)]
pub struct LaunchProgram {
    pub launches: Vec<KernelLaunch>,
    pub outcome: Result<(), LaunchError>,
}

/// A launch program as mathematics.
#[verifier::ext_equal]
pub struct Program {
    pub launches: Seq<LaunchStep>,
    pub outcome: Result<(), LaunchError>,
}

impl View for LaunchProgram {
    type V = Program;

    open spec fn view(&self) -> Program {
        Program { launches: steps(self.launches@), outcome: self.outcome }
    }
}

/// The step of a launch, or why there is none.
pub open spec fn step_of(launch: Result<KernelLaunch, LaunchError>) -> Result<
    LaunchStep,
    LaunchError,
> {
    match launch {
        Ok(launch) => Ok(launch@),
        Err(error) => Err(error),
    }
}

impl Program {
    /// Nothing is enqueued yet.
    pub open spec fn start() -> Program {
        Program { launches: Seq::empty(), outcome: Ok(()) }
    }

    /// Nothing is enqueued.
    pub open spec fn refused(error: LaunchError) -> Program {
        Program { launches: Seq::empty(), outcome: Err(error) }
    }

    /// Enqueues one more launch, unless the program has already ended.
    pub open spec fn then_launch(self, next: Result<LaunchStep, LaunchError>) -> Program {
        match self.outcome {
            Err(_) => self,
            Ok(_) => match next {
                Ok(step) => Program { launches: self.launches.push(step), outcome: Ok(()) },
                Err(error) => Program { launches: self.launches, outcome: Err(error) },
            },
        }
    }
}

impl LaunchProgram {
    /// Nothing is enqueued yet.
    pub fn start() -> (program: LaunchProgram)
        ensures
            program@ == Program::start(),
    {
        let program = LaunchProgram { launches: Vec::new(), outcome: Ok(()) };
        assert(program@.launches =~= Seq::empty());
        program
    }

    /// Nothing is enqueued.
    pub fn refused(error: LaunchError) -> (program: LaunchProgram)
        ensures
            program@ == Program::refused(error),
    {
        let program = LaunchProgram { launches: Vec::new(), outcome: Err(error) };
        assert(program@.launches =~= Seq::empty());
        program
    }

    /// Enqueues one more launch, unless the program has already ended.
    pub fn then_launch(self, next: Result<KernelLaunch, LaunchError>) -> (program: LaunchProgram)
        ensures
            program@ == self@.then_launch(step_of(next)),
    {
        match self.outcome {
            Err(_) => self,
            Ok(_) => {
                let mut launches = self.launches;
                let ghost before = steps(launches@);
                match next {
                    Ok(launch) => {
                        let ghost step = launch@;
                        launches.push(launch);
                        assert(steps(launches@) =~= before.push(step));
                        LaunchProgram { launches, outcome: Ok(()) }
                    },
                    Err(error) => LaunchProgram { launches, outcome: Err(error) },
                }
            },
        }
    }
}

} // verus!
