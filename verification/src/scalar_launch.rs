//! Argument lists that the scalar GEMM programs share.

use crate::arith::{checked_byte_offset, checked_ptr_add, div_ceil_u32};
use crate::error::LaunchError;
use crate::kernel::{KernelArg, KernelLaunch, LaunchConfig, LaunchStep};
use crate::scalar_plan::ScalarDispatchPlan;
use crate::shape::F32TriadOperands;
use vstd::prelude::*;

verus! {

/// Device workspaces that a scalar plan may use. A workspace that the plan
/// does not use is never read.
#[derive(Clone, Copy, Debug, PartialEq, Eq, Structural)]
pub struct ScalarWorkspace {
    pub split: u64,
    pub transpose: u64,
    pub transpose_len: usize,
}

/// What was frozen when a scalar launch was prepared.
#[derive(Clone, Copy, Debug, PartialEq, Eq, Structural)]
pub struct PreparedScalar {
    pub plan: ScalarDispatchPlan,
    pub operands: F32TriadOperands,
}

/// One launch as a step.
pub open spec fn step(
    symbol: &'static str,
    config: LaunchConfig,
    args: Seq<KernelArg>,
) -> LaunchStep {
    LaunchStep { symbol, config, args }
}

/// Builds one launch.
pub fn launch(symbol: &'static str, config: LaunchConfig, args: Vec<KernelArg>) -> (launch:
    KernelLaunch)
    ensures
        launch@ == step(symbol, config, args@),
{
    KernelLaunch { symbol, config, args }
}

/// The grid of a reducer: one thread per output in blocks of 256.
#[verifier::allow_in_spec]
pub fn reduce_config(outputs: u32) -> LaunchConfig
    returns
        LaunchConfig::linear(div_ceil_u32(outputs, 256), 256, 0),
{
    LaunchConfig::linear(div_ceil_u32(outputs, 256), 256, 0)
}

/// The tail that a split-K reducer folds behind the partial sums.
#[derive(Clone, Copy, Debug, PartialEq, Eq, Structural)]
pub struct ReduceTail {
    pub x: u64,
    pub w: u64,
    pub x_stride: i32,
    pub out_stride: i32,
    pub count: i32,
}

/// No tail, densely packed output.
pub open spec fn no_tail() -> ReduceTail {
    ReduceTail { x: 0, w: 0, x_stride: 0, out_stride: 0, count: 0 }
}

/// No tail, densely packed output.
pub fn without_tail() -> (tail: ReduceTail)
    ensures
        tail == no_tail(),
{
    ReduceTail { x: 0, w: 0, x_stride: 0, out_stride: 0, count: 0 }
}

/// The arguments of `gemm_bi_splitk_reduce`.
pub open spec fn splitk_reduce_args(
    output: u64,
    partial: u64,
    bias: u64,
    alpha: u32,
    rows: i32,
    columns: i32,
    chunks: i32,
    tail: ReduceTail,
) -> Seq<KernelArg> {
    seq![
        KernelArg::Pointer(output),
        KernelArg::Pointer(partial),
        KernelArg::Pointer(bias),
        KernelArg::Pointer(tail.x),
        KernelArg::Pointer(tail.w),
        KernelArg::Float(alpha),
        KernelArg::Int(rows),
        KernelArg::Int(columns),
        KernelArg::Int(chunks),
        KernelArg::Int(tail.x_stride),
        KernelArg::Int(tail.out_stride),
        KernelArg::Int(tail.count),
    ]
}

/// Builds the arguments of `gemm_bi_splitk_reduce`.
pub fn build_splitk_reduce_args(
    output: u64,
    partial: u64,
    bias: u64,
    alpha: u32,
    rows: i32,
    columns: i32,
    chunks: i32,
    tail: ReduceTail,
) -> (args: Vec<KernelArg>)
    ensures
        args@ == splitk_reduce_args(output, partial, bias, alpha, rows, columns, chunks, tail),
{
    let args = vec![
        KernelArg::Pointer(output),
        KernelArg::Pointer(partial),
        KernelArg::Pointer(bias),
        KernelArg::Pointer(tail.x),
        KernelArg::Pointer(tail.w),
        KernelArg::Float(alpha),
        KernelArg::Int(rows),
        KernelArg::Int(columns),
        KernelArg::Int(chunks),
        KernelArg::Int(tail.x_stride),
        KernelArg::Int(tail.out_stride),
        KernelArg::Int(tail.count),
    ];
    assert(args@ =~= splitk_reduce_args(
        output,
        partial,
        bias,
        alpha,
        rows,
        columns,
        chunks,
        tail,
    ));
    args
}

/// The address of an f32 element behind a base pointer.
pub open spec fn element_address(
    base: u64,
    elements: usize,
    what: &'static str,
) -> Result<u64, LaunchError> {
    match checked_byte_offset(elements, 4, what) {
        Err(error) => Err(error),
        Ok(offset) => checked_ptr_add(base, offset, what),
    }
}

/// The address of an f32 element behind a base pointer.
pub fn f32_element_address(base: u64, elements: usize, what: &'static str) -> (address: Result<
    u64,
    LaunchError,
>)
    ensures
        address == element_address(base, elements, what),
{
    let offset: u64 = checked_byte_offset(elements, 4, what)?;
    checked_ptr_add(base, offset, what)
}

} // verus!
