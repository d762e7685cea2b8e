//! Half-precision products on the specialized tensor-map kernels of the
//! SM90a, SM100 and SM120 families.

use crate::arith;
use crate::arith::{checked_grid_product, checked_i32, checked_u32, div_ceil_u32, div_ceil_usize};
use crate::digest::Sha256Digest;
use crate::error::LaunchError;
use crate::identity::{
    AllocationDomain, ArtifactIdentity, CompilerIdentity, CudaTarget, DeviceCaps, DeviceIdentity,
    HalfTriadPolicy, PolicyDtype, WeightDtype,
};
use crate::kernel::{KernelArg, LaunchConfig, TensorMap};
use crate::params;
use crate::params::{Sm100KernelParams, Sm120KernelParams};
use crate::scalar_plan::SPLITK_SCRATCH_CAP;
use crate::shape::{is_one, is_zero, F32TriadShape, ResolvedGemmOp};
use crate::tf32_plan::FoldLimits;
use crate::tf32_routes::Tf32TensorOrigins;
use vstd::prelude::*;

verus! {

/// The families with tensor-map kernels.
#[derive(Clone, Copy, Debug, PartialEq, Eq, Structural)]
pub enum TmaFamily {
    Sm90a,
    Sm100,
    Sm120,
}

/// Output rows and columns of one CTA.
#[derive(Clone, Copy, Debug, PartialEq, Eq, Structural)]
pub struct TmaTile {
    pub rows: u32,
    pub columns: u32,
}

/// The tile of the SM90a kernels.
pub const SM90A_TILE: (u32, u32) = (64, 128);

/// How output tiles are dealt to CTAs.
#[derive(Clone, Copy, Debug, PartialEq, Eq, Structural)]
pub enum TmaSchedule {
    Tiled,
    StreamK,
}

/// A member of a kernel family. A wide warp holds four row atoms in place
/// of two. The schedules of SM90a differ in the threads of a CTA.
#[derive(Clone, Copy, Debug, PartialEq, Eq, Structural)]
pub struct TmaPhysicalRoute {
    pub tile: TmaTile,
    pub bk: u32,
    pub stages: u8,
    pub schedule: TmaSchedule,
    pub threads: u32,
    pub wide_m_warp: bool,
}

/// A member of a kernel family on a product.
#[derive(Clone, Copy, Debug, PartialEq, Eq, Structural)]
pub struct TmaForcedRoute {
    pub op: ResolvedGemmOp,
    pub dtype: WeightDtype,
    pub physical: TmaPhysicalRoute,
    pub shape: F32TriadShape,
}

impl TmaForcedRoute {
    /// The tile and the slab depth are not empty.
    pub open spec fn wf(self) -> bool {
        self.physical.tile.rows > 0 && self.physical.tile.columns > 0 && self.physical.bk > 0
    }
}

/// What a launch reads and writes beside its tensor maps. A null bias is no
/// bias.
#[derive(Clone, Copy, Debug, PartialEq, Eq, Structural)]
pub struct TmaLaunchOperands {
    pub output_ptr: u64,
    pub bias_ptr: u64,
    pub alpha: u32,
    pub beta: u32,
}

/// A product that asks for a route.
#[derive(Clone, Copy, Debug, PartialEq, Eq, Structural)]
pub struct TmaAutoRequest {
    pub op: ResolvedGemmOp,
    pub dtype: WeightDtype,
    pub shape: F32TriadShape,
    pub a_ptr: u64,
    pub b_ptr: u64,
    pub multiprocessors: u32,
    pub half_policy: HalfTriadPolicy,
    pub operands: TmaLaunchOperands,
}

/// What tensor maps were encoded for.
#[derive(Clone, Copy, Debug, PartialEq, Eq, Structural)]
pub struct TmaMapRequest {
    pub op: ResolvedGemmOp,
    pub dtype: WeightDtype,
    pub tile: TmaTile,
    pub bk: u32,
    pub a_ptr: u64,
    pub b_ptr: u64,
    pub shape: F32TriadShape,
}

impl TmaMapRequest {
    /// The maps that a route needs.
    #[verifier::allow_in_spec]
    pub fn of(route: TmaForcedRoute, request: TmaAutoRequest) -> TmaMapRequest
        returns
            (TmaMapRequest {
                op: route.op,
                dtype: route.dtype,
                tile: route.physical.tile,
                bk: route.physical.bk,
                a_ptr: request.a_ptr,
                b_ptr: request.b_ptr,
                shape: route.shape,
            }),
    {
        TmaMapRequest {
            op: route.op,
            dtype: route.dtype,
            tile: route.physical.tile,
            bk: route.physical.bk,
            a_ptr: request.a_ptr,
            b_ptr: request.b_ptr,
            shape: route.shape,
        }
    }

    /// The maps were encoded for the route. Only SM120 maps depend on the
    /// slab depth, and SM90a has one tile.
    #[verifier::allow_in_spec]
    pub fn serves(self, family: TmaFamily, route: TmaForcedRoute) -> bool
        returns
            (self.op == route.op && self.dtype == route.dtype && self.shape == route.shape && (
            family == TmaFamily::Sm90a || self.tile == route.physical.tile) && (family
                != TmaFamily::Sm120 || self.bk == route.physical.bk)),
    {
        self.op == route.op && self.dtype == route.dtype && self.shape == route.shape && (family
            == TmaFamily::Sm90a || self.tile == route.physical.tile) && (family
            != TmaFamily::Sm120 || self.bk == route.physical.bk)
    }
}

/// A target that a module of a family may be compiled for: the device that
/// it runs on, and the architectures that the compiler and the image name.
#[derive(Clone, Copy, Debug, PartialEq, Eq)]
pub struct TmaTargetCandidate {
    pub device_cc: (i32, i32),
    pub nvrtc_arch: CudaTarget,
    pub ptx_target: CudaTarget,
}

impl TmaTargetCandidate {
    /// Whether two candidates agree in every field.
    pub fn same(&self, other: &TmaTargetCandidate) -> (equal: bool)
        ensures
            equal == (*self == *other),
    {
        self.device_cc.0 == other.device_cc.0 && self.device_cc.1 == other.device_cc.1
            && self.nvrtc_arch == other.nvrtc_arch && self.ptx_target == other.ptx_target
    }
}

/// The module and device that a family runs on. SM90a has one target, and
/// only SM120 bindings hold the device's capabilities.
#[derive(Clone, Copy, Debug, PartialEq, Eq)]
pub struct TmaBinding {
    pub allocation_domain: AllocationDomain,
    pub artifact: ArtifactIdentity,
    pub compiler: CompilerIdentity,
    pub device: DeviceIdentity,
    pub device_caps: Option<DeviceCaps>,
    pub target: Option<TmaTargetCandidate>,
}

/// Whether two capabilities are the same in every field.
pub fn same_caps(left: &Option<DeviceCaps>, right: &Option<DeviceCaps>) -> (equal: bool)
    ensures
        equal == (*left == *right),
{
    match (left, right) {
        (Some(a), Some(b)) => a.same(b),
        (None, None) => true,
        _ => false,
    }
}

/// Whether two targets are the same in every field.
pub fn same_target(left: &Option<TmaTargetCandidate>, right: &Option<TmaTargetCandidate>) -> (equal:
    bool)
    ensures
        equal == (*left == *right),
{
    match (left, right) {
        (Some(a), Some(b)) => a.same(b),
        (None, None) => true,
        _ => false,
    }
}

impl TmaBinding {
    /// Whether two bindings agree in every field.
    pub fn same(&self, other: &TmaBinding) -> (equal: bool)
        ensures
            equal == (*self == *other),
    {
        self.allocation_domain == other.allocation_domain && self.artifact.same(&other.artifact)
            && self.compiler.same(&other.compiler) && self.device.same(&other.device)
            && same_caps(&self.device_caps, &other.device_caps) && same_target(
            &self.target,
            &other.target,
        )
    }
}

/// Encoded tensor maps, with the digest that they are known by.
#[derive(Clone, Copy, Debug, PartialEq, Eq)]
pub struct TmaPreparedMaps {
    pub request: TmaMapRequest,
    pub binding: TmaBinding,
    pub origins: Tf32TensorOrigins,
    pub a: TensorMap,
    pub b: TensorMap,
    pub identity: Sha256Digest,
}

/// The error texts of a family.
#[derive(Clone, Copy, Debug, PartialEq, Eq)]
pub struct TmaTexts {
    pub null_output: &'static str,
    pub output_alignment: &'static str,
    pub tn_output_alignment: &'static str,
    pub bias_alignment: &'static str,
    pub nn_bias_seed: &'static str,
    pub tn_epilogue: &'static str,
    pub nt_epilogue: &'static str,
    pub dtype: &'static str,
    pub foreign_maps: &'static str,
    pub other_maps: &'static str,
    pub unavailable: &'static str,
    pub capturing: &'static str,
    pub output_rows: &'static str,
    pub output_columns: &'static str,
    pub module_context: &'static str,
    pub maps_capturing: &'static str,
    pub maps_module: &'static str,
    pub census: &'static str,
    pub symbol_changed: &'static str,
    pub kernel_missing: &'static str,
}

/// The error texts of a family.
#[verifier::allow_in_spec]
pub fn tma_texts(family: TmaFamily) -> TmaTexts
    returns
        (match family {
            TmaFamily::Sm90a => TmaTexts {
                null_output: "SM90a output pointer must be non-null",
                output_alignment: "SM90a output pointer must be 2-byte aligned",
                tn_output_alignment: "SM90a output pointer must be 4-byte aligned",
                bias_alignment: "SM90a bias pointer must be 4-byte aligned",
                nn_bias_seed: "SM90a NN bias seeding requires alpha == 1.0",
                tn_epilogue: "SM90a TN requires no bias and beta == 1.0",
                nt_epilogue: "SM90a NT requires no bias and beta == 0.0",
                dtype: "SM90a automatic route requires BF16 or F16",
                foreign_maps:
                    "SM90a prepared tensor maps belong to a different CUDA context or module",
                other_maps: "SM90a prepared tensor maps do not match the forced route",
                unavailable: "SM90a forced route is unavailable; use the resolved baseline",
                capturing: "SM90a launch must be prepared before graph capture",
                output_rows: "SM90a output rows",
                output_columns: "SM90a output columns",
                module_context: "SM90a prepared launch no longer matches its module context",
                maps_capturing: "SM90a tensor maps must be prepared before graph capture",
                maps_module: "SM90a tensor maps require a loaded exact-sm_90a module",
                census: "SM90a resource census for",
                symbol_changed: "SM90a prepared symbol no longer matches its physical route",
                kernel_missing: "SM90a kernel",
            },
            TmaFamily::Sm100 => TmaTexts {
                null_output: "SM100 output pointer must be non-null",
                output_alignment: "SM100 output pointer must be 2-byte aligned",
                tn_output_alignment: "SM100 output pointer must be 4-byte aligned",
                bias_alignment: "SM100 bias pointer must be 4-byte aligned",
                nn_bias_seed: "SM100 NN bias seeding requires alpha == 1.0",
                tn_epilogue: "SM100 TN requires no bias and beta == 1.0",
                nt_epilogue: "SM100 NT requires no bias and beta == 0.0",
                dtype: "SM100 automatic route requires BF16 or F16",
                foreign_maps:
                    "SM100 prepared tensor maps belong to a different CUDA context or module",
                other_maps: "SM100 tensor maps do not match the forced physical route",
                unavailable: "SM100 forced route is unavailable; use the resolved baseline",
                capturing: "SM100 launch must be prepared before graph capture",
                output_rows: "SM100 output rows",
                output_columns: "SM100 output columns",
                module_context: "SM100 prepared launch no longer matches its module context",
                maps_capturing: "SM100 tensor maps must be prepared before graph capture",
                maps_module: "SM100 tensor maps require a complete specialized module",
                census: "SM100 resource census for",
                symbol_changed: "SM100 prepared symbol no longer matches its physical route",
                kernel_missing: "SM100 kernel",
            },
            TmaFamily::Sm120 => TmaTexts {
                null_output: "SM120 output pointer must be non-null",
                output_alignment: "SM120 output pointer must be 2-byte aligned",
                tn_output_alignment: "SM120 output pointer must be 4-byte aligned",
                bias_alignment: "SM120 bias pointer must be 4-byte aligned",
                nn_bias_seed: "SM120 NN bias seeding requires alpha == 1.0",
                tn_epilogue: "SM120 TN requires no bias and beta == 1.0",
                nt_epilogue: "SM120 NT requires no bias and beta == 0.0",
                dtype: "SM120 automatic route requires BF16 or F16",
                foreign_maps:
                    "SM120 prepared tensor maps belong to a different CUDA context or module",
                other_maps: "SM120 tensor maps do not match the forced physical route",
                unavailable: "SM120 forced route is unavailable; use the resolved baseline",
                capturing: "SM120 launch must be prepared before graph capture",
                output_rows: "SM120 output rows",
                output_columns: "SM120 output columns",
                module_context: "SM120 prepared launch no longer matches its module context",
                maps_capturing: "SM120 tensor maps must be prepared before graph capture",
                maps_module: "SM120 tensor maps require a complete specialized module",
                census: "SM120 resource census for",
                symbol_changed: "SM120 prepared symbol no longer matches its physical route",
                kernel_missing: "SM120 kernel",
            },
        }),
{
    match family {
        TmaFamily::Sm90a => TmaTexts {
            null_output: "SM90a output pointer must be non-null",
            output_alignment: "SM90a output pointer must be 2-byte aligned",
            tn_output_alignment: "SM90a output pointer must be 4-byte aligned",
            bias_alignment: "SM90a bias pointer must be 4-byte aligned",
            nn_bias_seed: "SM90a NN bias seeding requires alpha == 1.0",
            tn_epilogue: "SM90a TN requires no bias and beta == 1.0",
            nt_epilogue: "SM90a NT requires no bias and beta == 0.0",
            dtype: "SM90a automatic route requires BF16 or F16",
            foreign_maps: "SM90a prepared tensor maps belong to a different CUDA context or module",
            other_maps: "SM90a prepared tensor maps do not match the forced route",
            unavailable: "SM90a forced route is unavailable; use the resolved baseline",
            capturing: "SM90a launch must be prepared before graph capture",
            output_rows: "SM90a output rows",
            output_columns: "SM90a output columns",
            module_context: "SM90a prepared launch no longer matches its module context",
            maps_capturing: "SM90a tensor maps must be prepared before graph capture",
            maps_module: "SM90a tensor maps require a loaded exact-sm_90a module",
            census: "SM90a resource census for",
            symbol_changed: "SM90a prepared symbol no longer matches its physical route",
            kernel_missing: "SM90a kernel",
        },
        TmaFamily::Sm100 => TmaTexts {
            null_output: "SM100 output pointer must be non-null",
            output_alignment: "SM100 output pointer must be 2-byte aligned",
            tn_output_alignment: "SM100 output pointer must be 4-byte aligned",
            bias_alignment: "SM100 bias pointer must be 4-byte aligned",
            nn_bias_seed: "SM100 NN bias seeding requires alpha == 1.0",
            tn_epilogue: "SM100 TN requires no bias and beta == 1.0",
            nt_epilogue: "SM100 NT requires no bias and beta == 0.0",
            dtype: "SM100 automatic route requires BF16 or F16",
            foreign_maps: "SM100 prepared tensor maps belong to a different CUDA context or module",
            other_maps: "SM100 tensor maps do not match the forced physical route",
            unavailable: "SM100 forced route is unavailable; use the resolved baseline",
            capturing: "SM100 launch must be prepared before graph capture",
            output_rows: "SM100 output rows",
            output_columns: "SM100 output columns",
            module_context: "SM100 prepared launch no longer matches its module context",
            maps_capturing: "SM100 tensor maps must be prepared before graph capture",
            maps_module: "SM100 tensor maps require a complete specialized module",
            census: "SM100 resource census for",
            symbol_changed: "SM100 prepared symbol no longer matches its physical route",
            kernel_missing: "SM100 kernel",
        },
        TmaFamily::Sm120 => TmaTexts {
            null_output: "SM120 output pointer must be non-null",
            output_alignment: "SM120 output pointer must be 2-byte aligned",
            tn_output_alignment: "SM120 output pointer must be 4-byte aligned",
            bias_alignment: "SM120 bias pointer must be 4-byte aligned",
            nn_bias_seed: "SM120 NN bias seeding requires alpha == 1.0",
            tn_epilogue: "SM120 TN requires no bias and beta == 1.0",
            nt_epilogue: "SM120 NT requires no bias and beta == 0.0",
            dtype: "SM120 automatic route requires BF16 or F16",
            foreign_maps: "SM120 prepared tensor maps belong to a different CUDA context or module",
            other_maps: "SM120 tensor maps do not match the forced physical route",
            unavailable: "SM120 forced route is unavailable; use the resolved baseline",
            capturing: "SM120 launch must be prepared before graph capture",
            output_rows: "SM120 output rows",
            output_columns: "SM120 output columns",
            module_context: "SM120 prepared launch no longer matches its module context",
            maps_capturing: "SM120 tensor maps must be prepared before graph capture",
            maps_module: "SM120 tensor maps require a complete specialized module",
            census: "SM120 resource census for",
            symbol_changed: "SM120 prepared symbol no longer matches its physical route",
            kernel_missing: "SM120 kernel",
        },
    }
}

/// Why operands are refused; the first rule broken wins. Weight gradients
/// are f32 and accumulate without a bias, input gradients overwrite without
/// a bias, and a forward bias seeds an unscaled product where the family
/// seeds it.
pub open spec fn tma_operand_fault(
    family: TmaFamily,
    op: ResolvedGemmOp,
    operands: TmaLaunchOperands,
) -> Option<&'static str> {
    let texts = tma_texts(family);
    if operands.output_ptr == 0 {
        Some(texts.null_output)
    } else if op == ResolvedGemmOp::Tn && operands.output_ptr % 4 != 0 {
        Some(texts.tn_output_alignment)
    } else if op != ResolvedGemmOp::Tn && operands.output_ptr % 2 != 0 {
        Some(texts.output_alignment)
    } else if operands.bias_ptr != 0 && operands.bias_ptr % 4 != 0 {
        Some(texts.bias_alignment)
    } else {
        match op {
            ResolvedGemmOp::Nn => if family != TmaFamily::Sm90a && operands.bias_ptr != 0
                && !is_one(operands.alpha) {
                Some(texts.nn_bias_seed)
            } else {
                None
            },
            ResolvedGemmOp::Tn => if operands.bias_ptr != 0 || !is_one(operands.beta) {
                Some(texts.tn_epilogue)
            } else {
                None
            },
            ResolvedGemmOp::Nt => if operands.bias_ptr != 0 || !is_zero(operands.beta) {
                Some(texts.nt_epilogue)
            } else {
                None
            },
        }
    }
}

/// Accepts operands that the kernels of a family can run on.
pub fn validate_tma_operands(
    family: TmaFamily,
    op: ResolvedGemmOp,
    operands: TmaLaunchOperands,
) -> (result: Result<(), LaunchError>)
    ensures
        result == (match tma_operand_fault(family, op, operands) {
            Some(text) => Err::<(), LaunchError>(LaunchError::Rejected(text)),
            None => Ok::<(), LaunchError>(()),
        }),
{
    let texts = tma_texts(family);
    if operands.output_ptr == 0 {
        return Err(LaunchError::Rejected(texts.null_output));
    }
    let accumulates = op == ResolvedGemmOp::Tn;
    if accumulates && operands.output_ptr % 4 != 0 {
        return Err(LaunchError::Rejected(texts.tn_output_alignment));
    }
    if !accumulates && operands.output_ptr % 2 != 0 {
        return Err(LaunchError::Rejected(texts.output_alignment));
    }
    if operands.bias_ptr != 0 && operands.bias_ptr % 4 != 0 {
        return Err(LaunchError::Rejected(texts.bias_alignment));
    }
    match op {
        ResolvedGemmOp::Nn => {
            if family != TmaFamily::Sm90a && operands.bias_ptr != 0 && !is_one(operands.alpha) {
                return Err(LaunchError::Rejected(texts.nn_bias_seed));
            }
        },
        ResolvedGemmOp::Tn => {
            if operands.bias_ptr != 0 || !is_one(operands.beta) {
                return Err(LaunchError::Rejected(texts.tn_epilogue));
            }
        },
        ResolvedGemmOp::Nt => {
            if operands.bias_ptr != 0 || !is_zero(operands.beta) {
                return Err(LaunchError::Rejected(texts.nt_epilogue));
            }
        },
    }
    Ok(())
}

/// The policy element type of a route.
#[verifier::allow_in_spec]
pub fn tma_policy_dtype(family: TmaFamily, dtype: WeightDtype) -> Result<PolicyDtype, LaunchError>
    returns
        (match dtype {
            WeightDtype::Bf16 => Ok::<PolicyDtype, LaunchError>(PolicyDtype::Bf16),
            WeightDtype::F16 => Ok::<PolicyDtype, LaunchError>(PolicyDtype::F16),
            _ => Err::<PolicyDtype, LaunchError>(LaunchError::Rejected(tma_texts(family).dtype)),
        }),
{
    match dtype {
        WeightDtype::Bf16 => Ok(PolicyDtype::Bf16),
        WeightDtype::F16 => Ok(PolicyDtype::F16),
        _ => Err(LaunchError::Rejected(tma_texts(family).dtype)),
    }
}

/// The checked output extents of a product.
pub open spec fn tma_outputs(
    family: TmaFamily,
    op: ResolvedGemmOp,
    shape: F32TriadShape,
) -> Result<(u32, u32), LaunchError> {
    match (
        checked_u32(shape.output_rows(op), tma_texts(family).output_rows),
        checked_u32(shape.output_columns(op), tma_texts(family).output_columns),
    ) {
        (Err(error), _) => Err(error),
        (_, Err(error)) => Err(error),
        (Ok(rows), Ok(columns)) => Ok((rows, columns)),
    }
}

fn build_tma_outputs(family: TmaFamily, op: ResolvedGemmOp, shape: F32TriadShape) -> (result:
    Result<(u32, u32), LaunchError>)
    ensures
        result == tma_outputs(family, op, shape),
{
    let texts = tma_texts(family);
    let rows: u32 = checked_u32(shape.output_rows(op), texts.output_rows)?;
    let columns: u32 = checked_u32(shape.output_columns(op), texts.output_columns)?;
    Ok((rows, columns))
}

/// The grid of a tiled launch: one CTA per output tile.
pub open spec fn tiled_grid(rows: u32, columns: u32, tile: TmaTile) -> Result<u32, LaunchError> {
    checked_grid_product(div_ceil_u32(rows, tile.rows), div_ceil_u32(columns, tile.columns), 1)
}

/// The SM90a launch of a route: one CTA per 64x128 output tile, with the
/// threads of its schedule.
pub open spec fn sm90a_config(route: TmaForcedRoute, shared_mem_bytes: u32) -> Result<
    LaunchConfig,
    LaunchError,
> {
    match tma_outputs(TmaFamily::Sm90a, route.op, route.shape) {
        Err(error) => Err(error),
        Ok((rows, columns)) => match tiled_grid(
            rows,
            columns,
            TmaTile { rows: SM90A_TILE.0, columns: SM90A_TILE.1 },
        ) {
            Err(error) => Err(error),
            Ok(grid) => Ok(LaunchConfig::linear(grid, route.physical.threads, shared_mem_bytes)),
        },
    }
}

/// Builds the SM90a launch of a route. The module says how much dynamic
/// shared memory a CTA has.
pub fn sm90a_launch_config(route: TmaForcedRoute, shared_mem_bytes: u32) -> (result: Result<
    LaunchConfig,
    LaunchError,
>)
    ensures
        result == sm90a_config(route, shared_mem_bytes),
{
    let (rows, columns) = build_tma_outputs(TmaFamily::Sm90a, route.op, route.shape)?;
    let grid: u32 = checked_grid_product(
        div_ceil_u32(rows, SM90A_TILE.0),
        div_ceil_u32(columns, SM90A_TILE.1),
        1,
    )?;
    Ok(LaunchConfig::linear(grid, route.physical.threads, shared_mem_bytes))
}

/// The grid of an SM120 launch.
pub open spec fn sm120_grid(
    route: TmaForcedRoute,
    multiprocessors: u32,
    rows: u32,
    columns: u32,
) -> Result<u32, LaunchError> {
    let row_tiles = div_ceil_u32(rows, route.physical.tile.rows);
    let column_tiles = div_ceil_u32(columns, route.physical.tile.columns);
    let slabs = arith::ceil_div(route.shape.reduction(route.op) as int, route.physical.bk as int);
    let k_tiles = if slabs == 0 {
        1int
    } else {
        slabs
    };
    let tiles = row_tiles * column_tiles;
    match route.physical.schedule {
        TmaSchedule::Tiled => tiled_grid(rows, columns, route.physical.tile),
        TmaSchedule::StreamK => if multiprocessors == 0 {
            Err(LaunchError::Rejected("SM120 stream-K launch requires at least one multiprocessor"))
        } else if tiles > usize::MAX {
            Err(LaunchError::Rejected("SM120 stream-K tile count overflows usize"))
        } else if tiles * k_tiles > usize::MAX {
            Err(LaunchError::Rejected("SM120 stream-K unit count overflows usize"))
        } else if tiles * k_tiles > i32::MAX {
            Err(
                LaunchError::Rejected("SM120 stream-K unit count exceeds the kernel's 32-bit range"),
            )
        } else {
            Ok(multiprocessors)
        },
    }
}

/// The grid of an SM120 launch: one CTA per output tile, or the persistent
/// grid of one CTA per multiprocessor under the stream-K schedule.
pub fn sm120_launch_grid(
    route: TmaForcedRoute,
    multiprocessor_count: u32,
    rows: u32,
    columns: u32,
) -> (result: Result<u32, LaunchError>)
    requires
        route.wf(),
    ensures
        result == sm120_grid(route, multiprocessor_count, rows, columns),
{
    let row_tiles: u32 = div_ceil_u32(rows, route.physical.tile.rows);
    let column_tiles: u32 = div_ceil_u32(columns, route.physical.tile.columns);
    match route.physical.schedule {
        TmaSchedule::Tiled => checked_grid_product(row_tiles, column_tiles, 1),
        TmaSchedule::StreamK => {
            if multiprocessor_count == 0 {
                return Err(
                    LaunchError::Rejected(
                        "SM120 stream-K launch requires at least one multiprocessor",
                    ),
                );
            }
            let reduction: usize = route.shape.reduction(route.op);
            proof {
                arith::ceil_div_is_least_cover(reduction as int, route.physical.bk as int);
            }
            let slabs: usize = div_ceil_usize(reduction, route.physical.bk as usize);
            let k_tiles: usize = if slabs == 0 {
                1
            } else {
                slabs
            };
            let tiles: usize = match (row_tiles as usize).checked_mul(column_tiles as usize) {
                Some(tiles) => tiles,
                None => {
                    return Err(LaunchError::Rejected("SM120 stream-K tile count overflows usize"));
                },
            };
            let units: usize = match tiles.checked_mul(k_tiles) {
                Some(units) => units,
                None => {
                    return Err(LaunchError::Rejected("SM120 stream-K unit count overflows usize"));
                },
            };
            if units as u64 > 0x7fff_ffff {
                return Err(
                    LaunchError::Rejected(
                        "SM120 stream-K unit count exceeds the kernel's 32-bit range",
                    ),
                );
            }
            Ok(multiprocessor_count)
        },
    }
}

/// The floats of one SM120 stream-K slab: sixteen accumulators per row atom
/// and thread.
pub open spec fn sm120_slab_floats(route: TmaForcedRoute, threads: u32) -> int {
    threads * (if route.physical.wide_m_warp {
        4int
    } else {
        2int
    }) * 16
}

/// Why the fixed workspaces cannot hold an SM120 stream-K grid.
pub open spec fn sm120_workspace_fault(
    route: TmaForcedRoute,
    threads: u32,
    grid: u32,
    limits: FoldLimits,
) -> Option<LaunchError> {
    let slots = grid * limits.slots_per_cta;
    let floats = slots * sm120_slab_floats(route, threads);
    if route.physical.schedule != TmaSchedule::StreamK {
        None
    } else if slots > usize::MAX || floats > usize::MAX {
        Some(LaunchError::Rejected("SM120 stream-K slab extent overflows usize"))
    } else if floats > SPLITK_SCRATCH_CAP {
        Some(LaunchError::Rejected("SM120 stream-K slabs exceed the fixed workspace"))
    } else if slots > limits.counter_capacity {
        Some(LaunchError::Rejected("SM120 stream-K flags exceed the fixed counter workspace"))
    } else {
        None
    }
}

/// Accepts a stream-K grid whose slabs and flags fit the fixed workspaces,
/// and says whether the launch takes them: the tiled schedule takes none.
pub fn sm120_streamk_workspace(
    route: TmaForcedRoute,
    threads: u32,
    grid: u32,
    limits: FoldLimits,
) -> (result: Result<bool, LaunchError>)
    ensures
        result == (match sm120_workspace_fault(route, threads, grid, limits) {
            Some(error) => Err::<bool, LaunchError>(error),
            None => Ok::<bool, LaunchError>(route.physical.schedule == TmaSchedule::StreamK),
        }),
{
    if route.physical.schedule != TmaSchedule::StreamK {
        return Ok(false);
    }
    let atoms: u64 = if route.physical.wide_m_warp {
        4
    } else {
        2
    };
    assert(threads * atoms <= 4 * u32::MAX) by (nonlinear_arith)
        requires
            threads <= u32::MAX,
            atoms <= 4,
    ;
    let slab: u64 = threads as u64 * atoms * 16;
    let slots: usize = match (grid as usize).checked_mul(limits.slots_per_cta) {
        Some(slots) => slots,
        None => {
            return Err(LaunchError::Rejected("SM120 stream-K slab extent overflows usize"));
        },
    };
    let floats: usize = if slots == 0 {
        0
    } else if slab > usize::MAX as u64 {
        assert(slots * slab > usize::MAX) by (nonlinear_arith)
            requires
                slots >= 1,
                slab > usize::MAX,
        ;
        return Err(LaunchError::Rejected("SM120 stream-K slab extent overflows usize"));
    } else {
        match slots.checked_mul(slab as usize) {
            Some(floats) => floats,
            None => {
                return Err(LaunchError::Rejected("SM120 stream-K slab extent overflows usize"));
            },
        }
    };
    if floats > SPLITK_SCRATCH_CAP {
        return Err(LaunchError::Rejected("SM120 stream-K slabs exceed the fixed workspace"));
    }
    if slots > limits.counter_capacity {
        return Err(
            LaunchError::Rejected("SM120 stream-K flags exceed the fixed counter workspace"),
        );
    }
    Ok(true)
}

/// The launch of a prepared SM100 or SM120 route.
pub open spec fn tma_config(
    family: TmaFamily,
    route: TmaForcedRoute,
    multiprocessors: u32,
    threads: u32,
    shared_mem_bytes: u32,
) -> Result<LaunchConfig, LaunchError> {
    match tma_outputs(family, route.op, route.shape) {
        Err(error) => Err(error),
        Ok((rows, columns)) => match (if family == TmaFamily::Sm120 {
            sm120_grid(route, multiprocessors, rows, columns)
        } else {
            tiled_grid(rows, columns, route.physical.tile)
        }) {
            Err(error) => Err(error),
            Ok(grid) => Ok(LaunchConfig::linear(grid, threads, shared_mem_bytes)),
        },
    }
}

/// Builds the launch of a prepared SM100 or SM120 route. Only SM120 has a
/// stream-K schedule.
pub fn tma_launch_config(
    family: TmaFamily,
    route: TmaForcedRoute,
    multiprocessor_count: u32,
    threads: u32,
    shared_mem_bytes: u32,
) -> (result: Result<LaunchConfig, LaunchError>)
    requires
        route.wf(),
    ensures
        result == tma_config(family, route, multiprocessor_count, threads, shared_mem_bytes),
{
    let (rows, columns) = build_tma_outputs(family, route.op, route.shape)?;
    let grid: u32 = if family == TmaFamily::Sm120 {
        sm120_launch_grid(route, multiprocessor_count, rows, columns)?
    } else {
        checked_grid_product(
            div_ceil_u32(rows, route.physical.tile.rows),
            div_ceil_u32(columns, route.physical.tile.columns),
            1,
        )?
    };
    Ok(LaunchConfig::linear(grid, threads, shared_mem_bytes))
}

/// The checked kernel extents of a shape.
pub open spec fn tma_extents(shape: F32TriadShape) -> Result<(i32, i32, i32, i32), LaunchError> {
    crate::tf32_routes::checked_extents(shape)
}

fn build_tma_extents(shape: F32TriadShape) -> (result: Result<(i32, i32, i32, i32), LaunchError>)
    ensures
        result == tma_extents(shape),
{
    let m: i32 = checked_i32(shape.m, "M")?;
    let k: i32 = checked_i32(shape.k, "K")?;
    let n: i32 = checked_i32(shape.n, "N")?;
    let ldc: i32 = checked_i32(shape.ldc, "ldc")?;
    Ok((m, k, n, ldc))
}

/// The parameter words of a prepared SM100 or SM120 launch.
pub open spec fn tma_param_words(
    shape: F32TriadShape,
    origins: Tf32TensorOrigins,
    operands: TmaLaunchOperands,
) -> Result<Seq<u32>, LaunchError> {
    match tma_extents(shape) {
        Err(error) => Err(error),
        Ok((m, k, n, ldc)) => Ok(
            (Sm100KernelParams {
                a_x: origins.a_x,
                a_y: origins.a_y,
                b_x: origins.b_x,
                b_y: origins.b_y,
                alpha: operands.alpha,
                beta: operands.beta,
                m,
                k,
                n,
                ldc,
            }).words(),
        ),
    }
}

/// Builds the parameter words of a prepared SM100 or SM120 launch, whose
/// blocks are laid out alike.
pub fn tma_params(
    shape: F32TriadShape,
    origins: Tf32TensorOrigins,
    operands: TmaLaunchOperands,
) -> (result: Result<[u32; 10], LaunchError>)
    ensures
        match (result, tma_param_words(shape, origins, operands)) {
            (Ok(words), Ok(expected)) => words@ == expected,
            (Err(error), Err(expected)) => error == expected,
            _ => false,
        },
{
    let (m, k, n, ldc) = build_tma_extents(shape)?;
    let params = Sm100KernelParams {
        a_x: origins.a_x,
        a_y: origins.a_y,
        b_x: origins.b_x,
        b_y: origins.b_y,
        alpha: operands.alpha,
        beta: operands.beta,
        m,
        k,
        n,
        ldc,
    };
    Ok(params.into_words())
}

/// The SM100 and SM120 blocks hold the same fields at the same offsets.
pub proof fn sm100_and_sm120_blocks_agree(sm100: Sm100KernelParams, sm120: Sm120KernelParams)
    requires
        sm100.a_x == sm120.a_x,
        sm100.a_y == sm120.a_y,
        sm100.b_x == sm120.b_x,
        sm100.b_y == sm120.b_y,
        sm100.alpha == sm120.alpha,
        sm100.beta == sm120.beta,
        sm100.m == sm120.m,
        sm100.k == sm120.k,
        sm100.n == sm120.n,
        sm100.ldc == sm120.ldc,
    ensures
        sm100.words() == sm120.words(),
{
    assert(sm100.words() =~= sm120.words());
}

/// The arguments of an SM90a launch.
pub open spec fn sm90a_args(
    operands: TmaLaunchOperands,
    a: TensorMap,
    b: TensorMap,
    extents: (i32, i32, i32, i32),
) -> Seq<KernelArg> {
    seq![
        KernelArg::Pointer(operands.output_ptr),
        KernelArg::TensorMap(a),
        KernelArg::TensorMap(b),
        KernelArg::Pointer(operands.bias_ptr),
        KernelArg::Float(operands.alpha),
        KernelArg::Float(operands.beta),
        KernelArg::Int(extents.0),
        KernelArg::Int(extents.1),
        KernelArg::Int(extents.2),
        KernelArg::Int(extents.3),
    ]
}

/// Builds the arguments of an SM90a launch.
pub fn sm90a_arguments(
    operands: TmaLaunchOperands,
    maps: &TmaPreparedMaps,
    shape: F32TriadShape,
) -> (result: Result<Vec<KernelArg>, LaunchError>)
    ensures
        match (result, tma_extents(shape)) {
            (Ok(args), Ok(extents)) => args@ == sm90a_args(operands, maps.a, maps.b, extents),
            (Err(error), Err(expected)) => error == expected,
            _ => false,
        },
{
    let (m, k, n, ldc) = build_tma_extents(shape)?;
    let args = vec![
        KernelArg::Pointer(operands.output_ptr),
        KernelArg::TensorMap(maps.a),
        KernelArg::TensorMap(maps.b),
        KernelArg::Pointer(operands.bias_ptr),
        KernelArg::Float(operands.alpha),
        KernelArg::Float(operands.beta),
        KernelArg::Int(m),
        KernelArg::Int(k),
        KernelArg::Int(n),
        KernelArg::Int(ldc),
    ];
    assert(args@ =~= sm90a_args(operands, maps.a, maps.b, (m, k, n, ldc)));
    Ok(args)
}

/// The parameter block that words hold for a family.
pub open spec fn tma_param_block(family: TmaFamily, words: Seq<u32>) -> KernelArg {
    if family == TmaFamily::Sm120 {
        KernelArg::Sm120(Sm120KernelParams::of_words(words))
    } else {
        KernelArg::Sm100(Sm100KernelParams::of_words(words))
    }
}

/// The arguments of an SM100 or SM120 launch. Stream-K workspaces come ahead
/// of the tensor maps and the parameters last.
pub open spec fn tma_args(
    family: TmaFamily,
    operands: TmaLaunchOperands,
    a: TensorMap,
    b: TensorMap,
    params: Seq<u32>,
    workspace: Option<(u64, u64)>,
) -> Seq<KernelArg> {
    let output = seq![KernelArg::Pointer(operands.output_ptr)];
    let rest = seq![
        KernelArg::TensorMap(a),
        KernelArg::TensorMap(b),
        KernelArg::Pointer(operands.bias_ptr),
        tma_param_block(family, params),
    ];
    match workspace {
        Some((partial, flags)) => output + seq![
            KernelArg::Pointer(partial),
            KernelArg::Pointer(flags),
        ] + rest,
        None => output + rest,
    }
}

/// Builds the arguments of an SM100 or SM120 launch: the parameters are read
/// back from their words.
pub fn tma_arguments(
    family: TmaFamily,
    operands: TmaLaunchOperands,
    maps: &TmaPreparedMaps,
    params: [u32; 10],
    workspace: Option<(u64, u64)>,
) -> (args: Vec<KernelArg>)
    ensures
        args@ == tma_args(family, operands, maps.a, maps.b, params@, workspace),
        args@.len() <= 7,
{
    let mut args: Vec<KernelArg> = Vec::new();
    args.push(KernelArg::Pointer(operands.output_ptr));
    match workspace {
        Some((partial, flags)) => {
            args.push(KernelArg::Pointer(partial));
            args.push(KernelArg::Pointer(flags));
        },
        None => {},
    }
    args.push(KernelArg::TensorMap(maps.a));
    args.push(KernelArg::TensorMap(maps.b));
    args.push(KernelArg::Pointer(operands.bias_ptr));
    if family == TmaFamily::Sm120 {
        args.push(KernelArg::Sm120(Sm120KernelParams::from_words(params)));
    } else {
        args.push(KernelArg::Sm100(Sm100KernelParams::from_words(params)));
    }
    assert(args@ =~= tma_args(family, operands, maps.a, maps.b, params@, workspace));
    args
}

/// The parameters that a kernel reads are those that the words were made of.
pub proof fn parameters_are_read_back(sm100: Sm100KernelParams, sm120: Sm120KernelParams)
    ensures
        Sm100KernelParams::of_words(sm100.words()) == sm100,
        Sm120KernelParams::of_words(sm120.words()) == sm120,
{
    params::words_hold_signed_values(sm100.a_x, 0);
    params::words_hold_signed_values(sm100.a_y, 0);
    params::words_hold_signed_values(sm100.b_x, 0);
    params::words_hold_signed_values(sm100.b_y, 0);
    params::words_hold_signed_values(sm100.m, 0);
    params::words_hold_signed_values(sm100.k, 0);
    params::words_hold_signed_values(sm100.n, 0);
    params::words_hold_signed_values(sm100.ldc, 0);
    params::words_hold_signed_values(sm120.a_x, 0);
    params::words_hold_signed_values(sm120.a_y, 0);
    params::words_hold_signed_values(sm120.b_x, 0);
    params::words_hold_signed_values(sm120.b_y, 0);
    params::words_hold_signed_values(sm120.m, 0);
    params::words_hold_signed_values(sm120.k, 0);
    params::words_hold_signed_values(sm120.n, 0);
    params::words_hold_signed_values(sm120.ldc, 0);
}

} // verus!
