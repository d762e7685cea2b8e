//! Scalar dispatch plans and what is frozen about each of them.

use crate::digest;
use crate::digest::{u32_le, u64_le, Field, FramedSha256, Sha256Digest};
use crate::error::LaunchError;
use crate::shape::{F32TriadOperands, F32TriadRequest, F32TriadShape, ResolvedGemmOp};
use vstd::prelude::*;
use vstd::string::StringSliceAdditionalSpecFns;

verus! {

/// Capacity of the split-K partial workspace in f32 elements.
pub const SPLITK_SCRATCH_CAP: usize = 8_388_608;

/// Capacity of the transposed-weight workspace in f32 elements.
pub const SCALAR_TRANSPOSE_SCRATCH_CAP_ELEMENTS: usize = 4_718_592;

/// The kernel bucket that a scalar f32 product was routed to.
#[derive(Clone, Copy, Debug, PartialEq, Eq, Structural)]
#[allow(inconsistent_fields)]
pub enum ScalarDispatchPlan {
    NnUltraThin,
    NnNarrowSmall,
    NnNarrow,
    NnGemv,
    NnSplitKThinTail { k_main: usize, k_tail: usize },
    NnSplitKThin,
    NnSplitKSlim { chunks: u32 },
    NnM32N64SplitK32Qualified,
    NnM64N64Qualified,
    NnFinal { slim: bool },
    TnGemv,
    TnNarrow,
    TnNarrowSplitM { m_chunk: usize, chunks: usize },
    TnSplitM { m_chunk: usize, chunks: usize },
    TnM16N16SplitM16Qualified,
    TnFinal { slim: bool },
    NtNarrow,
    NtSmallBatchWide,
    NtGemv,
    NtSplitKTail { k_main: usize, k_tail: usize },
    NtSplitKMain { n_main: usize, n_tail: usize },
    NtSplitKSlim { chunks: u32 },
    NtMidBatchWide,
    NtM2N16SplitK32Qualified,
    NtD768TransposeM64N64Qualified,
    NtD768OutTransposeM64N64Qualified,
    NtLargeDeepTransposeM64N64Qualified,
    NtPrismVectorQualified,
    NtD128OutTransposeM64N64Qualified,
    NtFinal { slim: bool },
}

impl ScalarDispatchPlan {
    /// The product that the plan computes.
    #[verifier::allow_in_spec]
    pub fn op(self) -> ResolvedGemmOp
        returns
            (match self {
                ScalarDispatchPlan::NnUltraThin => ResolvedGemmOp::Nn,
                ScalarDispatchPlan::NnNarrowSmall => ResolvedGemmOp::Nn,
                ScalarDispatchPlan::NnNarrow => ResolvedGemmOp::Nn,
                ScalarDispatchPlan::NnGemv => ResolvedGemmOp::Nn,
                ScalarDispatchPlan::NnSplitKThinTail { .. } => ResolvedGemmOp::Nn,
                ScalarDispatchPlan::NnSplitKThin => ResolvedGemmOp::Nn,
                ScalarDispatchPlan::NnSplitKSlim { .. } => ResolvedGemmOp::Nn,
                ScalarDispatchPlan::NnM32N64SplitK32Qualified => ResolvedGemmOp::Nn,
                ScalarDispatchPlan::NnM64N64Qualified => ResolvedGemmOp::Nn,
                ScalarDispatchPlan::NnFinal { .. } => ResolvedGemmOp::Nn,
                ScalarDispatchPlan::TnGemv => ResolvedGemmOp::Tn,
                ScalarDispatchPlan::TnNarrow => ResolvedGemmOp::Tn,
                ScalarDispatchPlan::TnNarrowSplitM { .. } => ResolvedGemmOp::Tn,
                ScalarDispatchPlan::TnSplitM { .. } => ResolvedGemmOp::Tn,
                ScalarDispatchPlan::TnM16N16SplitM16Qualified => ResolvedGemmOp::Tn,
                ScalarDispatchPlan::TnFinal { .. } => ResolvedGemmOp::Tn,
                _ => ResolvedGemmOp::Nt,
            }),
    {
        match self {
            ScalarDispatchPlan::NnUltraThin => ResolvedGemmOp::Nn,
            ScalarDispatchPlan::NnNarrowSmall => ResolvedGemmOp::Nn,
            ScalarDispatchPlan::NnNarrow => ResolvedGemmOp::Nn,
            ScalarDispatchPlan::NnGemv => ResolvedGemmOp::Nn,
            ScalarDispatchPlan::NnSplitKThinTail { .. } => ResolvedGemmOp::Nn,
            ScalarDispatchPlan::NnSplitKThin => ResolvedGemmOp::Nn,
            ScalarDispatchPlan::NnSplitKSlim { .. } => ResolvedGemmOp::Nn,
            ScalarDispatchPlan::NnM32N64SplitK32Qualified => ResolvedGemmOp::Nn,
            ScalarDispatchPlan::NnM64N64Qualified => ResolvedGemmOp::Nn,
            ScalarDispatchPlan::NnFinal { .. } => ResolvedGemmOp::Nn,
            ScalarDispatchPlan::TnGemv => ResolvedGemmOp::Tn,
            ScalarDispatchPlan::TnNarrow => ResolvedGemmOp::Tn,
            ScalarDispatchPlan::TnNarrowSplitM { .. } => ResolvedGemmOp::Tn,
            ScalarDispatchPlan::TnSplitM { .. } => ResolvedGemmOp::Tn,
            ScalarDispatchPlan::TnM16N16SplitM16Qualified => ResolvedGemmOp::Tn,
            ScalarDispatchPlan::TnFinal { .. } => ResolvedGemmOp::Tn,
            _ => ResolvedGemmOp::Nt,
        }
    }

    /// A qualified NT plan that transposes the weights and then runs a
    /// 64x64 forward kernel.
    pub open spec fn is_transpose_m64n64(self) -> bool {
        ||| self is NtD768TransposeM64N64Qualified
        ||| self is NtD768OutTransposeM64N64Qualified
        ||| self is NtLargeDeepTransposeM64N64Qualified
        ||| self is NtPrismVectorQualified
        ||| self is NtD128OutTransposeM64N64Qualified
    }

    /// Whether the plan transposes the weights and runs a 64x64 kernel.
    pub fn transposes_for_m64n64(self) -> (transposes: bool)
        ensures
            transposes == self.is_transpose_m64n64(),
    {
        match self {
            ScalarDispatchPlan::NtD768TransposeM64N64Qualified => true,
            ScalarDispatchPlan::NtD768OutTransposeM64N64Qualified => true,
            ScalarDispatchPlan::NtLargeDeepTransposeM64N64Qualified => true,
            ScalarDispatchPlan::NtPrismVectorQualified => true,
            ScalarDispatchPlan::NtD128OutTransposeM64N64Qualified => true,
            _ => false,
        }
    }

    /// The plan writes partial sums into the split workspace.
    pub open spec fn uses_split_scratch(self) -> bool {
        ||| self is NnSplitKThinTail
        ||| self is NnSplitKThin
        ||| self is NnSplitKSlim
        ||| self is NnM32N64SplitK32Qualified
        ||| self is TnNarrowSplitM
        ||| self is TnSplitM
        ||| self is NtSplitKTail
        ||| self is NtSplitKMain
        ||| self is NtSplitKSlim
    }

    /// Whether the plan writes partial sums into the split workspace.
    pub fn needs_split_scratch(self) -> (needed: bool)
        ensures
            needed == self.uses_split_scratch(),
    {
        match self {
            ScalarDispatchPlan::NnSplitKThinTail { .. } => true,
            ScalarDispatchPlan::NnSplitKThin => true,
            ScalarDispatchPlan::NnSplitKSlim { .. } => true,
            ScalarDispatchPlan::NnM32N64SplitK32Qualified => true,
            ScalarDispatchPlan::TnNarrowSplitM { .. } => true,
            ScalarDispatchPlan::TnSplitM { .. } => true,
            ScalarDispatchPlan::NtSplitKTail { .. } => true,
            ScalarDispatchPlan::NtSplitKMain { .. } => true,
            ScalarDispatchPlan::NtSplitKSlim { .. } => true,
            _ => false,
        }
    }

    /// The plan writes transposed weights into the transpose workspace.
    pub open spec fn uses_transpose_scratch(self) -> bool {
        ||| self.is_transpose_m64n64()
        ||| self is NtSplitKTail
        ||| self is NtSplitKMain
        ||| self is NtSplitKSlim
    }

    /// Whether the plan writes transposed weights into the workspace.
    pub fn needs_transpose_scratch(self) -> (needed: bool)
        ensures
            needed == self.uses_transpose_scratch(),
    {
        match self {
            ScalarDispatchPlan::NtSplitKTail { .. } => true,
            ScalarDispatchPlan::NtSplitKMain { .. } => true,
            ScalarDispatchPlan::NtSplitKSlim { .. } => true,
            _ => self.transposes_for_m64n64(),
        }
    }
}

/// How many kernels a plan launches.
pub open spec fn node_count(plan: ScalarDispatchPlan) -> int {
    match plan {
        ScalarDispatchPlan::NtSplitKTail { k_tail, .. } => 3 + k_tail,
        ScalarDispatchPlan::NtSplitKMain { .. } => 3,
        ScalarDispatchPlan::NtSplitKSlim { .. } => 3,
        _ => if plan.uses_split_scratch() || plan.uses_transpose_scratch() {
            2
        } else {
            1
        },
    }
}

/// How many kernels a plan launches.
pub fn scalar_node_count(plan: ScalarDispatchPlan) -> (count: usize)
    requires
        node_count(plan) <= usize::MAX,
    ensures
        count == node_count(plan),
{
    match plan {
        ScalarDispatchPlan::NtSplitKTail { k_tail, .. } => 3 + k_tail,
        ScalarDispatchPlan::NnSplitKThinTail { .. } => 2,
        ScalarDispatchPlan::NnSplitKThin => 2,
        ScalarDispatchPlan::NnSplitKSlim { .. } => 2,
        ScalarDispatchPlan::NnM32N64SplitK32Qualified => 2,
        ScalarDispatchPlan::TnNarrowSplitM { .. } => 2,
        ScalarDispatchPlan::TnSplitM { .. } => 2,
        ScalarDispatchPlan::NtD768TransposeM64N64Qualified => 2,
        ScalarDispatchPlan::NtD768OutTransposeM64N64Qualified => 2,
        ScalarDispatchPlan::NtLargeDeepTransposeM64N64Qualified => 2,
        ScalarDispatchPlan::NtPrismVectorQualified => 2,
        ScalarDispatchPlan::NtD128OutTransposeM64N64Qualified => 2,
        ScalarDispatchPlan::NtSplitKMain { .. } => 3,
        ScalarDispatchPlan::NtSplitKSlim { .. } => 3,
        _ => 1,
    }
}

/// The kernels of the plan overwrite their output and ignore `beta`.
pub open spec fn plan_requires_zero_beta(plan: ScalarDispatchPlan) -> bool {
    ||| plan.is_transpose_m64n64()
    ||| plan is NtM2N16SplitK32Qualified
    ||| plan.op() is Nn && plan.uses_split_scratch()
}

/// Whether the kernels of the plan overwrite their output and ignore `beta`.
pub fn scalar_plan_requires_zero_beta(plan: ScalarDispatchPlan) -> (required: bool)
    ensures
        required == plan_requires_zero_beta(plan),
{
    match plan {
        ScalarDispatchPlan::NnSplitKThinTail { .. } => true,
        ScalarDispatchPlan::NnSplitKThin => true,
        ScalarDispatchPlan::NnSplitKSlim { .. } => true,
        ScalarDispatchPlan::NnM32N64SplitK32Qualified => true,
        ScalarDispatchPlan::NtM2N16SplitK32Qualified => true,
        _ => plan.transposes_for_m64n64(),
    }
}

/// The frozen tag of a plan and its two parameters.
pub open spec fn plan_fields(plan: ScalarDispatchPlan) -> (u8, u64, u64) {
    match plan {
        ScalarDispatchPlan::NnUltraThin => (1, 0, 0),
        ScalarDispatchPlan::NnNarrowSmall => (2, 0, 0),
        ScalarDispatchPlan::NnNarrow => (3, 0, 0),
        ScalarDispatchPlan::NnGemv => (4, 0, 0),
        ScalarDispatchPlan::NnSplitKThinTail { k_main, k_tail } => (5, k_main as u64, k_tail as u64),
        ScalarDispatchPlan::NnSplitKThin => (6, 0, 0),
        ScalarDispatchPlan::NnSplitKSlim { chunks } => (7, chunks as u64, 0),
        ScalarDispatchPlan::NnM32N64SplitK32Qualified => (36, 0, 0),
        ScalarDispatchPlan::NnM64N64Qualified => (24, 0, 0),
        ScalarDispatchPlan::NnFinal { slim } => (8, if slim { 1 } else { 0 }, 0),
        ScalarDispatchPlan::TnGemv => (9, 0, 0),
        ScalarDispatchPlan::TnNarrow => (10, 0, 0),
        ScalarDispatchPlan::TnNarrowSplitM { m_chunk, chunks } => (
            22,
            m_chunk as u64,
            chunks as u64,
        ),
        ScalarDispatchPlan::TnSplitM { m_chunk, chunks } => (11, m_chunk as u64, chunks as u64),
        ScalarDispatchPlan::TnM16N16SplitM16Qualified => (35, 0, 0),
        ScalarDispatchPlan::TnFinal { slim } => (12, if slim { 1 } else { 0 }, 0),
        ScalarDispatchPlan::NtNarrow => (13, 0, 0),
        ScalarDispatchPlan::NtSmallBatchWide => (14, 0, 0),
        ScalarDispatchPlan::NtGemv => (15, 0, 0),
        ScalarDispatchPlan::NtSplitKTail { k_main, k_tail } => (16, k_main as u64, k_tail as u64),
        ScalarDispatchPlan::NtSplitKMain { n_main, n_tail } => (17, n_main as u64, n_tail as u64),
        ScalarDispatchPlan::NtSplitKSlim { chunks } => (18, chunks as u64, 0),
        ScalarDispatchPlan::NtMidBatchWide => (19, 0, 0),
        ScalarDispatchPlan::NtM2N16SplitK32Qualified => (31, 0, 0),
        ScalarDispatchPlan::NtD768TransposeM64N64Qualified => (25, 0, 0),
        ScalarDispatchPlan::NtD768OutTransposeM64N64Qualified => (26, 0, 0),
        ScalarDispatchPlan::NtLargeDeepTransposeM64N64Qualified => (27, 0, 0),
        ScalarDispatchPlan::NtPrismVectorQualified => (30, 0, 0),
        ScalarDispatchPlan::NtD128OutTransposeM64N64Qualified => (29, 0, 0),
        ScalarDispatchPlan::NtFinal { slim } => (20, if slim { 1 } else { 0 }, 0),
    }
}

/// The frozen tag of a plan and its two parameters.
pub fn scalar_plan_fields(plan: ScalarDispatchPlan) -> (fields: (u8, u64, u64))
    ensures
        fields == plan_fields(plan),
{
    match plan {
        ScalarDispatchPlan::NnUltraThin => (1, 0, 0),
        ScalarDispatchPlan::NnNarrowSmall => (2, 0, 0),
        ScalarDispatchPlan::NnNarrow => (3, 0, 0),
        ScalarDispatchPlan::NnGemv => (4, 0, 0),
        ScalarDispatchPlan::NnSplitKThinTail { k_main, k_tail } => (5, k_main as u64, k_tail as u64),
        ScalarDispatchPlan::NnSplitKThin => (6, 0, 0),
        ScalarDispatchPlan::NnSplitKSlim { chunks } => (7, chunks as u64, 0),
        ScalarDispatchPlan::NnM32N64SplitK32Qualified => (36, 0, 0),
        ScalarDispatchPlan::NnM64N64Qualified => (24, 0, 0),
        ScalarDispatchPlan::NnFinal { slim } => (8, if slim { 1 } else { 0 }, 0),
        ScalarDispatchPlan::TnGemv => (9, 0, 0),
        ScalarDispatchPlan::TnNarrow => (10, 0, 0),
        ScalarDispatchPlan::TnNarrowSplitM { m_chunk, chunks } => (
            22,
            m_chunk as u64,
            chunks as u64,
        ),
        ScalarDispatchPlan::TnSplitM { m_chunk, chunks } => (11, m_chunk as u64, chunks as u64),
        ScalarDispatchPlan::TnM16N16SplitM16Qualified => (35, 0, 0),
        ScalarDispatchPlan::TnFinal { slim } => (12, if slim { 1 } else { 0 }, 0),
        ScalarDispatchPlan::NtNarrow => (13, 0, 0),
        ScalarDispatchPlan::NtSmallBatchWide => (14, 0, 0),
        ScalarDispatchPlan::NtGemv => (15, 0, 0),
        ScalarDispatchPlan::NtSplitKTail { k_main, k_tail } => (16, k_main as u64, k_tail as u64),
        ScalarDispatchPlan::NtSplitKMain { n_main, n_tail } => (17, n_main as u64, n_tail as u64),
        ScalarDispatchPlan::NtSplitKSlim { chunks } => (18, chunks as u64, 0),
        ScalarDispatchPlan::NtMidBatchWide => (19, 0, 0),
        ScalarDispatchPlan::NtM2N16SplitK32Qualified => (31, 0, 0),
        ScalarDispatchPlan::NtD768TransposeM64N64Qualified => (25, 0, 0),
        ScalarDispatchPlan::NtD768OutTransposeM64N64Qualified => (26, 0, 0),
        ScalarDispatchPlan::NtLargeDeepTransposeM64N64Qualified => (27, 0, 0),
        ScalarDispatchPlan::NtPrismVectorQualified => (30, 0, 0),
        ScalarDispatchPlan::NtD128OutTransposeM64N64Qualified => (29, 0, 0),
        ScalarDispatchPlan::NtFinal { slim } => (20, if slim { 1 } else { 0 }, 0),
    }
}

/// The frozen tag and parameters tell every two plans apart.
pub proof fn plan_fields_injective(left: ScalarDispatchPlan, right: ScalarDispatchPlan)
    requires
        plan_fields(left) == plan_fields(right),
    ensures
        left == right,
{
}

/// Where a launch of a plan reads and writes, relative to the operands.
#[derive(Clone, Copy, Debug, PartialEq, Eq, Structural)]
pub struct ScalarArgumentLayout {
    pub output_offset: u64,
    pub a_offset: u64,
    pub b_offset: u64,
    pub null_pointer_mask: u64,
    pub output_column: Option<u64>,
}

/// A layout without offsets, with the given null-pointer mask.
pub open spec fn plain_layout(null_pointer_mask: u64) -> ScalarArgumentLayout {
    ScalarArgumentLayout {
        output_offset: 0,
        a_offset: 0,
        b_offset: 0,
        null_pointer_mask,
        output_column: None,
    }
}

impl Default for ScalarArgumentLayout {
    fn default() -> (layout: ScalarArgumentLayout)
        ensures
            layout == plain_layout(0),
    {
        masked_layout(0)
    }
}

fn masked_layout(null_pointer_mask: u64) -> (layout: ScalarArgumentLayout)
    ensures
        layout == plain_layout(null_pointer_mask),
{
    ScalarArgumentLayout {
        output_offset: 0,
        a_offset: 0,
        b_offset: 0,
        null_pointer_mask,
        output_column: None,
    }
}

/// The byte offsets of a launch are 64-bit values.
pub open spec fn layout_fits(
    request: F32TriadRequest,
    plan: ScalarDispatchPlan,
    index: int,
) -> bool {
    match plan {
        ScalarDispatchPlan::NnSplitKThinTail { k_main, .. } => index == 1 ==> {
            &&& k_main * 4 <= u64::MAX
            &&& k_main * request.shape.n <= u64::MAX
            &&& k_main * request.shape.n * 4 <= u64::MAX
        },
        ScalarDispatchPlan::NtSplitKTail { k_main, .. } => index >= 3 ==> {
            &&& k_main + index <= usize::MAX
            &&& (k_main + index - 3) * request.shape.n <= u64::MAX
            &&& (k_main + index - 3) * request.shape.n * 4 <= u64::MAX
        },
        ScalarDispatchPlan::NtSplitKMain { n_main, n_tail } => index == 2 && n_tail > 0 ==> {
            &&& n_main * 4 <= u64::MAX
            &&& n_main * request.shape.k <= u64::MAX
            &&& n_main * request.shape.k * 4 <= u64::MAX
        },
        _ => true,
    }
}

/// The layout of the launch at `index` of a plan.
pub open spec fn argument_layout(
    request: F32TriadRequest,
    operands: F32TriadOperands,
    plan: ScalarDispatchPlan,
    index: int,
) -> ScalarArgumentLayout {
    let no_bias = operands.bias is None;
    match plan {
        ScalarDispatchPlan::NnSplitKThinTail { k_main, .. } if index == 1 => ScalarArgumentLayout {
            a_offset: (k_main * 4) as u64,
            b_offset: (k_main * request.shape.n * 4) as u64,
            ..plain_layout(if no_bias { 0b100 } else { 0 })
        },
        ScalarDispatchPlan::NtSplitKTail { k_main, .. } if index >= 3 => ScalarArgumentLayout {
            b_offset: ((k_main + index - 3) * request.shape.n * 4) as u64,
            output_column: Some((k_main + index - 3) as u64),
            ..plain_layout(0)
        },
        ScalarDispatchPlan::NtSplitKMain { n_main, n_tail } if index == 2 && n_tail > 0 =>
            ScalarArgumentLayout {
                a_offset: (n_main * 4) as u64,
                b_offset: (n_main * request.shape.k * 4) as u64,
                ..plain_layout(0b100)
            },
        _ => plain_layout(
            if plan.op() is Tn {
                0
            } else if plan.op() is Nn && plan.uses_split_scratch() {
                if index == 0 {
                    0
                } else if index == 1 {
                    if no_bias { 0b11100 } else { 0b11000 }
                } else {
                    if no_bias { 0b1000 } else { 0 }
                }
            } else if plan.op() is Nn {
                if no_bias { 0b1000 } else { 0 }
            } else if plan.is_transpose_m64n64() {
                if index != 0 && no_bias { 0b1000 } else { 0 }
            } else if plan.uses_split_scratch() && index == 2 {
                0b11100
            } else {
                0
            },
        ),
    }
}

/// The layout of the launch at `index` of a plan.
pub fn scalar_argument_layout(
    request: F32TriadRequest,
    operands: F32TriadOperands,
    plan: ScalarDispatchPlan,
    index: usize,
) -> (layout: ScalarArgumentLayout)
    requires
        layout_fits(request, plan, index as int),
    ensures
        layout == argument_layout(request, operands, plan, index as int),
{
    let no_bias = operands.bias.is_none();
    match plan {
        ScalarDispatchPlan::NnSplitKThinTail { k_main, .. } => {
            if index == 0 {
                masked_layout(0)
            } else if index == 1 {
                ScalarArgumentLayout {
                    output_offset: 0,
                    a_offset: k_main as u64 * 4,
                    b_offset: k_main as u64 * request.shape.n as u64 * 4,
                    null_pointer_mask: if no_bias { 0b100 } else { 0 },
                    output_column: None,
                }
            } else {
                masked_layout(if no_bias { 0b1000 } else { 0 })
            }
        },
        ScalarDispatchPlan::NnSplitKThin
        | ScalarDispatchPlan::NnSplitKSlim { .. }
        | ScalarDispatchPlan::NnM32N64SplitK32Qualified => {
            if index == 0 {
                masked_layout(0)
            } else if index == 1 {
                masked_layout(if no_bias { 0b11100 } else { 0b11000 })
            } else {
                masked_layout(if no_bias { 0b1000 } else { 0 })
            }
        },
        ScalarDispatchPlan::TnGemv
        | ScalarDispatchPlan::TnNarrow
        | ScalarDispatchPlan::TnNarrowSplitM { .. }
        | ScalarDispatchPlan::TnSplitM { .. }
        | ScalarDispatchPlan::TnM16N16SplitM16Qualified
        | ScalarDispatchPlan::TnFinal { .. }
        | ScalarDispatchPlan::NtNarrow
        | ScalarDispatchPlan::NtSmallBatchWide
        | ScalarDispatchPlan::NtGemv
        | ScalarDispatchPlan::NtMidBatchWide
        | ScalarDispatchPlan::NtM2N16SplitK32Qualified
        | ScalarDispatchPlan::NtFinal { .. } => masked_layout(0),
        ScalarDispatchPlan::NtD768TransposeM64N64Qualified
        | ScalarDispatchPlan::NtD768OutTransposeM64N64Qualified
        | ScalarDispatchPlan::NtLargeDeepTransposeM64N64Qualified
        | ScalarDispatchPlan::NtPrismVectorQualified
        | ScalarDispatchPlan::NtD128OutTransposeM64N64Qualified => {
            masked_layout(if index != 0 && no_bias { 0b1000 } else { 0 })
        },
        ScalarDispatchPlan::NtSplitKTail { k_main, .. } => {
            if index >= 3 {
                let column: usize = k_main + index - 3;
                ScalarArgumentLayout {
                    output_offset: 0,
                    a_offset: 0,
                    b_offset: column as u64 * request.shape.n as u64 * 4,
                    null_pointer_mask: 0,
                    output_column: Some(column as u64),
                }
            } else {
                masked_layout(if index == 2 { 0b11100 } else { 0 })
            }
        },
        ScalarDispatchPlan::NtSplitKMain { n_main, n_tail } => {
            if index == 2 && n_tail > 0 {
                ScalarArgumentLayout {
                    output_offset: 0,
                    a_offset: n_main as u64 * 4,
                    b_offset: n_main as u64 * request.shape.k as u64 * 4,
                    null_pointer_mask: 0b100,
                    output_column: None,
                }
            } else {
                masked_layout(if index == 2 { 0b11100 } else { 0 })
            }
        },
        ScalarDispatchPlan::NtSplitKSlim { .. } => {
            masked_layout(if index == 2 { 0b11100 } else { 0 })
        },
        ScalarDispatchPlan::NnUltraThin
        | ScalarDispatchPlan::NnNarrowSmall
        | ScalarDispatchPlan::NnNarrow
        | ScalarDispatchPlan::NnGemv
        | ScalarDispatchPlan::NnM64N64Qualified
        | ScalarDispatchPlan::NnFinal { .. } => masked_layout(if no_bias { 0b1000 } else { 0 }),
    }
}

/// Everything that the argument digest of a launch binds.
pub struct ScalarArgumentRecord {
    pub symbol: Seq<u8>,
    pub index: u64,
    pub plan: (u8, u64, u64),
    pub shape: F32TriadShape,
    pub alpha: u32,
    pub beta: u32,
    pub layout: ScalarArgumentLayout,
}

/// The record of the launch at `index` of a plan.
pub open spec fn scalar_argument_record(
    request: F32TriadRequest,
    operands: F32TriadOperands,
    plan: ScalarDispatchPlan,
    index: int,
    symbol: Seq<u8>,
) -> ScalarArgumentRecord {
    ScalarArgumentRecord {
        symbol,
        index: index as u64,
        plan: plan_fields(plan),
        shape: request.shape,
        alpha: operands.alpha,
        beta: operands.beta,
        layout: argument_layout(request, operands, plan, index),
    }
}

/// The transcript fields of a record.
pub open spec fn scalar_argument_fields(record: ScalarArgumentRecord) -> Seq<Field> {
    seq![
        digest::field("symbol", record.symbol),
        digest::field("node-index", digest::le_bytes(record.index as int, 8)),
        digest::field("plan", seq![record.plan.0]),
        digest::field("plan-a", digest::le_bytes(record.plan.1 as int, 8)),
        digest::field("plan-b", digest::le_bytes(record.plan.2 as int, 8)),
        digest::field("m", digest::le_bytes(record.shape.m as int, 8)),
        digest::field("k", digest::le_bytes(record.shape.k as int, 8)),
        digest::field("n", digest::le_bytes(record.shape.n as int, 8)),
        digest::field("lda", digest::le_bytes(record.shape.lda as int, 8)),
        digest::field("ldb", digest::le_bytes(record.shape.ldb as int, 8)),
        digest::field("ldc", digest::le_bytes(record.shape.ldc as int, 8)),
        digest::field("alpha", digest::le_bytes(record.alpha as int, 4)),
        digest::field("beta", digest::le_bytes(record.beta as int, 4)),
        digest::field("output-offset", digest::le_bytes(record.layout.output_offset as int, 8)),
        digest::field("a-offset", digest::le_bytes(record.layout.a_offset as int, 8)),
        digest::field("b-offset", digest::le_bytes(record.layout.b_offset as int, 8)),
        digest::field("null-pointer-mask", digest::le_bytes(record.layout.null_pointer_mask as int, 8)),
        digest::optional_field(
            "output-column",
            match record.layout.output_column {
                Some(column) => Some(digest::le_bytes(column as int, 8)),
                None => None,
            },
        ),
    ]
}

proof fn scalar_argument_fields_injective(
    left: ScalarArgumentRecord,
    right: ScalarArgumentRecord,
)
    requires
        scalar_argument_fields(left) == scalar_argument_fields(right),
    ensures
        left == right,
{
    let l = scalar_argument_fields(left);
    let r = scalar_argument_fields(right);
    assert(l[0].value == r[0].value);
    assert(l[1].value == r[1].value);
    digest::le_bytes_u64_injective(left.index, right.index);
    assert(l[2].value == r[2].value);
    assert(seq![left.plan.0][0] == seq![right.plan.0][0]);
    assert(l[3].value == r[3].value);
    digest::le_bytes_u64_injective(left.plan.1, right.plan.1);
    assert(l[4].value == r[4].value);
    digest::le_bytes_u64_injective(left.plan.2, right.plan.2);
    assert(l[5].value == r[5].value);
    digest::le_bytes_u64_injective(left.shape.m as u64, right.shape.m as u64);
    assert(l[6].value == r[6].value);
    digest::le_bytes_u64_injective(left.shape.k as u64, right.shape.k as u64);
    assert(l[7].value == r[7].value);
    digest::le_bytes_u64_injective(left.shape.n as u64, right.shape.n as u64);
    assert(l[8].value == r[8].value);
    digest::le_bytes_u64_injective(left.shape.lda as u64, right.shape.lda as u64);
    assert(l[9].value == r[9].value);
    digest::le_bytes_u64_injective(left.shape.ldb as u64, right.shape.ldb as u64);
    assert(l[10].value == r[10].value);
    digest::le_bytes_u64_injective(left.shape.ldc as u64, right.shape.ldc as u64);
    assert(l[11].value == r[11].value);
    digest::le_bytes_u32_injective(left.alpha, right.alpha);
    assert(l[12].value == r[12].value);
    digest::le_bytes_u32_injective(left.beta, right.beta);
    assert(l[13].value == r[13].value);
    digest::le_bytes_u64_injective(left.layout.output_offset, right.layout.output_offset);
    assert(l[14].value == r[14].value);
    digest::le_bytes_u64_injective(left.layout.a_offset, right.layout.a_offset);
    assert(l[15].value == r[15].value);
    digest::le_bytes_u64_injective(left.layout.b_offset, right.layout.b_offset);
    assert(l[16].value == r[16].value);
    digest::le_bytes_u64_injective(left.layout.null_pointer_mask, right.layout.null_pointer_mask);
    assert(l[17].value == r[17].value);
    match (left.layout.output_column, right.layout.output_column) {
        (Some(a), Some(b)) => {
            digest::le_bytes_u64_injective(a, b);
        },
        _ => {},
    }
}

proof fn scalar_argument_fields_framable(record: ScalarArgumentRecord)
    requires
        record.symbol.len() <= u64::MAX,
    ensures
        digest::values_framable(scalar_argument_fields(record)),
{
    digest::le_bytes_len_all();
}

/// The bytes that the argument digest of a launch is taken over.
pub open spec fn scalar_argument_transcript(
    request: F32TriadRequest,
    operands: F32TriadOperands,
    plan: ScalarDispatchPlan,
    index: int,
    symbol: Seq<u8>,
) -> Seq<u8> {
    digest::transcript(
        "triad-scalar-kernel-arguments.v1".spec_bytes(),
        scalar_argument_fields(scalar_argument_record(request, operands, plan, index, symbol)),
    )
}

/// The digest of everything that the launch at `index` of a plan depends on.
pub fn scalar_arguments_digest(
    request: F32TriadRequest,
    operands: F32TriadOperands,
    plan: ScalarDispatchPlan,
    index: usize,
    symbol: &str,
) -> (digest: Sha256Digest)
    requires
        layout_fits(request, plan, index as int),
    ensures
        digest == digest::sha256(
            scalar_argument_transcript(
                request,
                operands,
                plan,
                index as int,
                symbol.spec_bytes(),
            ),
        ),
{
    let (tag, plan_a, plan_b) = scalar_plan_fields(plan);
    let layout = scalar_argument_layout(request, operands, plan, index);
    let mut tag_bytes: Vec<u8> = Vec::new();
    tag_bytes.push(tag);
    let b = FramedSha256::new("triad-scalar-kernel-arguments.v1");
    let b = b.required("symbol", symbol.as_bytes());
    let b = b.required("node-index", u64_le(index as u64).as_slice());
    let b = b.required("plan", tag_bytes.as_slice());
    let b = b.required("plan-a", u64_le(plan_a).as_slice());
    let b = b.required("plan-b", u64_le(plan_b).as_slice());
    let b = b.required("m", u64_le(request.shape.m as u64).as_slice());
    let b = b.required("k", u64_le(request.shape.k as u64).as_slice());
    let b = b.required("n", u64_le(request.shape.n as u64).as_slice());
    let b = b.required("lda", u64_le(request.shape.lda as u64).as_slice());
    let b = b.required("ldb", u64_le(request.shape.ldb as u64).as_slice());
    let b = b.required("ldc", u64_le(request.shape.ldc as u64).as_slice());
    let b = b.required("alpha", u32_le(operands.alpha).as_slice());
    let b = b.required("beta", u32_le(operands.beta).as_slice());
    let b = b.required("output-offset", u64_le(layout.output_offset).as_slice());
    let b = b.required("a-offset", u64_le(layout.a_offset).as_slice());
    let b = b.required("b-offset", u64_le(layout.b_offset).as_slice());
    let b = b.required("null-pointer-mask", u64_le(layout.null_pointer_mask).as_slice());
    let b = match layout.output_column {
        Some(column) => b.optional("output-column", Some(u64_le(column).as_slice())),
        None => b.optional("output-column", None),
    };
    proof {
        assert(tag_bytes@ =~= seq![tag]);
        assert(b.fields() =~= scalar_argument_fields(
            scalar_argument_record(request, operands, plan, index as int, symbol.spec_bytes()),
        ));
    }
    b.finish()
}

/// The bytes under the argument digest identify the kernel, the position in
/// the plan, the plan with its parameters, the shape and strides, the bits
/// of both factors and the physical argument layout.
pub proof fn scalar_argument_transcript_identifies(
    left_request: F32TriadRequest,
    left_operands: F32TriadOperands,
    left_plan: ScalarDispatchPlan,
    left_index: int,
    left_symbol: Seq<u8>,
    right_request: F32TriadRequest,
    right_operands: F32TriadOperands,
    right_plan: ScalarDispatchPlan,
    right_index: int,
    right_symbol: Seq<u8>,
)
    requires
        left_symbol.len() <= u64::MAX,
        right_symbol.len() <= u64::MAX,
        0 <= left_index <= usize::MAX,
        0 <= right_index <= usize::MAX,
        scalar_argument_transcript(
            left_request,
            left_operands,
            left_plan,
            left_index,
            left_symbol,
        ) == scalar_argument_transcript(
            right_request,
            right_operands,
            right_plan,
            right_index,
            right_symbol,
        ),
    ensures
        left_symbol == right_symbol,
        left_index == right_index,
        left_plan == right_plan,
        left_request.shape == right_request.shape,
        left_operands.alpha == right_operands.alpha,
        left_operands.beta == right_operands.beta,
        argument_layout(left_request, left_operands, left_plan, left_index) == argument_layout(
            right_request,
            right_operands,
            right_plan,
            right_index,
        ),
{
    let left = scalar_argument_record(
        left_request,
        left_operands,
        left_plan,
        left_index,
        left_symbol,
    );
    let right = scalar_argument_record(
        right_request,
        right_operands,
        right_plan,
        right_index,
        right_symbol,
    );
    scalar_argument_fields_framable(left);
    scalar_argument_fields_framable(right);
    assert(digest::same_labels(scalar_argument_fields(left), scalar_argument_fields(right)));
    digest::transcript_values_injective(
        "triad-scalar-kernel-arguments.v1".spec_bytes(),
        scalar_argument_fields(left),
        scalar_argument_fields(right),
    );
    scalar_argument_fields_injective(left, right);
    plan_fields_injective(left_plan, right_plan);
}

/// How much of the transpose workspace a plan fills.
pub open spec fn transpose_scratch_elements(
    request: F32TriadRequest,
    plan: ScalarDispatchPlan,
) -> Result<Option<usize>, LaunchError> {
    let rows = match plan {
        ScalarDispatchPlan::NtSplitKTail { k_main, .. } => k_main,
        _ => request.shape.k,
    };
    if !plan.uses_transpose_scratch() {
        Ok(None)
    } else if !(request.op is Nt) {
        Err(LaunchError::Rejected("scalar transpose scratch is only valid for NT plans"))
    } else if rows * request.shape.n > usize::MAX {
        Err(LaunchError::Rejected("scalar transpose scratch extent overflows usize"))
    } else if rows * request.shape.n > SCALAR_TRANSPOSE_SCRATCH_CAP_ELEMENTS {
        Err(LaunchError::TransposeScratchExceeded((rows * request.shape.n) as usize))
    } else {
        Ok(Some((rows * request.shape.n) as usize))
    }
}

/// How much of the transpose workspace a plan fills, within its capacity.
pub fn scalar_transpose_scratch_elements(
    request: F32TriadRequest,
    plan: ScalarDispatchPlan,
) -> (result: Result<Option<usize>, LaunchError>)
    ensures
        result == transpose_scratch_elements(request, plan),
{
    if !plan.needs_transpose_scratch() {
        return Ok(None);
    }
    if request.op != ResolvedGemmOp::Nt {
        return Err(LaunchError::Rejected("scalar transpose scratch is only valid for NT plans"));
    }
    let rows: usize = match plan {
        ScalarDispatchPlan::NtSplitKTail { k_main, .. } => k_main,
        _ => request.shape.k,
    };
    match rows.checked_mul(request.shape.n) {
        None => Err(LaunchError::Rejected("scalar transpose scratch extent overflows usize")),
        Some(elements) => {
            if elements > SCALAR_TRANSPOSE_SCRATCH_CAP_ELEMENTS {
                Err(LaunchError::TransposeScratchExceeded(elements))
            } else {
                Ok(Some(elements))
            }
        },
    }
}

} // verus!
