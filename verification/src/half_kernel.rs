//! The half-precision kernels: names, symbols and owning modules.

use crate::error::LaunchError;
use crate::identity::{ModuleKind, PolicyDtype, WeightDtype};
use crate::text::same_text;
use vstd::prelude::*;

verus! {

/// A half-precision kernel, whatever its element type.
#[derive(Clone, Copy, Debug, PartialEq, Eq, Structural)]
pub enum HalfKernel {
    NnGemv,
    NnUltraThin,
    NnNarrow,
    NnNarrowSmall,
    NnBig,
    NnTc,
    NnTc64,
    NnTc16,
    TnGemv,
    TnNarrow,
    TnBig,
    TnTc,
    TnTc64,
    TnTc64StreamK,
    TnTc128x64,
    NtGemv,
    NtNarrow,
    NtBig,
    NtTc,
    NtTc64,
}

/// How a half kernel reduces one output tile: the tiled kernels keep one
/// owner CTA and one reduction order per tile; the stream-K kernel folds
/// per-CTA partial slabs in a fixed order.
#[derive(Clone, Copy, Debug, PartialEq, Eq, Structural)]
pub enum HalfSchedule {
    Tiled,
    StreamKFixedOrder,
}

impl HalfKernel {
    /// The kernel's name, which its symbols begin with.
    #[verifier::allow_in_spec]
    pub fn base(self) -> &'static str
        returns
            (match self {
                HalfKernel::NnGemv => "gemm_bi_nn_gemv",
                HalfKernel::NnUltraThin => "gemm_bi_nn_ultra_thin",
                HalfKernel::NnNarrow => "gemm_bi_nn_narrow",
                HalfKernel::NnNarrowSmall => "gemm_bi_nn_narrow_small",
                HalfKernel::NnBig => "gemm_bi_nn_big",
                HalfKernel::NnTc => "gemm_bi_nn_tc",
                HalfKernel::NnTc64 => "gemm_bi_nn_tc64",
                HalfKernel::NnTc16 => "gemm_bi_nn_tc16",
                HalfKernel::TnGemv => "gemm_bi_tn_gemv",
                HalfKernel::TnNarrow => "gemm_bi_tn_narrow",
                HalfKernel::TnBig => "gemm_bi_tn_big",
                HalfKernel::TnTc => "gemm_bi_tn_tc",
                HalfKernel::TnTc64 => "gemm_bi_tn_tc64",
                HalfKernel::TnTc64StreamK => "gemm_bi_tn_tc64_streamk",
                HalfKernel::TnTc128x64 => "gemm_bi_tn_tc128x64",
                HalfKernel::NtGemv => "gemm_bi_nt_gemv",
                HalfKernel::NtNarrow => "gemm_bi_nt_narrow",
                HalfKernel::NtBig => "gemm_bi_nt_big",
                HalfKernel::NtTc => "gemm_bi_nt_tc",
                HalfKernel::NtTc64 => "gemm_bi_nt_tc64",
            }),
    {
        match self {
            HalfKernel::NnGemv => "gemm_bi_nn_gemv",
            HalfKernel::NnUltraThin => "gemm_bi_nn_ultra_thin",
            HalfKernel::NnNarrow => "gemm_bi_nn_narrow",
            HalfKernel::NnNarrowSmall => "gemm_bi_nn_narrow_small",
            HalfKernel::NnBig => "gemm_bi_nn_big",
            HalfKernel::NnTc => "gemm_bi_nn_tc",
            HalfKernel::NnTc64 => "gemm_bi_nn_tc64",
            HalfKernel::NnTc16 => "gemm_bi_nn_tc16",
            HalfKernel::TnGemv => "gemm_bi_tn_gemv",
            HalfKernel::TnNarrow => "gemm_bi_tn_narrow",
            HalfKernel::TnBig => "gemm_bi_tn_big",
            HalfKernel::TnTc => "gemm_bi_tn_tc",
            HalfKernel::TnTc64 => "gemm_bi_tn_tc64",
            HalfKernel::TnTc64StreamK => "gemm_bi_tn_tc64_streamk",
            HalfKernel::TnTc128x64 => "gemm_bi_tn_tc128x64",
            HalfKernel::NtGemv => "gemm_bi_nt_gemv",
            HalfKernel::NtNarrow => "gemm_bi_nt_narrow",
            HalfKernel::NtBig => "gemm_bi_nt_big",
            HalfKernel::NtTc => "gemm_bi_nt_tc",
            HalfKernel::NtTc64 => "gemm_bi_nt_tc64",
        }
    }

    /// The symbol of the bf16 instance.
    #[verifier::allow_in_spec]
    pub fn bf16_symbol(self) -> &'static str
        returns
            (match self {
                HalfKernel::NnGemv => "gemm_bi_nn_gemv_bf16",
                HalfKernel::NnUltraThin => "gemm_bi_nn_ultra_thin_bf16",
                HalfKernel::NnNarrow => "gemm_bi_nn_narrow_bf16",
                HalfKernel::NnNarrowSmall => "gemm_bi_nn_narrow_small_bf16",
                HalfKernel::NnBig => "gemm_bi_nn_big_bf16",
                HalfKernel::NnTc => "gemm_bi_nn_tc_bf16",
                HalfKernel::NnTc64 => "gemm_bi_nn_tc64_bf16",
                HalfKernel::NnTc16 => "gemm_bi_nn_tc16_bf16",
                HalfKernel::TnGemv => "gemm_bi_tn_gemv_bf16",
                HalfKernel::TnNarrow => "gemm_bi_tn_narrow_bf16",
                HalfKernel::TnBig => "gemm_bi_tn_big_bf16",
                HalfKernel::TnTc => "gemm_bi_tn_tc_bf16",
                HalfKernel::TnTc64 => "gemm_bi_tn_tc64_bf16",
                HalfKernel::TnTc64StreamK => "gemm_bi_tn_tc64_streamk_bf16",
                HalfKernel::TnTc128x64 => "gemm_bi_tn_tc128x64_bf16",
                HalfKernel::NtGemv => "gemm_bi_nt_gemv_bf16",
                HalfKernel::NtNarrow => "gemm_bi_nt_narrow_bf16",
                HalfKernel::NtBig => "gemm_bi_nt_big_bf16",
                HalfKernel::NtTc => "gemm_bi_nt_tc_bf16",
                HalfKernel::NtTc64 => "gemm_bi_nt_tc64_bf16",
            }),
    {
        match self {
            HalfKernel::NnGemv => "gemm_bi_nn_gemv_bf16",
            HalfKernel::NnUltraThin => "gemm_bi_nn_ultra_thin_bf16",
            HalfKernel::NnNarrow => "gemm_bi_nn_narrow_bf16",
            HalfKernel::NnNarrowSmall => "gemm_bi_nn_narrow_small_bf16",
            HalfKernel::NnBig => "gemm_bi_nn_big_bf16",
            HalfKernel::NnTc => "gemm_bi_nn_tc_bf16",
            HalfKernel::NnTc64 => "gemm_bi_nn_tc64_bf16",
            HalfKernel::NnTc16 => "gemm_bi_nn_tc16_bf16",
            HalfKernel::TnGemv => "gemm_bi_tn_gemv_bf16",
            HalfKernel::TnNarrow => "gemm_bi_tn_narrow_bf16",
            HalfKernel::TnBig => "gemm_bi_tn_big_bf16",
            HalfKernel::TnTc => "gemm_bi_tn_tc_bf16",
            HalfKernel::TnTc64 => "gemm_bi_tn_tc64_bf16",
            HalfKernel::TnTc64StreamK => "gemm_bi_tn_tc64_streamk_bf16",
            HalfKernel::TnTc128x64 => "gemm_bi_tn_tc128x64_bf16",
            HalfKernel::NtGemv => "gemm_bi_nt_gemv_bf16",
            HalfKernel::NtNarrow => "gemm_bi_nt_narrow_bf16",
            HalfKernel::NtBig => "gemm_bi_nt_big_bf16",
            HalfKernel::NtTc => "gemm_bi_nt_tc_bf16",
            HalfKernel::NtTc64 => "gemm_bi_nt_tc64_bf16",
        }
    }

    /// The symbol of the f16 instance.
    #[verifier::allow_in_spec]
    pub fn f16_symbol(self) -> &'static str
        returns
            (match self {
                HalfKernel::NnGemv => "gemm_bi_nn_gemv_f16",
                HalfKernel::NnUltraThin => "gemm_bi_nn_ultra_thin_f16",
                HalfKernel::NnNarrow => "gemm_bi_nn_narrow_f16",
                HalfKernel::NnNarrowSmall => "gemm_bi_nn_narrow_small_f16",
                HalfKernel::NnBig => "gemm_bi_nn_big_f16",
                HalfKernel::NnTc => "gemm_bi_nn_tc_f16",
                HalfKernel::NnTc64 => "gemm_bi_nn_tc64_f16",
                HalfKernel::NnTc16 => "gemm_bi_nn_tc16_f16",
                HalfKernel::TnGemv => "gemm_bi_tn_gemv_f16",
                HalfKernel::TnNarrow => "gemm_bi_tn_narrow_f16",
                HalfKernel::TnBig => "gemm_bi_tn_big_f16",
                HalfKernel::TnTc => "gemm_bi_tn_tc_f16",
                HalfKernel::TnTc64 => "gemm_bi_tn_tc64_f16",
                HalfKernel::TnTc64StreamK => "gemm_bi_tn_tc64_streamk_f16",
                HalfKernel::TnTc128x64 => "gemm_bi_tn_tc128x64_f16",
                HalfKernel::NtGemv => "gemm_bi_nt_gemv_f16",
                HalfKernel::NtNarrow => "gemm_bi_nt_narrow_f16",
                HalfKernel::NtBig => "gemm_bi_nt_big_f16",
                HalfKernel::NtTc => "gemm_bi_nt_tc_f16",
                HalfKernel::NtTc64 => "gemm_bi_nt_tc64_f16",
            }),
    {
        match self {
            HalfKernel::NnGemv => "gemm_bi_nn_gemv_f16",
            HalfKernel::NnUltraThin => "gemm_bi_nn_ultra_thin_f16",
            HalfKernel::NnNarrow => "gemm_bi_nn_narrow_f16",
            HalfKernel::NnNarrowSmall => "gemm_bi_nn_narrow_small_f16",
            HalfKernel::NnBig => "gemm_bi_nn_big_f16",
            HalfKernel::NnTc => "gemm_bi_nn_tc_f16",
            HalfKernel::NnTc64 => "gemm_bi_nn_tc64_f16",
            HalfKernel::NnTc16 => "gemm_bi_nn_tc16_f16",
            HalfKernel::TnGemv => "gemm_bi_tn_gemv_f16",
            HalfKernel::TnNarrow => "gemm_bi_tn_narrow_f16",
            HalfKernel::TnBig => "gemm_bi_tn_big_f16",
            HalfKernel::TnTc => "gemm_bi_tn_tc_f16",
            HalfKernel::TnTc64 => "gemm_bi_tn_tc64_f16",
            HalfKernel::TnTc64StreamK => "gemm_bi_tn_tc64_streamk_f16",
            HalfKernel::TnTc128x64 => "gemm_bi_tn_tc128x64_f16",
            HalfKernel::NtGemv => "gemm_bi_nt_gemv_f16",
            HalfKernel::NtNarrow => "gemm_bi_nt_narrow_f16",
            HalfKernel::NtBig => "gemm_bi_nt_big_f16",
            HalfKernel::NtTc => "gemm_bi_nt_tc_f16",
            HalfKernel::NtTc64 => "gemm_bi_nt_tc64_f16",
        }
    }

    /// Whether the kernel computes on tensor cores.
    #[verifier::allow_in_spec]
    pub fn uses_tensor_cores(self) -> bool
        returns
            (match self {
                HalfKernel::NnTc | HalfKernel::NnTc64 | HalfKernel::NnTc16 | HalfKernel::TnTc | HalfKernel::TnTc64 | HalfKernel::TnTc64StreamK | HalfKernel::TnTc128x64 | HalfKernel::NtTc | HalfKernel::NtTc64 => true,
                _ => false,
            }),
    {
        match self {
            HalfKernel::NnTc | HalfKernel::NnTc64 | HalfKernel::NnTc16 | HalfKernel::TnTc | HalfKernel::TnTc64 | HalfKernel::TnTc64StreamK | HalfKernel::TnTc128x64 | HalfKernel::NtTc | HalfKernel::NtTc64 => true,
            _ => false,
        }
    }

    /// The module that the kernel is loaded from.
    #[verifier::allow_in_spec]
    pub fn module_kind(self) -> ModuleKind
        returns
            (if self.uses_tensor_cores() {
                ModuleKind::TriadSm80
            } else {
                ModuleKind::TriadScalar
            }),
    {
        if self.uses_tensor_cores() {
            ModuleKind::TriadSm80
        } else {
            ModuleKind::TriadScalar
        }
    }

    /// How the kernel reduces one output tile.
    #[verifier::allow_in_spec]
    pub fn schedule(self) -> HalfSchedule
        returns
            (match self {
                HalfKernel::TnTc64StreamK => HalfSchedule::StreamKFixedOrder,
                _ => HalfSchedule::Tiled,
            }),
    {
        match self {
            HalfKernel::TnTc64StreamK => HalfSchedule::StreamKFixedOrder,
            _ => HalfSchedule::Tiled,
        }
    }

    /// The kernel of a name.
    pub open spec fn named(base: Seq<char>) -> Option<HalfKernel> {
        if base == "gemm_bi_nn_gemv"@ {
            Some(HalfKernel::NnGemv)
        } else if base == "gemm_bi_nn_ultra_thin"@ {
            Some(HalfKernel::NnUltraThin)
        } else if base == "gemm_bi_nn_narrow"@ {
            Some(HalfKernel::NnNarrow)
        } else if base == "gemm_bi_nn_narrow_small"@ {
            Some(HalfKernel::NnNarrowSmall)
        } else if base == "gemm_bi_nn_big"@ {
            Some(HalfKernel::NnBig)
        } else if base == "gemm_bi_nn_tc"@ {
            Some(HalfKernel::NnTc)
        } else if base == "gemm_bi_nn_tc64"@ {
            Some(HalfKernel::NnTc64)
        } else if base == "gemm_bi_nn_tc16"@ {
            Some(HalfKernel::NnTc16)
        } else if base == "gemm_bi_tn_gemv"@ {
            Some(HalfKernel::TnGemv)
        } else if base == "gemm_bi_tn_narrow"@ {
            Some(HalfKernel::TnNarrow)
        } else if base == "gemm_bi_tn_big"@ {
            Some(HalfKernel::TnBig)
        } else if base == "gemm_bi_tn_tc"@ {
            Some(HalfKernel::TnTc)
        } else if base == "gemm_bi_tn_tc64"@ {
            Some(HalfKernel::TnTc64)
        } else if base == "gemm_bi_tn_tc64_streamk"@ {
            Some(HalfKernel::TnTc64StreamK)
        } else if base == "gemm_bi_tn_tc128x64"@ {
            Some(HalfKernel::TnTc128x64)
        } else if base == "gemm_bi_nt_gemv"@ {
            Some(HalfKernel::NtGemv)
        } else if base == "gemm_bi_nt_narrow"@ {
            Some(HalfKernel::NtNarrow)
        } else if base == "gemm_bi_nt_big"@ {
            Some(HalfKernel::NtBig)
        } else if base == "gemm_bi_nt_tc"@ {
            Some(HalfKernel::NtTc)
        } else if base == "gemm_bi_nt_tc64"@ {
            Some(HalfKernel::NtTc64)
        } else {
            None
        }
    }

    /// Finds the kernel of a name.
    pub fn find(base: &str) -> (kernel: Option<HalfKernel>)
        ensures
            kernel == HalfKernel::named(base@),
    {
        if same_text(base, "gemm_bi_nn_gemv") {
            Some(HalfKernel::NnGemv)
        } else if same_text(base, "gemm_bi_nn_ultra_thin") {
            Some(HalfKernel::NnUltraThin)
        } else if same_text(base, "gemm_bi_nn_narrow") {
            Some(HalfKernel::NnNarrow)
        } else if same_text(base, "gemm_bi_nn_narrow_small") {
            Some(HalfKernel::NnNarrowSmall)
        } else if same_text(base, "gemm_bi_nn_big") {
            Some(HalfKernel::NnBig)
        } else if same_text(base, "gemm_bi_nn_tc") {
            Some(HalfKernel::NnTc)
        } else if same_text(base, "gemm_bi_nn_tc64") {
            Some(HalfKernel::NnTc64)
        } else if same_text(base, "gemm_bi_nn_tc16") {
            Some(HalfKernel::NnTc16)
        } else if same_text(base, "gemm_bi_tn_gemv") {
            Some(HalfKernel::TnGemv)
        } else if same_text(base, "gemm_bi_tn_narrow") {
            Some(HalfKernel::TnNarrow)
        } else if same_text(base, "gemm_bi_tn_big") {
            Some(HalfKernel::TnBig)
        } else if same_text(base, "gemm_bi_tn_tc") {
            Some(HalfKernel::TnTc)
        } else if same_text(base, "gemm_bi_tn_tc64") {
            Some(HalfKernel::TnTc64)
        } else if same_text(base, "gemm_bi_tn_tc64_streamk") {
            Some(HalfKernel::TnTc64StreamK)
        } else if same_text(base, "gemm_bi_tn_tc128x64") {
            Some(HalfKernel::TnTc128x64)
        } else if same_text(base, "gemm_bi_nt_gemv") {
            Some(HalfKernel::NtGemv)
        } else if same_text(base, "gemm_bi_nt_narrow") {
            Some(HalfKernel::NtNarrow)
        } else if same_text(base, "gemm_bi_nt_big") {
            Some(HalfKernel::NtBig)
        } else if same_text(base, "gemm_bi_nt_tc") {
            Some(HalfKernel::NtTc)
        } else if same_text(base, "gemm_bi_nt_tc64") {
            Some(HalfKernel::NtTc64)
        } else {
            None
        }
    }
}

proof fn base_outline(kernel: HalfKernel)
    ensures
        match kernel {
            HalfKernel::NnGemv => kernel.base()@.len() == 15 && kernel.base()@[8] == 'n' && kernel.base()@[9] == 'n' && kernel.base()@[11] == 'g' && kernel.base()@[13] == 'm',
            HalfKernel::NnUltraThin => kernel.base()@.len() == 21 && kernel.base()@[8] == 'n' && kernel.base()@[9] == 'n' && kernel.base()@[11] == 'u' && kernel.base()@[13] == 't',
            HalfKernel::NnNarrow => kernel.base()@.len() == 17 && kernel.base()@[8] == 'n' && kernel.base()@[9] == 'n' && kernel.base()@[11] == 'n' && kernel.base()@[13] == 'r',
            HalfKernel::NnNarrowSmall => kernel.base()@.len() == 23 && kernel.base()@[8] == 'n' && kernel.base()@[9] == 'n' && kernel.base()@[11] == 'n' && kernel.base()@[13] == 'r',
            HalfKernel::NnBig => kernel.base()@.len() == 14 && kernel.base()@[8] == 'n' && kernel.base()@[9] == 'n' && kernel.base()@[11] == 'b' && kernel.base()@[13] == 'g',
            HalfKernel::NnTc => kernel.base()@.len() == 13 && kernel.base()@[8] == 'n' && kernel.base()@[9] == 'n' && kernel.base()@[11] == 't',
            HalfKernel::NnTc64 => kernel.base()@.len() == 15 && kernel.base()@[8] == 'n' && kernel.base()@[9] == 'n' && kernel.base()@[11] == 't' && kernel.base()@[13] == '6',
            HalfKernel::NnTc16 => kernel.base()@.len() == 15 && kernel.base()@[8] == 'n' && kernel.base()@[9] == 'n' && kernel.base()@[11] == 't' && kernel.base()@[13] == '1',
            HalfKernel::TnGemv => kernel.base()@.len() == 15 && kernel.base()@[8] == 't' && kernel.base()@[9] == 'n' && kernel.base()@[11] == 'g' && kernel.base()@[13] == 'm',
            HalfKernel::TnNarrow => kernel.base()@.len() == 17 && kernel.base()@[8] == 't' && kernel.base()@[9] == 'n' && kernel.base()@[11] == 'n' && kernel.base()@[13] == 'r',
            HalfKernel::TnBig => kernel.base()@.len() == 14 && kernel.base()@[8] == 't' && kernel.base()@[9] == 'n' && kernel.base()@[11] == 'b' && kernel.base()@[13] == 'g',
            HalfKernel::TnTc => kernel.base()@.len() == 13 && kernel.base()@[8] == 't' && kernel.base()@[9] == 'n' && kernel.base()@[11] == 't',
            HalfKernel::TnTc64 => kernel.base()@.len() == 15 && kernel.base()@[8] == 't' && kernel.base()@[9] == 'n' && kernel.base()@[11] == 't' && kernel.base()@[13] == '6',
            HalfKernel::TnTc64StreamK => kernel.base()@.len() == 23 && kernel.base()@[8] == 't' && kernel.base()@[9] == 'n' && kernel.base()@[11] == 't' && kernel.base()@[13] == '6',
            HalfKernel::TnTc128x64 => kernel.base()@.len() == 19 && kernel.base()@[8] == 't' && kernel.base()@[9] == 'n' && kernel.base()@[11] == 't' && kernel.base()@[13] == '1',
            HalfKernel::NtGemv => kernel.base()@.len() == 15 && kernel.base()@[8] == 'n' && kernel.base()@[9] == 't' && kernel.base()@[11] == 'g' && kernel.base()@[13] == 'm',
            HalfKernel::NtNarrow => kernel.base()@.len() == 17 && kernel.base()@[8] == 'n' && kernel.base()@[9] == 't' && kernel.base()@[11] == 'n' && kernel.base()@[13] == 'r',
            HalfKernel::NtBig => kernel.base()@.len() == 14 && kernel.base()@[8] == 'n' && kernel.base()@[9] == 't' && kernel.base()@[11] == 'b' && kernel.base()@[13] == 'g',
            HalfKernel::NtTc => kernel.base()@.len() == 13 && kernel.base()@[8] == 'n' && kernel.base()@[9] == 't' && kernel.base()@[11] == 't',
            HalfKernel::NtTc64 => kernel.base()@.len() == 15 && kernel.base()@[8] == 'n' && kernel.base()@[9] == 't' && kernel.base()@[11] == 't' && kernel.base()@[13] == '6',
        },
{
    match kernel {
        HalfKernel::NnGemv => {
            reveal_strlit("gemm_bi_nn_gemv");
        },
        HalfKernel::NnUltraThin => {
            reveal_strlit("gemm_bi_nn_ultra_thin");
        },
        HalfKernel::NnNarrow => {
            reveal_strlit("gemm_bi_nn_narrow");
        },
        HalfKernel::NnNarrowSmall => {
            reveal_strlit("gemm_bi_nn_narrow_small");
        },
        HalfKernel::NnBig => {
            reveal_strlit("gemm_bi_nn_big");
        },
        HalfKernel::NnTc => {
            reveal_strlit("gemm_bi_nn_tc");
        },
        HalfKernel::NnTc64 => {
            reveal_strlit("gemm_bi_nn_tc64");
        },
        HalfKernel::NnTc16 => {
            reveal_strlit("gemm_bi_nn_tc16");
        },
        HalfKernel::TnGemv => {
            reveal_strlit("gemm_bi_tn_gemv");
        },
        HalfKernel::TnNarrow => {
            reveal_strlit("gemm_bi_tn_narrow");
        },
        HalfKernel::TnBig => {
            reveal_strlit("gemm_bi_tn_big");
        },
        HalfKernel::TnTc => {
            reveal_strlit("gemm_bi_tn_tc");
        },
        HalfKernel::TnTc64 => {
            reveal_strlit("gemm_bi_tn_tc64");
        },
        HalfKernel::TnTc64StreamK => {
            reveal_strlit("gemm_bi_tn_tc64_streamk");
        },
        HalfKernel::TnTc128x64 => {
            reveal_strlit("gemm_bi_tn_tc128x64");
        },
        HalfKernel::NtGemv => {
            reveal_strlit("gemm_bi_nt_gemv");
        },
        HalfKernel::NtNarrow => {
            reveal_strlit("gemm_bi_nt_narrow");
        },
        HalfKernel::NtBig => {
            reveal_strlit("gemm_bi_nt_big");
        },
        HalfKernel::NtTc => {
            reveal_strlit("gemm_bi_nt_tc");
        },
        HalfKernel::NtTc64 => {
            reveal_strlit("gemm_bi_nt_tc64");
        },
    }
}

/// No two kernels share a name, so a name finds its kernel again.
pub proof fn base_names_their_kernel(kernel: HalfKernel)
    ensures
        HalfKernel::named(kernel.base()@) == Some(kernel),
        forall|other: HalfKernel| other.base()@ == kernel.base()@ ==> other == kernel,
{
    assert forall|other: HalfKernel| other.base()@ == kernel.base()@ implies other == kernel by {
        base_outline(kernel);
        base_outline(other);
    }
    assert(HalfKernel::NnGemv.base()@ == "gemm_bi_nn_gemv"@);
    assert(HalfKernel::NnUltraThin.base()@ == "gemm_bi_nn_ultra_thin"@);
    assert(HalfKernel::NnNarrow.base()@ == "gemm_bi_nn_narrow"@);
    assert(HalfKernel::NnNarrowSmall.base()@ == "gemm_bi_nn_narrow_small"@);
    assert(HalfKernel::NnBig.base()@ == "gemm_bi_nn_big"@);
    assert(HalfKernel::NnTc.base()@ == "gemm_bi_nn_tc"@);
    assert(HalfKernel::NnTc64.base()@ == "gemm_bi_nn_tc64"@);
    assert(HalfKernel::NnTc16.base()@ == "gemm_bi_nn_tc16"@);
    assert(HalfKernel::TnGemv.base()@ == "gemm_bi_tn_gemv"@);
    assert(HalfKernel::TnNarrow.base()@ == "gemm_bi_tn_narrow"@);
    assert(HalfKernel::TnBig.base()@ == "gemm_bi_tn_big"@);
    assert(HalfKernel::TnTc.base()@ == "gemm_bi_tn_tc"@);
    assert(HalfKernel::TnTc64.base()@ == "gemm_bi_tn_tc64"@);
    assert(HalfKernel::TnTc64StreamK.base()@ == "gemm_bi_tn_tc64_streamk"@);
    assert(HalfKernel::TnTc128x64.base()@ == "gemm_bi_tn_tc128x64"@);
    assert(HalfKernel::NtGemv.base()@ == "gemm_bi_nt_gemv"@);
    assert(HalfKernel::NtNarrow.base()@ == "gemm_bi_nt_narrow"@);
    assert(HalfKernel::NtBig.base()@ == "gemm_bi_nt_big"@);
    assert(HalfKernel::NtTc.base()@ == "gemm_bi_nt_tc"@);
    assert(HalfKernel::NtTc64.base()@ == "gemm_bi_nt_tc64"@);
}

/// The symbol suffix of a half element type.
#[verifier::allow_in_spec]
pub fn half_suffix(dtype: WeightDtype) -> Option<&'static str>
    returns
        (match dtype {
            WeightDtype::Bf16 => Some("_bf16"),
            WeightDtype::F16 => Some("_f16"),
            WeightDtype::F32 => None::<&'static str>,
            WeightDtype::Tf32 => None::<&'static str>,
        }),
{
    match dtype {
        WeightDtype::Bf16 => Some("_bf16"),
        WeightDtype::F16 => Some("_f16"),
        WeightDtype::F32 => None,
        WeightDtype::Tf32 => None,
    }
}

/// The symbol of a kernel at a half element type.
#[verifier::allow_in_spec]
pub fn half_symbol(kernel: HalfKernel, dtype: WeightDtype) -> Option<&'static str>
    returns
        (match dtype {
            WeightDtype::Bf16 => Some(kernel.bf16_symbol()),
            WeightDtype::F16 => Some(kernel.f16_symbol()),
            WeightDtype::F32 => None::<&'static str>,
            WeightDtype::Tf32 => None::<&'static str>,
        }),
{
    match dtype {
        WeightDtype::Bf16 => Some(kernel.bf16_symbol()),
        WeightDtype::F16 => Some(kernel.f16_symbol()),
        WeightDtype::F32 => None,
        WeightDtype::Tf32 => None,
    }
}

proof fn symbol_text(kernel: HalfKernel)
    ensures
        kernel.bf16_symbol()@ == kernel.base()@ + "_bf16"@,
        kernel.f16_symbol()@ == kernel.base()@ + "_f16"@,
{
    reveal_strlit("_bf16");
    reveal_strlit("_f16");
    match kernel {
        HalfKernel::NnGemv => {
            reveal_strlit("gemm_bi_nn_gemv");
            reveal_strlit("gemm_bi_nn_gemv_bf16");
            reveal_strlit("gemm_bi_nn_gemv_f16");
        },
        HalfKernel::NnUltraThin => {
            reveal_strlit("gemm_bi_nn_ultra_thin");
            reveal_strlit("gemm_bi_nn_ultra_thin_bf16");
            reveal_strlit("gemm_bi_nn_ultra_thin_f16");
        },
        HalfKernel::NnNarrow => {
            reveal_strlit("gemm_bi_nn_narrow");
            reveal_strlit("gemm_bi_nn_narrow_bf16");
            reveal_strlit("gemm_bi_nn_narrow_f16");
        },
        HalfKernel::NnNarrowSmall => {
            reveal_strlit("gemm_bi_nn_narrow_small");
            reveal_strlit("gemm_bi_nn_narrow_small_bf16");
            reveal_strlit("gemm_bi_nn_narrow_small_f16");
        },
        HalfKernel::NnBig => {
            reveal_strlit("gemm_bi_nn_big");
            reveal_strlit("gemm_bi_nn_big_bf16");
            reveal_strlit("gemm_bi_nn_big_f16");
        },
        HalfKernel::NnTc => {
            reveal_strlit("gemm_bi_nn_tc");
            reveal_strlit("gemm_bi_nn_tc_bf16");
            reveal_strlit("gemm_bi_nn_tc_f16");
        },
        HalfKernel::NnTc64 => {
            reveal_strlit("gemm_bi_nn_tc64");
            reveal_strlit("gemm_bi_nn_tc64_bf16");
            reveal_strlit("gemm_bi_nn_tc64_f16");
        },
        HalfKernel::NnTc16 => {
            reveal_strlit("gemm_bi_nn_tc16");
            reveal_strlit("gemm_bi_nn_tc16_bf16");
            reveal_strlit("gemm_bi_nn_tc16_f16");
        },
        HalfKernel::TnGemv => {
            reveal_strlit("gemm_bi_tn_gemv");
            reveal_strlit("gemm_bi_tn_gemv_bf16");
            reveal_strlit("gemm_bi_tn_gemv_f16");
        },
        HalfKernel::TnNarrow => {
            reveal_strlit("gemm_bi_tn_narrow");
            reveal_strlit("gemm_bi_tn_narrow_bf16");
            reveal_strlit("gemm_bi_tn_narrow_f16");
        },
        HalfKernel::TnBig => {
            reveal_strlit("gemm_bi_tn_big");
            reveal_strlit("gemm_bi_tn_big_bf16");
            reveal_strlit("gemm_bi_tn_big_f16");
        },
        HalfKernel::TnTc => {
            reveal_strlit("gemm_bi_tn_tc");
            reveal_strlit("gemm_bi_tn_tc_bf16");
            reveal_strlit("gemm_bi_tn_tc_f16");
        },
        HalfKernel::TnTc64 => {
            reveal_strlit("gemm_bi_tn_tc64");
            reveal_strlit("gemm_bi_tn_tc64_bf16");
            reveal_strlit("gemm_bi_tn_tc64_f16");
        },
        HalfKernel::TnTc64StreamK => {
            reveal_strlit("gemm_bi_tn_tc64_streamk");
            reveal_strlit("gemm_bi_tn_tc64_streamk_bf16");
            reveal_strlit("gemm_bi_tn_tc64_streamk_f16");
        },
        HalfKernel::TnTc128x64 => {
            reveal_strlit("gemm_bi_tn_tc128x64");
            reveal_strlit("gemm_bi_tn_tc128x64_bf16");
            reveal_strlit("gemm_bi_tn_tc128x64_f16");
        },
        HalfKernel::NtGemv => {
            reveal_strlit("gemm_bi_nt_gemv");
            reveal_strlit("gemm_bi_nt_gemv_bf16");
            reveal_strlit("gemm_bi_nt_gemv_f16");
        },
        HalfKernel::NtNarrow => {
            reveal_strlit("gemm_bi_nt_narrow");
            reveal_strlit("gemm_bi_nt_narrow_bf16");
            reveal_strlit("gemm_bi_nt_narrow_f16");
        },
        HalfKernel::NtBig => {
            reveal_strlit("gemm_bi_nt_big");
            reveal_strlit("gemm_bi_nt_big_bf16");
            reveal_strlit("gemm_bi_nt_big_f16");
        },
        HalfKernel::NtTc => {
            reveal_strlit("gemm_bi_nt_tc");
            reveal_strlit("gemm_bi_nt_tc_bf16");
            reveal_strlit("gemm_bi_nt_tc_f16");
        },
        HalfKernel::NtTc64 => {
            reveal_strlit("gemm_bi_nt_tc64");
            reveal_strlit("gemm_bi_nt_tc64_bf16");
            reveal_strlit("gemm_bi_nt_tc64_f16");
        },
    }
    assert(kernel.bf16_symbol()@ =~= kernel.base()@ + "_bf16"@);
    assert(kernel.f16_symbol()@ =~= kernel.base()@ + "_f16"@);
}

/// A symbol is the kernel's name followed by the suffix of its element
/// type, exactly.
pub proof fn symbol_is_base_and_suffix(kernel: HalfKernel, dtype: WeightDtype)
    requires
        half_suffix(dtype) is Some,
    ensures
        half_symbol(kernel, dtype) is Some,
        half_symbol(kernel, dtype)->0@ == kernel.base()@ + half_suffix(dtype)->0@,
{
    symbol_text(kernel);
}

/// The symbol and the module owner of a half kernel.
#[derive(Clone, Copy, Debug, PartialEq, Eq)]
pub struct HalfKernelIdentity {
    pub symbol: &'static str,
    pub module_kind: ModuleKind,
    pub schedule: HalfSchedule,
}

/// The identity of a kernel at an element type.
pub open spec fn kernel_identity(kernel: HalfKernel, symbol: &'static str) -> HalfKernelIdentity {
    HalfKernelIdentity { symbol, module_kind: kernel.module_kind(), schedule: kernel.schedule() }
}

impl HalfKernelIdentity {
    /// What a kernel name and an element type resolve to.
    pub open spec fn resolved(base: &'static str, dtype: WeightDtype) -> Result<
        HalfKernelIdentity,
        LaunchError,
    > {
        if half_suffix(dtype) is None {
            Err(LaunchError::Rejected("half kernel identity does not accept f32"))
        } else {
            match HalfKernel::named(base@) {
                Some(kernel) => Ok(kernel_identity(kernel, half_symbol(kernel, dtype)->0)),
                None => Err(LaunchError::UnknownHalfKernel(base)),
            }
        }
    }

    /// Resolves a kernel name at an element type.
    pub fn resolve(base: &'static str, dtype: WeightDtype) -> (result: Result<
        HalfKernelIdentity,
        LaunchError,
    >)
        ensures
            result == HalfKernelIdentity::resolved(base, dtype),
    {
        match HalfKernel::find(base) {
            Some(kernel) => match half_symbol(kernel, dtype) {
                Some(symbol) => Ok(
                    HalfKernelIdentity {
                        symbol,
                        module_kind: kernel.module_kind(),
                        schedule: kernel.schedule(),
                    },
                ),
                None => Err(LaunchError::Rejected("half kernel identity does not accept f32")),
            },
            None => match half_suffix(dtype) {
                Some(_) => Err(LaunchError::UnknownHalfKernel(base)),
                None => Err(LaunchError::Rejected("half kernel identity does not accept f32")),
            },
        }
    }

    /// Accepts exactly this symbol from exactly this module.
    pub fn validate(self, module_kind: ModuleKind, symbol: &str) -> (result: Result<
        (),
        LaunchError,
    >)
        ensures
            result == (if module_kind == self.module_kind && symbol@ == self.symbol@ {
                Ok::<(), LaunchError>(())
            } else {
                Err::<(), LaunchError>(
                    LaunchError::Rejected(
                        "half kernel identity does not match its exact symbol and module owner",
                    ),
                )
            }),
    {
        if module_kind != self.module_kind || !same_text(symbol, self.symbol) {
            return Err(
                LaunchError::Rejected(
                    "half kernel identity does not match its exact symbol and module owner",
                ),
            );
        }
        Ok(())
    }
}

/// Typed launchers accept only the bf16 and f16 element types.
#[verifier::allow_in_spec]
pub fn require_half(dtype: WeightDtype, what: &'static str) -> Result<(), LaunchError>
    returns
        (match half_suffix(dtype) {
            Some(_) => Ok::<(), LaunchError>(()),
            None => Err::<(), LaunchError>(LaunchError::RequiresHalf(what)),
        }),
{
    match half_suffix(dtype) {
        Some(_) => Ok(()),
        None => Err(LaunchError::RequiresHalf(what)),
    }
}

/// The policy element type of a half tensor.
#[verifier::allow_in_spec]
pub fn half_policy_dtype(dtype: WeightDtype) -> Result<PolicyDtype, LaunchError>
    returns
        (match dtype {
            WeightDtype::Bf16 => Ok::<PolicyDtype, LaunchError>(PolicyDtype::Bf16),
            WeightDtype::F16 => Ok::<PolicyDtype, LaunchError>(PolicyDtype::F16),
            _ => Err::<PolicyDtype, LaunchError>(
                LaunchError::Rejected("half physical launch identity does not accept f32"),
            ),
        }),
{
    match dtype {
        WeightDtype::Bf16 => Ok(PolicyDtype::Bf16),
        WeightDtype::F16 => Ok(PolicyDtype::F16),
        _ => Err(LaunchError::Rejected("half physical launch identity does not accept f32")),
    }
}

} // verus!
