//! Why a launch is refused, and how a refusal reads.

use crate::arguments::PHYSICAL_SCALAR_MAX_ARGUMENT_BYTES;
use crate::identity::{AllocationDomain, ModuleKind};
use crate::scalar_plan::SCALAR_TRANSPOSE_SCRATCH_CAP_ELEMENTS;
use crate::shape::ResolvedGemmOp;
use crate::text;
use crate::text::{append_decimal, append_digits, append_signed};
use crate::tf32_plan::{Sm120FmaTile, Tf32PhysicalRoute, Tf32Tiling};
use vstd::prelude::*;
use vstd::string::StringExecFns;

verus! {

/// The half-precision products that leave some shapes uncovered.
#[derive(Clone, Copy, Debug, PartialEq, Eq, Structural)]
pub enum UncoveredProduct {
    ForwardTc,
    BackwardDwTc,
    BackwardDxTc,
    ForwardTyped,
    BackwardDwTyped,
    BackwardDxTyped,
}

impl UncoveredProduct {
    /// What an uncovered shape is told, ahead of its extents and behind them.
    #[verifier::allow_in_spec]
    pub fn texts(self) -> (&'static str, &'static str)
        returns
            (match self {
                UncoveredProduct::ForwardTc => (
                    "UNCOVERED gemm_bi_forward_tc: shape",
                    " below the TC tile gate",
                ),
                UncoveredProduct::BackwardDwTc => (
                    "UNCOVERED gemm_bi_backward_dw_tc: shape",
                    " outside the automatic TC route",
                ),
                UncoveredProduct::BackwardDxTc => (
                    "UNCOVERED gemm_bi_backward_dx_tc: shape",
                    " outside the automatic TC route",
                ),
                UncoveredProduct::ForwardTyped => (
                    "UNCOVERED gemm_bi_forward_typed_native: Big/Slim buckets not yet implemented — shape",
                    ". Disable the batch-invariant flag for this configuration.",
                ),
                UncoveredProduct::BackwardDwTyped => (
                    "UNCOVERED gemm_bi_backward_dw_typed_native: split-M/Slim buckets are upcast-fallback territory — shape",
                    ".",
                ),
                UncoveredProduct::BackwardDxTyped => (
                    "UNCOVERED gemm_bi_backward_dx_typed_native: split-N/Slim buckets are upcast-fallback territory — shape",
                    ".",
                ),
            }),
    {
        match self {
            UncoveredProduct::ForwardTc => (
                "UNCOVERED gemm_bi_forward_tc: shape",
                " below the TC tile gate",
            ),
            UncoveredProduct::BackwardDwTc => (
                "UNCOVERED gemm_bi_backward_dw_tc: shape",
                " outside the automatic TC route",
            ),
            UncoveredProduct::BackwardDxTc => (
                "UNCOVERED gemm_bi_backward_dx_tc: shape",
                " outside the automatic TC route",
            ),
            UncoveredProduct::ForwardTyped => (
                "UNCOVERED gemm_bi_forward_typed_native: Big/Slim buckets not yet implemented — shape",
                ". Disable the batch-invariant flag for this configuration.",
            ),
            UncoveredProduct::BackwardDwTyped => (
                "UNCOVERED gemm_bi_backward_dw_typed_native: split-M/Slim buckets are upcast-fallback territory — shape",
                ".",
            ),
            UncoveredProduct::BackwardDxTyped => (
                "UNCOVERED gemm_bi_backward_dx_typed_native: split-N/Slim buckets are upcast-fallback territory — shape",
                ".",
            ),
        }
    }
}

/// Why a launch was refused. A refusal carries the text of the rule that was
/// broken, or the figures that it was broken with.
#[derive(Clone, Copy, Debug, PartialEq, Eq)]
pub enum LaunchError {
    /// A value does not fit the unsigned 32-bit range of a launch dimension.
    ExceedsU32(&'static str),
    /// A value does not fit the signed 32-bit range of a kernel argument.
    ExceedsI32(&'static str),
    /// A product of launch extents does not fit `u32`.
    ProductOverflow(&'static str),
    /// A byte offset does not fit the 64-bit device address space.
    OffsetOverflow(&'static str),
    /// A GEMM extent or stride is outside what the kernels address.
    InvalidDimensions(&'static str),
    /// A request is well formed but breaks a rule of the dispatcher.
    Rejected(&'static str),
    /// A tensor of a half-precision product is not of a half element type.
    RequiresHalf(&'static str),
    /// A shape that no native kernel of the product covers.
    Uncovered(UncoveredProduct, (usize, usize, usize)),
    /// A kernel, or what was counted of it, cannot be had.
    Unavailable(&'static str, &'static str),
    /// A kernel specification is one of another operation.
    OperationMismatch(&'static str, ResolvedGemmOp, ResolvedGemmOp),
    /// A negative answer of the driver.
    NegativeAnswer(&'static str, i32),
    /// The stream and the kernels live in different contexts.
    ForeignDomain(&'static str, AllocationDomain, AllocationDomain),
    /// A route has no module that was qualified for it.
    UnqualifiedRoute(Tf32PhysicalRoute),
    /// A forced route was refused when its module was qualified.
    ForcedRouteRejected(Tf32PhysicalRoute, &'static str),
    /// A prepared kernel has no digest of its arguments.
    ZeroArgumentDigest(&'static str),
    /// A kernel stands where another one, or another launch of it, was
    /// prepared.
    LaunchChanged(&'static str, &'static str),
    /// A kernel stands behind the last prepared one.
    UnexpectedKernel(&'static str),
    /// Fewer kernels were enqueued than were prepared.
    MissingKernels(usize, usize),
    /// An argument is too wide to be captured.
    ArgumentTooWide(usize),
    /// The transposed weights do not fit the transpose workspace.
    TransposeScratchExceeded(usize),
    /// The transpose workspace does not have its frozen capacity.
    TransposeScratchCapacity(&'static str, usize, usize),
    /// A kernel name that no half-precision kernel has.
    UnknownHalfKernel(&'static str),
    /// A module that owns no half-precision kernel.
    UnsupportedOwner(ModuleKind),
    /// The memory behind an argument was not looked up ahead of its launch.
    OutsideAllocations(u64, u64),
}

/// The extents of a product as they are written.
pub open spec fn extents_text(dims: (usize, usize, usize)) -> Seq<char> {
    " M="@ + text::decimal(dims.0 as int) + " K="@ + text::decimal(dims.1 as int) + " N="@ + text::decimal(
        dims.2 as int,
    )
}

/// An operation as it is written.
#[verifier::allow_in_spec]
pub fn op_text(op: ResolvedGemmOp) -> &'static str
    returns
        (match op {
            ResolvedGemmOp::Nn => "Nn",
            ResolvedGemmOp::Tn => "Tn",
            ResolvedGemmOp::Nt => "Nt",
        }),
{
    match op {
        ResolvedGemmOp::Nn => "Nn",
        ResolvedGemmOp::Tn => "Tn",
        ResolvedGemmOp::Nt => "Nt",
    }
}

/// A module as it is written.
#[verifier::allow_in_spec]
pub fn module_text(kind: ModuleKind) -> &'static str
    returns
        (match kind {
            ModuleKind::Fixed => "Fixed",
            ModuleKind::TriadScalar => "TriadScalar",
            ModuleKind::TriadSm80 => "TriadSm80",
            ModuleKind::TriadSm90a => "TriadSm90a",
            ModuleKind::TriadSm100 => "TriadSm100",
            ModuleKind::TriadSm120 => "TriadSm120",
        }),
{
    match kind {
        ModuleKind::Fixed => "Fixed",
        ModuleKind::TriadScalar => "TriadScalar",
        ModuleKind::TriadSm80 => "TriadSm80",
        ModuleKind::TriadSm90a => "TriadSm90a",
        ModuleKind::TriadSm100 => "TriadSm100",
        ModuleKind::TriadSm120 => "TriadSm120",
    }
}

/// An allocation domain as it is written.
pub open spec fn domain_text(domain: AllocationDomain) -> Seq<char> {
    "AllocationDomain { context_handle: "@ + text::decimal(domain.context_handle as int)
        + ", device_ordinal: "@ + text::decimal(domain.device_ordinal as int) + " }"@
}

fn append_domain(text: &mut String, domain: AllocationDomain)
    ensures
        final(text)@ == old(text)@ + domain_text(domain),
{
    text.append("AllocationDomain { context_handle: ");
    append_digits(text, domain.context_handle, 10);
    text.append(", device_ordinal: ");
    append_digits(text, domain.device_ordinal as u64, 10);
    text.append(" }");
    assert(text@ =~= old(text)@ + domain_text(domain));
}

/// The family of a route as it is written.
#[verifier::allow_in_spec]
pub fn route_family_text(route: Tf32PhysicalRoute) -> &'static str
    returns
        (match route {
            Tf32PhysicalRoute::MmaTf32RnaV1(_) => "MmaTf32RnaV1",
            Tf32PhysicalRoute::MmaTf32RnaSplitK2V1(_) => "MmaTf32RnaSplitK2V1",
            Tf32PhysicalRoute::MmaTf32RnaSplitK4V1(_) => "MmaTf32RnaSplitK4V1",
            Tf32PhysicalRoute::MmaTf32RnaSplitK8V1(_) => "MmaTf32RnaSplitK8V1",
            Tf32PhysicalRoute::Sm90aWgmmaTf32TmaV1(_) => "Sm90aWgmmaTf32TmaV1",
            Tf32PhysicalRoute::Sm100Tcgen05Tf32TmaV1(_) => "Sm100Tcgen05Tf32TmaV1",
            Tf32PhysicalRoute::Sm120TmaMmaTf32RnaV1(_) => "Sm120TmaMmaTf32RnaV1",
            Tf32PhysicalRoute::Sm120TmaMmaTf32RnaStreamKV1(_) => "Sm120TmaMmaTf32RnaStreamKV1",
            Tf32PhysicalRoute::Sm120TmaFmaExactV1(_) => "Sm120TmaFmaExactV1",
        }),
{
    match route {
        Tf32PhysicalRoute::MmaTf32RnaV1(_) => "MmaTf32RnaV1",
        Tf32PhysicalRoute::MmaTf32RnaSplitK2V1(_) => "MmaTf32RnaSplitK2V1",
        Tf32PhysicalRoute::MmaTf32RnaSplitK4V1(_) => "MmaTf32RnaSplitK4V1",
        Tf32PhysicalRoute::MmaTf32RnaSplitK8V1(_) => "MmaTf32RnaSplitK8V1",
        Tf32PhysicalRoute::Sm90aWgmmaTf32TmaV1(_) => "Sm90aWgmmaTf32TmaV1",
        Tf32PhysicalRoute::Sm100Tcgen05Tf32TmaV1(_) => "Sm100Tcgen05Tf32TmaV1",
        Tf32PhysicalRoute::Sm120TmaMmaTf32RnaV1(_) => "Sm120TmaMmaTf32RnaV1",
        Tf32PhysicalRoute::Sm120TmaMmaTf32RnaStreamKV1(_) => "Sm120TmaMmaTf32RnaStreamKV1",
        Tf32PhysicalRoute::Sm120TmaFmaExactV1(_) => "Sm120TmaFmaExactV1",
    }
}

/// The member of a tiled family as it is written.
pub open spec fn tiling_text(tiling: Tf32Tiling) -> Seq<char> {
    "M"@ + text::decimal(tiling.rows as int) + "N"@ + text::decimal(tiling.columns as int) + "K"@ + text::decimal(
        tiling.bk as int,
    ) + "S"@ + text::decimal(tiling.stages as int)
}

/// The member of the exact family as it is written.
#[verifier::allow_in_spec]
pub fn exact_member_text(tile: Sm120FmaTile, kvec: bool) -> &'static str
    returns
        (match (tile, kvec) {
            (Sm120FmaTile::M128N64, false) => "Sm120FmaRoute { tile: M128N64, kvec: false, splits: ",
            (Sm120FmaTile::M128N64, true) => "Sm120FmaRoute { tile: M128N64, kvec: true, splits: ",
            (Sm120FmaTile::M64N128, false) => "Sm120FmaRoute { tile: M64N128, kvec: false, splits: ",
            (Sm120FmaTile::M64N128, true) => "Sm120FmaRoute { tile: M64N128, kvec: true, splits: ",
        }),
{
    match (tile, kvec) {
        (Sm120FmaTile::M128N64, false) => "Sm120FmaRoute { tile: M128N64, kvec: false, splits: ",
        (Sm120FmaTile::M128N64, true) => "Sm120FmaRoute { tile: M128N64, kvec: true, splits: ",
        (Sm120FmaTile::M64N128, false) => "Sm120FmaRoute { tile: M64N128, kvec: false, splits: ",
        (Sm120FmaTile::M64N128, true) => "Sm120FmaRoute { tile: M64N128, kvec: true, splits: ",
    }
}

/// A route as it is written: its family and its member.
pub open spec fn route_text(route: Tf32PhysicalRoute) -> Seq<char> {
    route_family_text(route)@ + "("@ + (match route {
        Tf32PhysicalRoute::Sm120TmaFmaExactV1(exact) => exact_member_text(exact.tile, exact.kvec)@
            + text::decimal(exact.splits as int) + " }"@,
        Tf32PhysicalRoute::MmaTf32RnaV1(tiling)
        | Tf32PhysicalRoute::MmaTf32RnaSplitK2V1(tiling)
        | Tf32PhysicalRoute::MmaTf32RnaSplitK4V1(tiling)
        | Tf32PhysicalRoute::MmaTf32RnaSplitK8V1(tiling)
        | Tf32PhysicalRoute::Sm90aWgmmaTf32TmaV1(tiling)
        | Tf32PhysicalRoute::Sm100Tcgen05Tf32TmaV1(tiling)
        | Tf32PhysicalRoute::Sm120TmaMmaTf32RnaV1(tiling)
        | Tf32PhysicalRoute::Sm120TmaMmaTf32RnaStreamKV1(tiling) => tiling_text(tiling),
    }) + ")"@
}

fn append_tiling(text: &mut String, tiling: Tf32Tiling)
    ensures
        final(text)@ == old(text)@ + tiling_text(tiling),
{
    text.append("M");
    append_digits(text, tiling.rows as u64, 10);
    text.append("N");
    append_digits(text, tiling.columns as u64, 10);
    text.append("K");
    append_digits(text, tiling.bk as u64, 10);
    text.append("S");
    append_digits(text, tiling.stages as u64, 10);
    assert(text@ =~= old(text)@ + tiling_text(tiling));
}

fn append_route(text: &mut String, route: Tf32PhysicalRoute)
    ensures
        final(text)@ == old(text)@ + route_text(route),
{
    text.append(route_family_text(route));
    text.append("(");
    match route {
        Tf32PhysicalRoute::Sm120TmaFmaExactV1(exact) => {
            text.append(exact_member_text(exact.tile, exact.kvec));
            append_digits(text, exact.splits as u64, 10);
            text.append(" }");
        },
        Tf32PhysicalRoute::MmaTf32RnaV1(tiling)
        | Tf32PhysicalRoute::MmaTf32RnaSplitK2V1(tiling)
        | Tf32PhysicalRoute::MmaTf32RnaSplitK4V1(tiling)
        | Tf32PhysicalRoute::MmaTf32RnaSplitK8V1(tiling)
        | Tf32PhysicalRoute::Sm90aWgmmaTf32TmaV1(tiling)
        | Tf32PhysicalRoute::Sm100Tcgen05Tf32TmaV1(tiling)
        | Tf32PhysicalRoute::Sm120TmaMmaTf32RnaV1(tiling)
        | Tf32PhysicalRoute::Sm120TmaMmaTf32RnaStreamKV1(tiling) => {
            append_tiling(text, tiling);
        },
    }
    text.append(")");
    assert(text@ =~= old(text)@ + route_text(route));
}

impl LaunchError {
    /// The refusal in words, with its figures.
    pub open spec fn spec_message(self) -> Seq<char> {
        match self {
            LaunchError::ExceedsU32(text)
            | LaunchError::ExceedsI32(text)
            | LaunchError::ProductOverflow(text)
            | LaunchError::OffsetOverflow(text)
            | LaunchError::InvalidDimensions(text)
            | LaunchError::Rejected(text) => text@,
            LaunchError::RequiresHalf(what) => "gemm_bi typed dispatch: "@ + what@
                + " is f32 — use the f32 entry points"@,
            LaunchError::Uncovered(product, dims) => product.texts().0@ + extents_text(dims)
                + product.texts().1@,
            LaunchError::Unavailable(what, symbol) => what@ + " "@ + symbol@ + " is unavailable"@,
            LaunchError::OperationMismatch(what, stated, requested) => what@ + " specification "@
                + op_text(stated)@ + " does not match "@ + op_text(requested)@,
            LaunchError::NegativeAnswer(what, value) => "negative "@ + what@ + " "@ + text::decimal(
                value as int,
            ),
            LaunchError::ForeignDomain(backend, stream, kernels) => backend@
                + " stream allocation domain "@ + domain_text(stream)
                + " does not match kernel module allocation domain "@ + domain_text(kernels),
            LaunchError::UnqualifiedRoute(route) => "TF32 route "@ + route_text(route)
                + " has no qualified module"@,
            LaunchError::ForcedRouteRejected(route, rejection) => "forced TF32 route "@
                + route_text(route) + " failed module qualification: "@ + rejection@,
            LaunchError::ZeroArgumentDigest(symbol) => "prepared scalar kernel "@ + symbol@
                + " has a zero argument digest"@,
            LaunchError::LaunchChanged(expected, symbol) => "prepared scalar kernel "@ + expected@
                + " physical launch changed before "@ + symbol@,
            LaunchError::UnexpectedKernel(symbol) => "unexpected scalar kernel "@ + symbol@
                + " after prepared route end"@,
            LaunchError::MissingKernels(expected, enqueued) => "prepared scalar route expected "@
                + text::decimal(expected as int) + " kernels but enqueued "@ + text::decimal(enqueued as int),
            LaunchError::ArgumentTooWide(bytes) => "physical scalar graph argument uses "@
                + text::decimal(bytes as int) + " bytes; maximum is "@ + text::decimal(
                PHYSICAL_SCALAR_MAX_ARGUMENT_BYTES as int,
            ),
            LaunchError::TransposeScratchExceeded(elements) =>
                "scalar transpose scratch requires "@ + text::decimal(elements as int)
                + " f32 elements, capacity is "@ + text::decimal(
                SCALAR_TRANSPOSE_SCRATCH_CAP_ELEMENTS as int,
            ),
            LaunchError::TransposeScratchCapacity(what, elements, required) => what@ + " has "@
                + text::decimal(elements as int) + " f32 elements, requires "@ + text::decimal(required as int)
                + " with exact capacity "@ + text::decimal(SCALAR_TRANSPOSE_SCRATCH_CAP_ELEMENTS as int),
            LaunchError::UnknownHalfKernel(base) => "unknown half kernel base "@ + base@,
            LaunchError::UnsupportedOwner(kind) =>
                "half physical GEMM has unsupported module owner "@ + module_text(kind)@,
            LaunchError::OutsideAllocations(pointer, bytes) =>
                "physical launch argument range is not covered by its prevalidated allocation: pointer=0x"@
                + text::digits(pointer as int, 16) + ", bytes="@ + text::decimal(bytes as int),
        }
    }

    /// The refusal in words, with its figures.
    #[verifier::spinoff_prover]
    #[verifier::rlimit(60)]
    pub fn message(self) -> (message: String)
        ensures
            message@ == self.spec_message(),
    {
        let mut text = String::from_str("");
        proof {
            reveal_strlit("");
        }
        match self {
            LaunchError::ExceedsU32(label)
            | LaunchError::ExceedsI32(label)
            | LaunchError::ProductOverflow(label)
            | LaunchError::OffsetOverflow(label)
            | LaunchError::InvalidDimensions(label)
            | LaunchError::Rejected(label) => {
                text.append(label);
            },
            LaunchError::RequiresHalf(what) => {
                text.append("gemm_bi typed dispatch: ");
                text.append(what);
                text.append(" is f32 — use the f32 entry points");
            },
            LaunchError::Uncovered(product, dims) => {
                text.append(product.texts().0);
                text.append(" M=");
                append_decimal(&mut text, dims.0);
                text.append(" K=");
                append_decimal(&mut text, dims.1);
                text.append(" N=");
                append_decimal(&mut text, dims.2);
                text.append(product.texts().1);
            },
            LaunchError::Unavailable(what, symbol) => {
                text.append(what);
                text.append(" ");
                text.append(symbol);
                text.append(" is unavailable");
            },
            LaunchError::OperationMismatch(what, stated, requested) => {
                text.append(what);
                text.append(" specification ");
                text.append(op_text(stated));
                text.append(" does not match ");
                text.append(op_text(requested));
            },
            LaunchError::NegativeAnswer(what, value) => {
                text.append("negative ");
                text.append(what);
                text.append(" ");
                append_signed(&mut text, value);
            },
            LaunchError::ForeignDomain(backend, stream, kernels) => {
                text.append(backend);
                text.append(" stream allocation domain ");
                append_domain(&mut text, stream);
                text.append(" does not match kernel module allocation domain ");
                append_domain(&mut text, kernels);
            },
            LaunchError::UnqualifiedRoute(route) => {
                text.append("TF32 route ");
                append_route(&mut text, route);
                text.append(" has no qualified module");
            },
            LaunchError::ForcedRouteRejected(route, rejection) => {
                text.append("forced TF32 route ");
                append_route(&mut text, route);
                text.append(" failed module qualification: ");
                text.append(rejection);
            },
            LaunchError::ZeroArgumentDigest(symbol) => {
                text.append("prepared scalar kernel ");
                text.append(symbol);
                text.append(" has a zero argument digest");
            },
            LaunchError::LaunchChanged(expected, symbol) => {
                text.append("prepared scalar kernel ");
                text.append(expected);
                text.append(" physical launch changed before ");
                text.append(symbol);
            },
            LaunchError::UnexpectedKernel(symbol) => {
                text.append("unexpected scalar kernel ");
                text.append(symbol);
                text.append(" after prepared route end");
            },
            LaunchError::MissingKernels(expected, enqueued) => {
                text.append("prepared scalar route expected ");
                append_decimal(&mut text, expected);
                text.append(" kernels but enqueued ");
                append_decimal(&mut text, enqueued);
            },
            LaunchError::ArgumentTooWide(bytes) => {
                text.append("physical scalar graph argument uses ");
                append_decimal(&mut text, bytes);
                text.append(" bytes; maximum is ");
                append_decimal(&mut text, PHYSICAL_SCALAR_MAX_ARGUMENT_BYTES);
            },
            LaunchError::TransposeScratchExceeded(elements) => {
                text.append("scalar transpose scratch requires ");
                append_decimal(&mut text, elements);
                text.append(" f32 elements, capacity is ");
                append_decimal(&mut text, SCALAR_TRANSPOSE_SCRATCH_CAP_ELEMENTS);
            },
            LaunchError::TransposeScratchCapacity(what, elements, required) => {
                text.append(what);
                text.append(" has ");
                append_decimal(&mut text, elements);
                text.append(" f32 elements, requires ");
                append_decimal(&mut text, required);
                text.append(" with exact capacity ");
                append_decimal(&mut text, SCALAR_TRANSPOSE_SCRATCH_CAP_ELEMENTS);
            },
            LaunchError::UnknownHalfKernel(base) => {
                text.append("unknown half kernel base ");
                text.append(base);
            },
            LaunchError::UnsupportedOwner(kind) => {
                text.append("half physical GEMM has unsupported module owner ");
                text.append(module_text(kind));
            },
            LaunchError::OutsideAllocations(pointer, bytes) => {
                text.append(
                    "physical launch argument range is not covered by its prevalidated allocation: pointer=0x",
                );
                append_digits(&mut text, pointer, 16);
                text.append(", bytes=");
                append_digits(&mut text, bytes, 10);
            },
        }
        assert(text@ =~= self.spec_message());
        text
    }
}

} // verus!
