//! Recorded identities of half-precision launches.

use crate::digest;
use crate::digest::{u32_le, u64_le, Field, FramedSha256, Sha256Digest};
use crate::error::LaunchError;
use crate::half_kernel::half_policy_dtype;
use crate::half_kernel::{HalfKernelIdentity, HalfSchedule};
use crate::half_launch::HalfGemmObservation;
use crate::identity::{
    BiGemmFamily, CompilerIdentity, GemmRouteIdentity, ModuleKind, PhysicalGemmBackend,
    PolicyDtype, ResolvedGemmRoute, ResolvedInstructionFamily, ResolvedInstructionShape,
    ResolvedNumericContract, ResolvedOperandConversion, ResolvedOutputOwnership, TableRevisions,
    WeightDtype,
};
use crate::kernel::{LaunchConfig, ResolvedKernelLaunch};
use crate::shape::{F32TriadShape, ResolvedGemmOp, F32_ONE_BITS, F32_ZERO_BITS};
use vstd::prelude::*;
use vstd::string::StringSliceAdditionalSpecFns;

verus! {

impl WeightDtype {
    /// The bytes of one element.
    #[verifier::allow_in_spec]
    pub fn size_bytes(self) -> u64
        returns
            (match self {
                WeightDtype::F32 | WeightDtype::Tf32 => 4u64,
                WeightDtype::Bf16 | WeightDtype::F16 => 2u64,
            }),
    {
        match self {
            WeightDtype::F32 | WeightDtype::Tf32 => 4,
            WeightDtype::Bf16 | WeightDtype::F16 => 2,
        }
    }
}

/// The byte spans that a product reads and writes, each where it can be
/// counted. The bias span is only there for a product with a bias.
#[derive(Clone, Copy, Debug, PartialEq, Eq)]
pub struct HalfSpans {
    pub output: Result<u64, LaunchError>,
    pub a: Result<u64, LaunchError>,
    pub b: Result<u64, LaunchError>,
    pub bias: Option<Result<u64, LaunchError>>,
}

/// The digests that identify the allocations behind a product's spans. The
/// bias digest is only read for a product with a bias.
#[derive(Clone, Copy, Debug, PartialEq, Eq)]
pub struct HalfAllocations {
    pub output: Sha256Digest,
    pub a: Sha256Digest,
    pub b: Sha256Digest,
    pub bias: Sha256Digest,
}

/// The extents of the A matrix.
#[verifier::allow_in_spec]
pub fn a_extents(op: ResolvedGemmOp, shape: F32TriadShape) -> (usize, usize)
    returns
        (match op {
            ResolvedGemmOp::Nn | ResolvedGemmOp::Tn => (shape.m, shape.k),
            ResolvedGemmOp::Nt => (shape.m, shape.n),
        }),
{
    match op {
        ResolvedGemmOp::Nn | ResolvedGemmOp::Tn => (shape.m, shape.k),
        ResolvedGemmOp::Nt => (shape.m, shape.n),
    }
}

/// The extents of the B matrix.
#[verifier::allow_in_spec]
pub fn b_extents(op: ResolvedGemmOp, shape: F32TriadShape) -> (usize, usize)
    returns
        (match op {
            ResolvedGemmOp::Nn | ResolvedGemmOp::Nt => (shape.k, shape.n),
            ResolvedGemmOp::Tn => (shape.m, shape.n),
        }),
{
    match op {
        ResolvedGemmOp::Nn | ResolvedGemmOp::Nt => (shape.k, shape.n),
        ResolvedGemmOp::Tn => (shape.m, shape.n),
    }
}

/// The bytes of a number of elements.
pub open spec fn bytes_of(elements: int, width: u64, fault: &'static str) -> Result<
    u64,
    LaunchError,
> {
    if elements * width > u64::MAX {
        Err(LaunchError::InvalidDimensions(fault))
    } else {
        Ok((elements * width) as u64)
    }
}

/// The output span of a product. The elements of every matrix are counted
/// ahead of it. Weight gradients are f32.
pub open spec fn output_span(observation: HalfGemmObservation) -> Result<u64, LaunchError> {
    let op = observation.op;
    let shape = observation.shape();
    let width = if op == ResolvedGemmOp::Tn {
        4u64
    } else {
        observation.dtype.size_bytes()
    };
    let output = shape.output_rows(op) * shape.output_columns(op);
    let bytes = bytes_of(output, width, "physical half output span overflows u64");
    if output > usize::MAX {
        Err(LaunchError::InvalidDimensions("physical half output span overflows usize"))
    } else if bytes is Err {
        bytes
    } else if a_extents(op, shape).0 * a_extents(op, shape).1 > usize::MAX {
        Err(LaunchError::InvalidDimensions("physical half A span overflows usize"))
    } else if b_extents(op, shape).0 * b_extents(op, shape).1 > usize::MAX {
        Err(LaunchError::InvalidDimensions("physical half B span overflows usize"))
    } else {
        bytes
    }
}

/// The A span of a product, in its element type.
pub open spec fn a_span(observation: HalfGemmObservation) -> Result<u64, LaunchError> {
    let extents = a_extents(observation.op, observation.shape());
    bytes_of(
        extents.0 * extents.1,
        observation.dtype.size_bytes(),
        "physical half A span overflows u64",
    )
}

/// The B span of a product, in its element type.
pub open spec fn b_span(observation: HalfGemmObservation) -> Result<u64, LaunchError> {
    let extents = b_extents(observation.op, observation.shape());
    bytes_of(
        extents.0 * extents.1,
        observation.dtype.size_bytes(),
        "physical half B span overflows u64",
    )
}

/// The bias span of a product. A bias is f32.
pub open spec fn bias_span(observation: HalfGemmObservation) -> Result<u64, LaunchError> {
    bytes_of(
        observation.shape().output_columns(observation.op) as int,
        4,
        "physical half bias span overflows u64",
    )
}

/// The byte spans of a product. Without an output span nothing is asked of
/// the others.
pub open spec fn argument_spans(observation: HalfGemmObservation) -> HalfSpans {
    match output_span(observation) {
        Err(error) => HalfSpans {
            output: Err(error),
            a: Err(error),
            b: Err(error),
            bias: if observation.arguments.bias != 0 {
                Some(Err(error))
            } else {
                None
            },
        },
        Ok(output) => HalfSpans {
            output: Ok(output),
            a: a_span(observation),
            b: b_span(observation),
            bias: if observation.arguments.bias != 0 {
                Some(bias_span(observation))
            } else {
                None
            },
        },
    }
}

fn matrix_elements(extents: (usize, usize), fault: &'static str) -> (result: Result<
    usize,
    LaunchError,
>)
    ensures
        result == (if extents.0 * extents.1 > usize::MAX {
            Err::<usize, LaunchError>(LaunchError::InvalidDimensions(fault))
        } else {
            Ok::<usize, LaunchError>((extents.0 * extents.1) as usize)
        }),
{
    match extents.0.checked_mul(extents.1) {
        Some(elements) => Ok(elements),
        None => Err(LaunchError::InvalidDimensions(fault)),
    }
}

fn span_bytes(elements: usize, width: u64, fault: &'static str) -> (result: Result<
    u64,
    LaunchError,
>)
    ensures
        result == bytes_of(elements as int, width, fault),
{
    match (elements as u64).checked_mul(width) {
        Some(bytes) => Ok(bytes),
        None => Err(LaunchError::InvalidDimensions(fault)),
    }
}

fn counted_elements(observation: HalfGemmObservation) -> (result: Result<
    (u64, usize, usize),
    LaunchError,
>)
    ensures
        match result {
            Err(error) => output_span(observation) == Err::<u64, LaunchError>(error),
            Ok((output, a, b)) => {
                let op = observation.op;
                let shape = observation.shape();
                &&& output_span(observation) == Ok::<u64, LaunchError>(output)
                &&& a == a_extents(op, shape).0 * a_extents(op, shape).1
                &&& b == b_extents(op, shape).0 * b_extents(op, shape).1
            },
        },
{
    let op = observation.op;
    let shape = observation.shape();
    let width: u64 = match op {
        ResolvedGemmOp::Tn => 4,
        _ => observation.dtype.size_bytes(),
    };
    let output: usize = matrix_elements(
        (shape.output_rows(op), shape.output_columns(op)),
        "physical half output span overflows usize",
    )?;
    let bytes: u64 = span_bytes(output, width, "physical half output span overflows u64")?;
    let a: usize = matrix_elements(a_extents(op, shape), "physical half A span overflows usize")?;
    let b: usize = matrix_elements(b_extents(op, shape), "physical half B span overflows usize")?;
    Ok((bytes, a, b))
}

/// Counts the byte spans of a product.
pub fn half_argument_spans(observation: HalfGemmObservation) -> (spans: HalfSpans)
    ensures
        spans == argument_spans(observation),
{
    let with_bias = observation.arguments.bias != 0;
    let width: u64 = observation.dtype.size_bytes();
    match counted_elements(observation) {
        Err(error) => HalfSpans {
            output: Err(error),
            a: Err(error),
            b: Err(error),
            bias: if with_bias {
                Some(Err(error))
            } else {
                None
            },
        },
        Ok((output, a, b)) => HalfSpans {
            output: Ok(output),
            a: span_bytes(a, width, "physical half A span overflows u64"),
            b: span_bytes(b, width, "physical half B span overflows u64"),
            bias: if with_bias {
                let columns: usize = observation.shape().output_columns(observation.op);
                Some(span_bytes(columns, 4, "physical half bias span overflows u64"))
            } else {
                None
            },
        },
    }
}

/// Every product with checked extents has spans.
pub proof fn checked_extents_have_spans(observation: HalfGemmObservation)
    requires
        observation.dims.0 <= i32::MAX,
        observation.dims.1 <= i32::MAX,
        observation.dims.2 <= i32::MAX,
        observation.dims.0 * observation.dims.1 <= u32::MAX,
        observation.dims.0 * observation.dims.2 <= u32::MAX,
        observation.dims.1 * observation.dims.2 <= u32::MAX,
    ensures
        argument_spans(observation).output is Ok,
        argument_spans(observation).a is Ok,
        argument_spans(observation).b is Ok,
        argument_spans(observation).bias matches Some(bias) ==> bias is Ok,
{
    let op = observation.op;
    let shape = observation.shape();
    let a = a_extents(op, shape).0 * a_extents(op, shape).1;
    let b = b_extents(op, shape).0 * b_extents(op, shape).1;
    let output = shape.output_rows(op) * shape.output_columns(op);
    let width = observation.dtype.size_bytes();
    assert(a * 2 <= a * width <= a * 4 && b * 2 <= b * width <= b * 4 && output * width <= output
        * 4) by (nonlinear_arith)
        requires
            2 <= width <= 4,
            a >= 0,
            b >= 0,
            output >= 0,
    ;
}

/// What is answered of the memory behind a span: nothing is asked where it
/// could not be counted.
pub open spec fn span_answered<Identify: Fn(u64, u64) -> Result<Sha256Digest, LaunchError>>(
    identify: Identify,
    pointer: u64,
    span: Result<u64, LaunchError>,
    answer: Result<Sha256Digest, LaunchError>,
) -> bool {
    match span {
        Err(error) => answer == Err::<Sha256Digest, LaunchError>(error),
        Ok(bytes) => call_ensures(identify, (pointer, bytes), answer),
    }
}

/// The answers of the allocations behind a product. They are asked for in
/// order: the output, A, B and the bias of a product that has one. The first
/// that is refused ends it.
pub open spec fn allocations_answered<
    Identify: Fn(u64, u64) -> Result<Sha256Digest, LaunchError>,
>(
    observation: HalfGemmObservation,
    identify: Identify,
    result: Result<HalfAllocations, LaunchError>,
) -> bool {
    let spans = argument_spans(observation);
    let pointers = observation.arguments;
    let refused = |error: LaunchError| result == Err::<HalfAllocations, LaunchError>(error);
    exists|first: Result<Sha256Digest, LaunchError>| #[trigger]
        span_answered(identify, pointers.output, spans.output, first) && match first {
            Err(error) => refused(error),
            Ok(output) => exists|second: Result<Sha256Digest, LaunchError>| #[trigger]
                span_answered(identify, pointers.a, spans.a, second) && match second {
                    Err(error) => refused(error),
                    Ok(a) => exists|third: Result<Sha256Digest, LaunchError>| #[trigger]
                        span_answered(identify, pointers.b, spans.b, third) && match third {
                            Err(error) => refused(error),
                            Ok(b) => match spans.bias {
                                None => result == Ok::<HalfAllocations, LaunchError>(
                                    HalfAllocations { output, a, b, bias: digest::zero_digest() },
                                ),
                                Some(span) => exists|
                                    fourth: Result<Sha256Digest, LaunchError>,
                                | #[trigger]
                                    span_answered(identify, pointers.bias, span, fourth)
                                        && match fourth {
                                        Err(error) => refused(error),
                                        Ok(bias) => result == Ok::<HalfAllocations, LaunchError>(
                                            HalfAllocations { output, a, b, bias },
                                        ),
                                    },
                            },
                        },
                },
        }
}

/// The memory behind a span may be asked for, where it could be counted.
pub open spec fn asks_of_span<Identify: Fn(u64, u64) -> Result<Sha256Digest, LaunchError>>(
    identify: Identify,
    pointer: u64,
    span: Result<u64, LaunchError>,
) -> bool {
    span matches Ok(bytes) ==> call_requires(identify, (pointer, bytes))
}

/// The memory behind a span may be answered.
pub open spec fn may_be_answered<Identify: Fn(u64, u64) -> Result<Sha256Digest, LaunchError>>(
    identify: Identify,
    pointer: u64,
    span: Result<u64, LaunchError>,
) -> bool {
    exists|digest: Sha256Digest| #[trigger]
        span_answered(identify, pointer, span, Ok::<Sha256Digest, LaunchError>(digest))
}

/// The allocations behind a product may be asked for, each one where those
/// ahead of it may be answered, and the bias where there is one.
pub open spec fn asks_of_arguments<Identify: Fn(u64, u64) -> Result<Sha256Digest, LaunchError>>(
    observation: HalfGemmObservation,
    identify: Identify,
) -> bool {
    let spans = argument_spans(observation);
    let pointers = observation.arguments;
    let output = may_be_answered(identify, pointers.output, spans.output);
    let a = may_be_answered(identify, pointers.a, spans.a);
    let b = may_be_answered(identify, pointers.b, spans.b);
    &&& asks_of_span(identify, pointers.output, spans.output)
    &&& output ==> asks_of_span(identify, pointers.a, spans.a)
    &&& output && a ==> asks_of_span(identify, pointers.b, spans.b)
    &&& output && a && b ==> (spans.bias matches Some(span) ==> asks_of_span(
        identify,
        pointers.bias,
        span,
    ))
}

fn answer_span<Identify: Fn(u64, u64) -> Result<Sha256Digest, LaunchError>>(
    identify: &Identify,
    pointer: u64,
    span: Result<u64, LaunchError>,
) -> (answer: Result<Sha256Digest, LaunchError>)
    requires
        asks_of_span(*identify, pointer, span),
    ensures
        span_answered(*identify, pointer, span, answer),
{
    match span {
        Err(error) => Err(error),
        Ok(bytes) => identify(pointer, bytes),
    }
}

/// Asks for the allocations behind a product. Nothing is asked for behind
/// one that is refused.
pub fn half_argument_allocations<Identify: Fn(u64, u64) -> Result<Sha256Digest, LaunchError>>(
    observation: HalfGemmObservation,
    identify: &Identify,
) -> (result: Result<HalfAllocations, LaunchError>)
    requires
        asks_of_arguments(observation, *identify),
    ensures
        allocations_answered(observation, *identify, result),
{
    let spans = half_argument_spans(observation);
    let pointers = observation.arguments;
    let first = answer_span(identify, pointers.output, spans.output);
    assert(span_answered(*identify, pointers.output, spans.output, first));
    let output = first?;
    let second = answer_span(identify, pointers.a, spans.a);
    assert(span_answered(*identify, pointers.a, spans.a, second));
    let a = second?;
    let third = answer_span(identify, pointers.b, spans.b);
    assert(span_answered(*identify, pointers.b, spans.b, third));
    let b = third?;
    match spans.bias {
        None => Ok(HalfAllocations { output, a, b, bias: digest::no_digest() }),
        Some(span) => {
            let fourth = answer_span(identify, pointers.bias, span);
            assert(span_answered(*identify, pointers.bias, span, fourth));
            let bias = fourth?;
            Ok(HalfAllocations { output, a, b, bias })
        },
    }
}

/// Everything that the argument digest of a half-precision launch binds.
pub struct HalfArgumentRecord {
    pub symbol: Seq<u8>,
    pub op: ResolvedGemmOp,
    pub dtype: PolicyDtype,
    pub shape: F32TriadShape,
    pub output: Sha256Digest,
    pub a: Sha256Digest,
    pub b: Sha256Digest,
    pub bias: Option<Sha256Digest>,
    pub tile: (u32, u32),
    pub bk_stages: (u32, u8),
}

/// The transcript fields of a half-precision launch. Weight gradients
/// accumulate; every other product overwrites.
pub open spec fn half_argument_fields(record: HalfArgumentRecord) -> Seq<Field> {
    seq![
        digest::field("symbol", record.symbol),
        digest::field("op", seq![record.op.code()]),
        digest::field("dtype", seq![record.dtype.code()]),
        digest::field("m", digest::le_bytes(record.shape.m as int, 8)),
        digest::field("k", digest::le_bytes(record.shape.k as int, 8)),
        digest::field("n", digest::le_bytes(record.shape.n as int, 8)),
        digest::field("lda", digest::le_bytes(record.shape.lda as int, 8)),
        digest::field("ldb", digest::le_bytes(record.shape.ldb as int, 8)),
        digest::field("ldc", digest::le_bytes(record.shape.ldc as int, 8)),
        digest::field("alpha", digest::le_bytes(F32_ONE_BITS as int, 4)),
        digest::field(
            "beta",
            digest::le_bytes(
                if record.op == ResolvedGemmOp::Tn {
                    F32_ONE_BITS as int
                } else {
                    F32_ZERO_BITS as int
                },
                4,
            ),
        ),
        digest::field(
            "null-pointer-mask",
            digest::le_bytes(
                if record.bias is None {
                    8
                } else {
                    0
                },
                8,
            ),
        ),
        digest::field("output-allocation", record.output@),
        digest::field("a-allocation", record.a@),
        digest::field("b-allocation", record.b@),
        digest::optional_field(
            "bias-allocation",
            match record.bias {
                Some(identity) => Some(identity@),
                None => None,
            },
        ),
        digest::field("tile-m", digest::le_bytes(record.tile.0 as int, 4)),
        digest::field("tile-n", digest::le_bytes(record.tile.1 as int, 4)),
        digest::field("bk", digest::le_bytes(record.bk_stages.0 as int, 4)),
        digest::field("stages", seq![record.bk_stages.1]),
    ]
}

/// The bytes under the argument digest of a half-precision launch.
pub open spec fn half_argument_transcript(record: HalfArgumentRecord) -> Seq<u8> {
    digest::transcript(
        "triad-half-kernel-arguments.v2".spec_bytes(),
        half_argument_fields(record),
    )
}

/// What the argument digest of an observed launch binds.
pub open spec fn half_argument_record(
    observation: HalfGemmObservation,
    symbol: &str,
    dtype: PolicyDtype,
    allocations: HalfAllocations,
) -> HalfArgumentRecord {
    HalfArgumentRecord {
        symbol: symbol.spec_bytes(),
        op: observation.op,
        dtype,
        shape: observation.shape(),
        output: allocations.output,
        a: allocations.a,
        b: allocations.b,
        bias: if observation.arguments.bias == 0 {
            None
        } else {
            Some(allocations.bias)
        },
        tile: observation.tile,
        bk_stages: observation.bk_stages,
    }
}

/// The digest of the arguments of a half-precision launch.
pub fn half_gemm_arguments_digest(
    observation: HalfGemmObservation,
    identity: HalfKernelIdentity,
    dtype: PolicyDtype,
    allocations: &HalfAllocations,
) -> (digest: Sha256Digest)
    ensures
        digest == digest::sha256(
            half_argument_transcript(
                half_argument_record(observation, identity.symbol, dtype, *allocations),
            ),
        ),
{
    let shape = observation.shape();
    let without_bias = observation.arguments.bias == 0;
    let beta: u32 = match observation.op {
        ResolvedGemmOp::Tn => F32_ONE_BITS,
        _ => F32_ZERO_BITS,
    };
    let mask: u64 = if without_bias {
        8
    } else {
        0
    };
    let op = vec![observation.op.code()];
    let dtype_code = vec![dtype.code()];
    let stages = vec![observation.bk_stages.1];
    let b = FramedSha256::new("triad-half-kernel-arguments.v2");
    let b = b.required("symbol", identity.symbol.as_bytes());
    let b = b.required("op", op.as_slice());
    let b = b.required("dtype", dtype_code.as_slice());
    let b = b.required("m", u64_le(shape.m as u64).as_slice());
    let b = b.required("k", u64_le(shape.k as u64).as_slice());
    let b = b.required("n", u64_le(shape.n as u64).as_slice());
    let b = b.required("lda", u64_le(shape.lda as u64).as_slice());
    let b = b.required("ldb", u64_le(shape.ldb as u64).as_slice());
    let b = b.required("ldc", u64_le(shape.ldc as u64).as_slice());
    let b = b.required("alpha", u32_le(F32_ONE_BITS).as_slice());
    let b = b.required("beta", u32_le(beta).as_slice());
    let b = b.required("null-pointer-mask", u64_le(mask).as_slice());
    let b = b.required("output-allocation", allocations.output.as_slice());
    let b = b.required("a-allocation", allocations.a.as_slice());
    let b = b.required("b-allocation", allocations.b.as_slice());
    let b = b.optional(
        "bias-allocation",
        if without_bias {
            None
        } else {
            Some(allocations.bias.as_slice())
        },
    );
    let b = b.required("tile-m", u32_le(observation.tile.0).as_slice());
    let b = b.required("tile-n", u32_le(observation.tile.1).as_slice());
    let b = b.required("bk", u32_le(observation.bk_stages.0).as_slice());
    let b = b.required("stages", stages.as_slice());
    proof {
        assert(op@ =~= seq![observation.op.code()]);
        assert(dtype_code@ =~= seq![dtype.code()]);
        assert(stages@ =~= seq![observation.bk_stages.1]);
        assert(b.fields() =~= half_argument_fields(
            half_argument_record(observation, identity.symbol, dtype, *allocations),
        ));
    }
    b.finish()
}

#[verifier::spinoff_prover]
#[verifier::rlimit(60)]
proof fn half_fields_agree(left: HalfArgumentRecord, right: HalfArgumentRecord)
    requires
        left.symbol.len() <= u64::MAX,
        right.symbol.len() <= u64::MAX,
        half_argument_transcript(left) == half_argument_transcript(right),
    ensures
        half_argument_fields(left) == half_argument_fields(right),
{
    let l = half_argument_fields(left);
    let r = half_argument_fields(right);
    digest::le_bytes_len_all();
    assert(digest::same_labels(l, r));
    assert(digest::values_framable(l));
    assert(digest::values_framable(r));
    digest::transcript_values_injective("triad-half-kernel-arguments.v2".spec_bytes(), l, r);
}

#[verifier::spinoff_prover]
#[verifier::rlimit(60)]
proof fn half_fields_fix_product(left: HalfArgumentRecord, right: HalfArgumentRecord)
    requires
        half_argument_fields(left) == half_argument_fields(right),
    ensures
        left.symbol == right.symbol,
        left.op == right.op,
        left.dtype == right.dtype,
        left.shape == right.shape,
{
    let l = half_argument_fields(left);
    let r = half_argument_fields(right);
    assert(l[0].value == r[0].value);
    assert(l[1].value == r[1].value);
    assert(seq![left.op.code()][0] == seq![right.op.code()][0]);
    assert(l[2].value == r[2].value);
    assert(seq![left.dtype.code()][0] == seq![right.dtype.code()][0]);
    assert(l[3].value == r[3].value);
    digest::le_bytes_u64_injective(left.shape.m as u64, right.shape.m as u64);
    assert(l[4].value == r[4].value);
    digest::le_bytes_u64_injective(left.shape.k as u64, right.shape.k as u64);
    assert(l[5].value == r[5].value);
    digest::le_bytes_u64_injective(left.shape.n as u64, right.shape.n as u64);
    assert(l[6].value == r[6].value);
    digest::le_bytes_u64_injective(left.shape.lda as u64, right.shape.lda as u64);
    assert(l[7].value == r[7].value);
    digest::le_bytes_u64_injective(left.shape.ldb as u64, right.shape.ldb as u64);
    assert(l[8].value == r[8].value);
    digest::le_bytes_u64_injective(left.shape.ldc as u64, right.shape.ldc as u64);
}

#[verifier::spinoff_prover]
#[verifier::rlimit(60)]
proof fn half_fields_fix_launch(left: HalfArgumentRecord, right: HalfArgumentRecord)
    requires
        half_argument_fields(left) == half_argument_fields(right),
    ensures
        left.output == right.output,
        left.a == right.a,
        left.b == right.b,
        left.bias == right.bias,
        left.tile == right.tile,
        left.bk_stages == right.bk_stages,
{
    let l = half_argument_fields(left);
    let r = half_argument_fields(right);
    assert(l[12].value == r[12].value);
    assert(left.output =~= right.output);
    assert(l[13].value == r[13].value);
    assert(left.a =~= right.a);
    assert(l[14].value == r[14].value);
    assert(left.b =~= right.b);
    assert(l[15].value == r[15].value);
    match (left.bias, right.bias) {
        (Some(left_bias), Some(right_bias)) => {
            assert(left_bias =~= right_bias);
        },
        _ => {},
    }
    assert(l[16].value == r[16].value);
    digest::le_bytes_u32_injective(left.tile.0, right.tile.0);
    assert(l[17].value == r[17].value);
    digest::le_bytes_u32_injective(left.tile.1, right.tile.1);
    assert(l[18].value == r[18].value);
    digest::le_bytes_u32_injective(left.bk_stages.0, right.bk_stages.0);
    assert(l[19].value == r[19].value);
    assert(seq![left.bk_stages.1][0] == seq![right.bk_stages.1][0]);
}

/// The bytes under the argument digest of a half-precision launch identify
/// the kernel, the product, its shape, its allocations, whether there is a
/// bias, and the tile geometry.
pub proof fn half_arguments_identify(left: HalfArgumentRecord, right: HalfArgumentRecord)
    requires
        left.symbol.len() <= u64::MAX,
        right.symbol.len() <= u64::MAX,
        half_argument_transcript(left) == half_argument_transcript(right),
    ensures
        left == right,
{
    half_fields_agree(left, right);
    half_fields_fix_product(left, right);
    half_fields_fix_launch(left, right);
}

/// The threads of one block.
pub open spec fn block_threads(config: LaunchConfig) -> int {
    config.block_dim.0 * config.block_dim.1 * config.block_dim.2
}

/// The block's thread count is a launch dimension.
pub open spec fn block_countable(config: LaunchConfig) -> bool {
    config.block_dim.0 * config.block_dim.1 <= u32::MAX && block_threads(config) <= u32::MAX
}

/// The transcript fields of a kernel's resources.
pub open spec fn half_resource_fields(identity: HalfKernelIdentity, config: LaunchConfig) -> Seq<
    Field,
> {
    seq![
        digest::field("symbol", identity.symbol.spec_bytes()),
        digest::field("module-kind", seq![identity.module_kind.code()]),
        digest::field("threads", digest::le_bytes(block_threads(config), 4)),
        digest::field(
            "dynamic-shared-memory-bytes",
            digest::le_bytes(config.shared_mem_bytes as int, 4),
        ),
    ]
}

/// The resources digest of a half-precision launch.
pub open spec fn half_resources_digest(
    identity: HalfKernelIdentity,
    config: LaunchConfig,
) -> Sha256Digest {
    digest::sha256(
        digest::transcript(
            "triad-half-kernel-resources.v1".spec_bytes(),
            half_resource_fields(identity, config),
        ),
    )
}

/// The resources digest of a half-precision launch.
pub fn half_gemm_resources_digest(identity: HalfKernelIdentity, config: LaunchConfig) -> (digest:
    Sha256Digest)
    requires
        block_countable(config),
    ensures
        digest == half_resources_digest(identity, config),
{
    let threads: u32 = config.block_dim.0 * config.block_dim.1 * config.block_dim.2;
    let module = vec![identity.module_kind.code()];
    let b = FramedSha256::new("triad-half-kernel-resources.v1");
    let b = b.required("symbol", identity.symbol.as_bytes());
    let b = b.required("module-kind", module.as_slice());
    let b = b.required("threads", u32_le(threads).as_slice());
    let b = b.required("dynamic-shared-memory-bytes", u32_le(config.shared_mem_bytes).as_slice());
    proof {
        assert(module@ =~= seq![identity.module_kind.code()]);
        assert(b.fields() =~= half_resource_fields(identity, config));
    }
    b.finish()
}

/// How the modules with half-precision kernels were compiled.
#[derive(Clone, Copy, Debug, PartialEq, Eq)]
pub struct HalfCompilers {
    pub triad_scalar: CompilerIdentity,
    pub triad_sm80: CompilerIdentity,
}

/// The recorded route of a half-precision launch, behind its digests.
pub open spec fn half_route(
    context: GemmRouteIdentity,
    compilers: HalfCompilers,
    revisions: TableRevisions,
    observation: HalfGemmObservation,
    identity: HalfKernelIdentity,
    dtype: PolicyDtype,
    config: LaunchConfig,
    arguments_digest: Sha256Digest,
) -> ResolvedGemmRoute {
    let shape = observation.shape();
    let tensor_cores = identity.module_kind == ModuleKind::TriadSm80;
    let tiled = identity.schedule == HalfSchedule::Tiled;
    let compiler = if tensor_cores {
        compilers.triad_sm80
    } else {
        compilers.triad_scalar
    };
    ResolvedGemmRoute {
        op: observation.op,
        dtype,
        backend: if tensor_cores {
            PhysicalGemmBackend::Sm80Mma16V1
        } else {
            PhysicalGemmBackend::ScalarFmaV1
        },
        numeric_contract: if !tensor_cores {
            ResolvedNumericContract::ScalarFmaV1
        } else if tiled {
            ResolvedNumericContract::MmaSyncF32V1
        } else {
            ResolvedNumericContract::MmaSyncF32StreamKFixedOrderV1
        },
        instruction_family: if tensor_cores {
            ResolvedInstructionFamily::MmaSync
        } else {
            ResolvedInstructionFamily::ScalarFma
        },
        instruction_shape: if tensor_cores {
            ResolvedInstructionShape { m: 16, n: 8, k: 16 }
        } else {
            ResolvedInstructionShape { m: 1, n: 1, k: 1 }
        },
        operand_conversion: ResolvedOperandConversion::Unconverted,
        ownership: if tiled {
            ResolvedOutputOwnership::OneCtaPerOutputTileV1
        } else {
            ResolvedOutputOwnership::OwnerCtaPerOutputTileStreamKFixedOrderV1
        },
        symbol: identity.symbol,
        module_kind: identity.module_kind,
        target: compiler.target,
        artifact: if tensor_cores {
            context.artifacts.triad_sm80
        } else {
            context.artifacts.triad_scalar
        },
        compiler,
        device: context.device,
        device_caps: context.device_caps,
        shape: (shape.m, shape.k, shape.n),
        strides: (shape.lda, shape.ldb, shape.ldc),
        tile: observation.tile,
        bk: observation.bk_stages.0,
        stages: observation.bk_stages.1,
        threads: block_threads(config) as u32,
        launch: ResolvedKernelLaunch {
            grid_dim: config.grid_dim,
            block_dim: config.block_dim,
            shared_mem_bytes: config.shared_mem_bytes,
            arguments_digest,
        },
        tensor_map_revision: 0,
        tensor_maps_digest: digest::zero_digest(),
        resources_digest: half_resources_digest(identity, config),
        tuning_table_revision: revisions.tuning_table,
        schedule_revision: revisions.schedule,
    }
}

/// What a half-precision launch with a known kernel is recorded as.
pub open spec fn resolved_half_route(
    context: GemmRouteIdentity,
    compilers: HalfCompilers,
    revisions: TableRevisions,
    observation: HalfGemmObservation,
    identity: HalfKernelIdentity,
    config: LaunchConfig,
    allocations: Result<HalfAllocations, LaunchError>,
) -> Result<ResolvedGemmRoute, LaunchError> {
    match half_policy_dtype(observation.dtype) {
        Err(error) => Err(error),
        Ok(dtype) => if identity.module_kind != ModuleKind::TriadScalar && identity.module_kind
            != ModuleKind::TriadSm80 {
            Err(LaunchError::UnsupportedOwner(identity.module_kind))
        } else {
            match allocations {
                Err(error) => Err(error),
                Ok(allocations) => Ok(
                    half_route(
                        context,
                        compilers,
                        revisions,
                        observation,
                        identity,
                        dtype,
                        config,
                        digest::sha256(
                            half_argument_transcript(
                                half_argument_record(
                                    observation,
                                    identity.symbol,
                                    dtype,
                                    allocations,
                                ),
                            ),
                        ),
                    ),
                ),
            }
        },
    }
}

/// Records a half-precision launch with a known kernel.
pub fn resolved_half_gemm_route(
    context: &GemmRouteIdentity,
    compilers: &HalfCompilers,
    revisions: TableRevisions,
    observation: HalfGemmObservation,
    identity: HalfKernelIdentity,
    config: LaunchConfig,
    allocations: Result<HalfAllocations, LaunchError>,
) -> (result: Result<ResolvedGemmRoute, LaunchError>)
    requires
        block_countable(config),
    ensures
        result == resolved_half_route(
            *context,
            *compilers,
            revisions,
            observation,
            identity,
            config,
            allocations,
        ),
{
    let dtype = half_policy_dtype(observation.dtype)?;
    let tiled = identity.schedule == HalfSchedule::Tiled;
    let (compiler, artifact, backend, numeric_contract, instruction_family, instruction_shape) =
        match identity.module_kind {
        ModuleKind::TriadScalar => (
            compilers.triad_scalar,
            context.artifacts.triad_scalar,
            PhysicalGemmBackend::ScalarFmaV1,
            ResolvedNumericContract::ScalarFmaV1,
            ResolvedInstructionFamily::ScalarFma,
            ResolvedInstructionShape { m: 1, n: 1, k: 1 },
        ),
        ModuleKind::TriadSm80 => (
            compilers.triad_sm80,
            context.artifacts.triad_sm80,
            PhysicalGemmBackend::Sm80Mma16V1,
            if tiled {
                ResolvedNumericContract::MmaSyncF32V1
            } else {
                ResolvedNumericContract::MmaSyncF32StreamKFixedOrderV1
            },
            ResolvedInstructionFamily::MmaSync,
            ResolvedInstructionShape { m: 16, n: 8, k: 16 },
        ),
        _ => {
            return Err(LaunchError::UnsupportedOwner(identity.module_kind));
        },
    };
    let allocations = allocations?;
    let shape = observation.shape();
    let arguments_digest = half_gemm_arguments_digest(observation, identity, dtype, &allocations);
    Ok(
        ResolvedGemmRoute {
            op: observation.op,
            dtype,
            backend,
            numeric_contract,
            instruction_family,
            instruction_shape,
            operand_conversion: ResolvedOperandConversion::Unconverted,
            ownership: if tiled {
                ResolvedOutputOwnership::OneCtaPerOutputTileV1
            } else {
                ResolvedOutputOwnership::OwnerCtaPerOutputTileStreamKFixedOrderV1
            },
            symbol: identity.symbol,
            module_kind: identity.module_kind,
            target: compiler.target,
            artifact,
            compiler,
            device: context.device,
            device_caps: context.device_caps,
            shape: (shape.m, shape.k, shape.n),
            strides: (shape.lda, shape.ldb, shape.ldc),
            tile: observation.tile,
            bk: observation.bk_stages.0,
            stages: observation.bk_stages.1,
            threads: config.block_dim.0 * config.block_dim.1 * config.block_dim.2,
            launch: ResolvedKernelLaunch {
                grid_dim: config.grid_dim,
                block_dim: config.block_dim,
                shared_mem_bytes: config.shared_mem_bytes,
                arguments_digest,
            },
            tensor_map_revision: 0,
            tensor_maps_digest: digest::no_digest(),
            resources_digest: half_gemm_resources_digest(identity, config),
            tuning_table_revision: revisions.tuning_table,
            schedule_revision: revisions.schedule,
        },
    )
}

/// What a half-precision launch is recorded as: the live policy must be the
/// one that such a launch runs under.
pub open spec fn observed_half_route(
    context: Option<GemmRouteIdentity>,
    compilers: HalfCompilers,
    revisions: TableRevisions,
    observation: HalfGemmObservation,
    config: LaunchConfig,
    allocations: Result<HalfAllocations, LaunchError>,
) -> Result<ResolvedGemmRoute, LaunchError> {
    match context {
        None => Err(
            LaunchError::Rejected("recording half launch requires a GEMM route context"),
        ),
        Some(context) => match HalfKernelIdentity::resolved(
            observation.base,
            observation.dtype,
        ) {
            Err(error) => Err(error),
            Ok(identity) => if !context.policy.batch_invariant || context.policy.bi_gemm_family
                != BiGemmFamily::Triad {
                Err(
                    LaunchError::Rejected(
                        "recording a half launch requires the live batch-invariant Triad policy",
                    ),
                )
            } else if identity.module_kind == ModuleKind::TriadSm80
                && !context.policy.bi_tensor_cores {
                Err(
                    LaunchError::Rejected(
                        "recording a forced half Tensor Core launch requires the live Triad Tensor Core policy",
                    ),
                )
            } else {
                resolved_half_route(
                    context,
                    compilers,
                    revisions,
                    observation,
                    identity,
                    config,
                    allocations,
                )
            },
        },
    }
}

/// Records a half-precision launch. `allocations` is what was answered of
/// the memory behind its arguments.
pub fn resolve_half_gemm_observation(
    context: Option<GemmRouteIdentity>,
    compilers: &HalfCompilers,
    revisions: TableRevisions,
    observation: HalfGemmObservation,
    config: LaunchConfig,
    allocations: Result<HalfAllocations, LaunchError>,
) -> (result: Result<ResolvedGemmRoute, LaunchError>)
    requires
        block_countable(config),
    ensures
        result == observed_half_route(
            context,
            *compilers,
            revisions,
            observation,
            config,
            allocations,
        ),
{
    let context = match context {
        Some(context) => context,
        None => {
            return Err(
                LaunchError::Rejected("recording half launch requires a GEMM route context"),
            );
        },
    };
    let identity = HalfKernelIdentity::resolve(observation.base, observation.dtype)?;
    if !context.policy.batch_invariant || context.policy.bi_gemm_family != BiGemmFamily::Triad {
        return Err(
            LaunchError::Rejected(
                "recording a half launch requires the live batch-invariant Triad policy",
            ),
        );
    }
    if identity.module_kind == ModuleKind::TriadSm80 && !context.policy.bi_tensor_cores {
        return Err(
            LaunchError::Rejected(
                "recording a forced half Tensor Core launch requires the live Triad Tensor Core policy",
            ),
        );
    }
    resolved_half_gemm_route(
        &context,
        compilers,
        revisions,
        observation,
        identity,
        config,
        allocations,
    )
}

/// Why a half-precision launch is not recorded, whatever memory its
/// arguments lie in.
pub open spec fn half_recording_fault(
    context: Option<GemmRouteIdentity>,
    observation: HalfGemmObservation,
) -> Option<LaunchError> {
    match context {
        None => Some(
            LaunchError::Rejected("recording half launch requires a GEMM route context"),
        ),
        Some(context) => match HalfKernelIdentity::resolved(
            observation.base,
            observation.dtype,
        ) {
            Err(error) => Some(error),
            Ok(identity) => if !context.policy.batch_invariant || context.policy.bi_gemm_family
                != BiGemmFamily::Triad {
                Some(
                    LaunchError::Rejected(
                        "recording a half launch requires the live batch-invariant Triad policy",
                    ),
                )
            } else if identity.module_kind == ModuleKind::TriadSm80
                && !context.policy.bi_tensor_cores {
                Some(
                    LaunchError::Rejected(
                        "recording a forced half Tensor Core launch requires the live Triad Tensor Core policy",
                    ),
                )
            } else {
                match half_policy_dtype(observation.dtype) {
                    Err(error) => Some(error),
                    Ok(_) => if identity.module_kind != ModuleKind::TriadScalar
                        && identity.module_kind != ModuleKind::TriadSm80 {
                        Some(LaunchError::UnsupportedOwner(identity.module_kind))
                    } else {
                        None
                    },
                }
            },
        },
    }
}

/// Accepts a half-precision launch for recording, before the memory behind
/// its arguments is asked for.
pub fn admit_half_recording(
    context: Option<GemmRouteIdentity>,
    observation: HalfGemmObservation,
) -> (result: Result<(), LaunchError>)
    ensures
        result == (match half_recording_fault(context, observation) {
            Some(error) => Err::<(), LaunchError>(error),
            None => Ok::<(), LaunchError>(()),
        }),
{
    let context = match context {
        Some(context) => context,
        None => {
            return Err(
                LaunchError::Rejected("recording half launch requires a GEMM route context"),
            );
        },
    };
    let identity = HalfKernelIdentity::resolve(observation.base, observation.dtype)?;
    if !context.policy.batch_invariant || context.policy.bi_gemm_family != BiGemmFamily::Triad {
        return Err(
            LaunchError::Rejected(
                "recording a half launch requires the live batch-invariant Triad policy",
            ),
        );
    }
    if identity.module_kind == ModuleKind::TriadSm80 && !context.policy.bi_tensor_cores {
        return Err(
            LaunchError::Rejected(
                "recording a forced half Tensor Core launch requires the live Triad Tensor Core policy",
            ),
        );
    }
    let _ = half_policy_dtype(observation.dtype)?;
    if identity.module_kind != ModuleKind::TriadScalar && identity.module_kind
        != ModuleKind::TriadSm80 {
        return Err(LaunchError::UnsupportedOwner(identity.module_kind));
    }
    Ok(())
}

/// How an observed half-precision launch is recorded: only a launch that may
/// be recorded asks for the memory behind its arguments.
pub open spec fn half_observed<Identify: Fn(u64, u64) -> Result<Sha256Digest, LaunchError>>(
    context: Option<GemmRouteIdentity>,
    compilers: HalfCompilers,
    revisions: TableRevisions,
    observation: HalfGemmObservation,
    config: LaunchConfig,
    identify: Identify,
    result: Result<ResolvedGemmRoute, LaunchError>,
) -> bool {
    match half_recording_fault(context, observation) {
        Some(error) => result == Err::<ResolvedGemmRoute, LaunchError>(error),
        None => exists|allocations: Result<HalfAllocations, LaunchError>| #[trigger]
            allocations_answered(observation, identify, allocations) && result
                == observed_half_route(
                context,
                compilers,
                revisions,
                observation,
                config,
                allocations,
            ),
    }
}

/// Records an observed half-precision launch.
pub fn observe_half_gemm<Identify: Fn(u64, u64) -> Result<Sha256Digest, LaunchError>>(
    context: Option<GemmRouteIdentity>,
    compilers: &HalfCompilers,
    revisions: TableRevisions,
    observation: HalfGemmObservation,
    config: LaunchConfig,
    identify: &Identify,
) -> (result: Result<ResolvedGemmRoute, LaunchError>)
    requires
        block_countable(config),
        half_recording_fault(context, observation) is None ==> asks_of_arguments(
            observation,
            *identify,
        ),
    ensures
        half_observed(
            context,
            *compilers,
            revisions,
            observation,
            config,
            *identify,
            result,
        ),
{
    admit_half_recording(context, observation)?;
    let allocations = half_argument_allocations(observation, identify);
    assert(allocations_answered(observation, *identify, allocations));
    resolve_half_gemm_observation(
        context,
        compilers,
        revisions,
        observation,
        config,
        allocations,
    )
}

/// A launch that may not be recorded is refused for the same reason whatever
/// its memory answers, so not to ask loses nothing.
pub proof fn unrecordable_launches_need_no_answer(
    context: Option<GemmRouteIdentity>,
    compilers: HalfCompilers,
    revisions: TableRevisions,
    observation: HalfGemmObservation,
    config: LaunchConfig,
    allocations: Result<HalfAllocations, LaunchError>,
    error: LaunchError,
)
    requires
        half_recording_fault(context, observation) == Some(error),
    ensures
        observed_half_route(context, compilers, revisions, observation, config, allocations)
            == Err::<ResolvedGemmRoute, LaunchError>(error),
{
}

} // verus!
