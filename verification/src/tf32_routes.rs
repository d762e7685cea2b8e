//! Parameters, argument digests and recorded routes of the TF32 kernels.

use crate::arith::checked_i32;
use crate::digest;
use crate::digest::{u32_le, u64_le, Field, FramedSha256, Sha256Digest};
use crate::error::LaunchError;
use crate::identity::{
    ArtifactIdentity, CompilerIdentity, CudaTarget, DeviceCaps, DeviceIdentity, ModuleKind,
    PhysicalGemmBackend, PolicyDtype, ResolvedGemmRoute, ResolvedInstructionFamily,
    ResolvedInstructionShape, ResolvedNumericContract, ResolvedOperandConversion,
    ResolvedOutputOwnership,
};
use crate::kernel::{LaunchConfig, ResolvedKernelLaunch};
use crate::params::{
    Sm100KernelParams, Sm120FmaKernelParams, Sm120KernelParams, Sm80Tf32KernelParams,
    Sm90aTf32KernelParams,
};
use crate::shape::{F32TriadOperands, F32TriadRequest, F32TriadShape, ResolvedGemmOp};
use crate::tf32_plan;
use crate::tf32_plan::{
    sm120_fma_launch_plan, Sm120FmaFacts, Sm120FmaRoute, Tf32KernelSpec, Tf32PhysicalRoute,
    Tf32SplitKLaunchPlan, Tf32SplitKSpec,
};
use vstd::prelude::*;
use vstd::string::StringSliceAdditionalSpecFns;

verus! {

/// Where the tensor maps of a product begin.
#[derive(Clone, Copy, Debug, PartialEq, Eq, Structural)]
pub struct Tf32TensorOrigins {
    pub a_x: i32,
    pub a_y: i32,
    pub b_x: i32,
    pub b_y: i32,
}

/// The parameter block of a route.
#[allow(inconsistent_fields)]
#[derive(Clone, Copy, Debug, PartialEq, Eq, Structural)]
pub enum PreparedTf32Params {
    Sm80(Sm80Tf32KernelParams),
    Sm90a(Sm90aTf32KernelParams),
    Sm100(Sm100KernelParams),
    Sm120(Sm120KernelParams),
    Sm120Fma(Sm120FmaKernelParams),
}

/// The checked extents of a product: `m`, `k`, `n` and the output stride.
pub open spec fn checked_extents(shape: F32TriadShape) -> Result<(i32, i32, i32, i32), LaunchError> {
    match (
        checked_i32(shape.m, "M"),
        checked_i32(shape.k, "K"),
        checked_i32(shape.n, "N"),
        checked_i32(shape.ldc, "ldc"),
    ) {
        (Err(error), _, _, _) => Err(error),
        (_, Err(error), _, _) => Err(error),
        (_, _, Err(error), _) => Err(error),
        (_, _, _, Err(error)) => Err(error),
        (Ok(m), Ok(k), Ok(n), Ok(ldc)) => Ok((m, k, n, ldc)),
    }
}

/// The parameters of an exact-f32 launch, which speak in output rows,
/// output columns and the reduction, whatever the product stores as `m`,
/// `k` and `n`.
pub open spec fn fma_params(
    request: F32TriadRequest,
    operands: F32TriadOperands,
    exact: Sm120FmaRoute,
    facts: Sm120FmaFacts,
    ldc: i32,
) -> Result<PreparedTf32Params, LaunchError> {
    match tf32_plan::fma_plan(request, exact, facts) {
        Err(error) => Err(error),
        Ok(plan) => match (
            checked_i32(request.shape.output_rows(request.op), "exact-F32 rows"),
            checked_i32(request.shape.output_columns(request.op), "exact-F32 columns"),
            checked_i32(request.shape.reduction(request.op), "exact-F32 reduction"),
            checked_i32(plan.tiles_per_split, "exact-F32 tiles per split"),
        ) {
            (Err(error), _, _, _) => Err(error),
            (_, Err(error), _, _) => Err(error),
            (_, _, Err(error), _) => Err(error),
            (_, _, _, Err(error)) => Err(error),
            (Ok(m), Ok(n), Ok(k), Ok(tiles_per_split)) => Ok(
                PreparedTf32Params::Sm120Fma(
                    Sm120FmaKernelParams {
                        alpha: operands.alpha,
                        beta: operands.beta,
                        m,
                        n,
                        k,
                        ldc,
                        splits: exact.splits as i32,
                        tiles_per_split,
                    },
                ),
            ),
        },
    }
}

/// The parameters of a route on a product.
pub open spec fn route_params(
    request: F32TriadRequest,
    operands: F32TriadOperands,
    origins: Tf32TensorOrigins,
    route: Tf32PhysicalRoute,
    facts: Sm120FmaFacts,
) -> Result<PreparedTf32Params, LaunchError> {
    let shape = request.shape;
    let (alpha, beta) = (operands.alpha, operands.beta);
    let (a_x, a_y, b_x, b_y) = (origins.a_x, origins.a_y, origins.b_x, origins.b_y);
    match checked_extents(shape) {
        Err(error) => Err(error),
        Ok((m, k, n, ldc)) => match route {
            Tf32PhysicalRoute::MmaTf32RnaV1(_)
            | Tf32PhysicalRoute::MmaTf32RnaSplitK2V1(_)
            | Tf32PhysicalRoute::MmaTf32RnaSplitK4V1(_)
            | Tf32PhysicalRoute::MmaTf32RnaSplitK8V1(_) => match (
                checked_i32(shape.lda, "lda"),
                checked_i32(shape.ldb, "ldb"),
            ) {
                (Err(error), _) => Err(error),
                (_, Err(error)) => Err(error),
                (Ok(lda), Ok(ldb)) => Ok(
                    PreparedTf32Params::Sm80(
                        Sm80Tf32KernelParams { alpha, beta, m, k, n, lda, ldb, ldc },
                    ),
                ),
            },
            Tf32PhysicalRoute::Sm90aWgmmaTf32TmaV1(_) => Ok(
                PreparedTf32Params::Sm90a(
                    Sm90aTf32KernelParams { a_x, a_y, b_x, b_y, alpha, beta, m, k, n, ldc },
                ),
            ),
            Tf32PhysicalRoute::Sm100Tcgen05Tf32TmaV1(_) => Ok(
                PreparedTf32Params::Sm100(
                    Sm100KernelParams { a_x, a_y, b_x, b_y, alpha, beta, m, k, n, ldc },
                ),
            ),
            Tf32PhysicalRoute::Sm120TmaMmaTf32RnaV1(_)
            | Tf32PhysicalRoute::Sm120TmaMmaTf32RnaStreamKV1(_) => Ok(
                PreparedTf32Params::Sm120(
                    Sm120KernelParams { a_x, a_y, b_x, b_y, alpha, beta, m, k, n, ldc },
                ),
            ),
            Tf32PhysicalRoute::Sm120TmaFmaExactV1(exact) => fma_params(
                request,
                operands,
                exact,
                facts,
                ldc,
            ),
        },
    }
}

/// Builds the parameters of a route on a product.
pub fn tf32_params(
    request: F32TriadRequest,
    operands: F32TriadOperands,
    origins: Tf32TensorOrigins,
    route: Tf32PhysicalRoute,
    facts: Sm120FmaFacts,
) -> (result: Result<PreparedTf32Params, LaunchError>)
    requires
        facts.bk > 0,
        route.exact_fma() matches Some(exact) ==> facts.qualified is Ok ==> exact.splits > 0,
    ensures
        result == route_params(request, operands, origins, route, facts),
{
    let shape = request.shape;
    let (alpha, beta) = (operands.alpha, operands.beta);
    let (a_x, a_y, b_x, b_y) = (origins.a_x, origins.a_y, origins.b_x, origins.b_y);
    let m: i32 = checked_i32(shape.m, "M")?;
    let k: i32 = checked_i32(shape.k, "K")?;
    let n: i32 = checked_i32(shape.n, "N")?;
    let ldc: i32 = checked_i32(shape.ldc, "ldc")?;
    match route {
        Tf32PhysicalRoute::MmaTf32RnaV1(_)
        | Tf32PhysicalRoute::MmaTf32RnaSplitK2V1(_)
        | Tf32PhysicalRoute::MmaTf32RnaSplitK4V1(_)
        | Tf32PhysicalRoute::MmaTf32RnaSplitK8V1(_) => {
            let lda: i32 = checked_i32(shape.lda, "lda")?;
            let ldb: i32 = checked_i32(shape.ldb, "ldb")?;
            Ok(
                PreparedTf32Params::Sm80(
                    Sm80Tf32KernelParams { alpha, beta, m, k, n, lda, ldb, ldc },
                ),
            )
        },
        Tf32PhysicalRoute::Sm90aWgmmaTf32TmaV1(_) => Ok(
            PreparedTf32Params::Sm90a(
                Sm90aTf32KernelParams { a_x, a_y, b_x, b_y, alpha, beta, m, k, n, ldc },
            ),
        ),
        Tf32PhysicalRoute::Sm100Tcgen05Tf32TmaV1(_) => Ok(
            PreparedTf32Params::Sm100(
                Sm100KernelParams { a_x, a_y, b_x, b_y, alpha, beta, m, k, n, ldc },
            ),
        ),
        Tf32PhysicalRoute::Sm120TmaMmaTf32RnaV1(_)
        | Tf32PhysicalRoute::Sm120TmaMmaTf32RnaStreamKV1(_) => Ok(
            PreparedTf32Params::Sm120(
                Sm120KernelParams { a_x, a_y, b_x, b_y, alpha, beta, m, k, n, ldc },
            ),
        ),
        Tf32PhysicalRoute::Sm120TmaFmaExactV1(exact) => {
            let plan = sm120_fma_launch_plan(request, exact, facts)?;
            let rows: i32 = checked_i32(shape.output_rows(request.op), "exact-F32 rows")?;
            let columns: i32 = checked_i32(shape.output_columns(request.op), "exact-F32 columns")?;
            let reduction: i32 = checked_i32(shape.reduction(request.op), "exact-F32 reduction")?;
            let tiles_per_split: i32 = checked_i32(
                plan.tiles_per_split,
                "exact-F32 tiles per split",
            )?;
            Ok(
                PreparedTf32Params::Sm120Fma(
                    Sm120FmaKernelParams {
                        alpha,
                        beta,
                        m: rows,
                        n: columns,
                        k: reduction,
                        ldc,
                        splits: exact.splits as i32,
                        tiles_per_split,
                    },
                ),
            )
        },
    }
}

/// The extents of a valid shape are kernel arguments, so only the plan of
/// an exact-f32 route can refuse its parameters.
pub proof fn valid_shapes_have_params(
    request: F32TriadRequest,
    operands: F32TriadOperands,
    origins: Tf32TensorOrigins,
    route: Tf32PhysicalRoute,
    facts: Sm120FmaFacts,
)
    requires
        request.shape.valid(request.op),
        route.exact_fma() is None,
    ensures
        route_params(request, operands, origins, route, facts) is Ok,
{
}

/// Everything that the argument digest of a TF32 launch binds.
pub struct Tf32ArgumentRecord {
    pub symbol: Seq<u8>,
    pub op: ResolvedGemmOp,
    pub shape: F32TriadShape,
    pub alpha: u32,
    pub beta: u32,
    pub without_bias: bool,
    pub maps: Sha256Digest,
}

/// The fields that single-launch and split-K transcripts share.
pub open spec fn product_fields(
    shape: F32TriadShape,
    alpha: u32,
    beta: u32,
    without_bias: bool,
) -> Seq<Field> {
    seq![
        digest::field("m", digest::le_bytes(shape.m as int, 8)),
        digest::field("k", digest::le_bytes(shape.k as int, 8)),
        digest::field("n", digest::le_bytes(shape.n as int, 8)),
        digest::field("lda", digest::le_bytes(shape.lda as int, 8)),
        digest::field("ldb", digest::le_bytes(shape.ldb as int, 8)),
        digest::field("ldc", digest::le_bytes(shape.ldc as int, 8)),
        digest::field("alpha", digest::le_bytes(alpha as int, 4)),
        digest::field("beta", digest::le_bytes(beta as int, 4)),
        digest::field(
            "bias-null",
            seq![
                if without_bias {
                    1u8
                } else {
                    0u8
                },
            ],
        ),
    ]
}

/// The transcript fields of a TF32 launch.
pub open spec fn tf32_argument_fields(record: Tf32ArgumentRecord) -> Seq<Field> {
    seq![
        digest::field("symbol", record.symbol),
        digest::field("op", seq![record.op.code()]),
    ] + product_fields(record.shape, record.alpha, record.beta, record.without_bias) + seq![
        digest::field("tensor-maps", record.maps@),
    ]
}

/// The bytes under the argument digest of a TF32 launch.
pub open spec fn tf32_argument_transcript(record: Tf32ArgumentRecord) -> Seq<u8> {
    digest::transcript(
        "triad-tf32-kernel-arguments.v2".spec_bytes(),
        tf32_argument_fields(record),
    )
}

/// What the argument digest of a TF32 launch binds.
pub open spec fn tf32_argument_record(
    request: F32TriadRequest,
    operands: F32TriadOperands,
    symbol: &str,
    maps: Sha256Digest,
) -> Tf32ArgumentRecord {
    Tf32ArgumentRecord {
        symbol: symbol.spec_bytes(),
        op: request.op,
        shape: request.shape,
        alpha: operands.alpha,
        beta: operands.beta,
        without_bias: operands.bias is None,
        maps,
    }
}

fn append_product_fields(
    builder: FramedSha256,
    shape: F32TriadShape,
    operands: F32TriadOperands,
) -> (extended: FramedSha256)
    ensures
        extended.domain() == builder.domain(),
        extended.fields() == builder.fields() + product_fields(
            shape,
            operands.alpha,
            operands.beta,
            operands.bias is None,
        ),
{
    let ghost before = builder.fields();
    let bias_null: Vec<u8> = vec![
        if operands.bias.is_none() {
            1u8
        } else {
            0u8
        },
    ];
    let b = builder.required("m", u64_le(shape.m as u64).as_slice());
    let b = b.required("k", u64_le(shape.k as u64).as_slice());
    let b = b.required("n", u64_le(shape.n as u64).as_slice());
    let b = b.required("lda", u64_le(shape.lda as u64).as_slice());
    let b = b.required("ldb", u64_le(shape.ldb as u64).as_slice());
    let b = b.required("ldc", u64_le(shape.ldc as u64).as_slice());
    let b = b.required("alpha", u32_le(operands.alpha).as_slice());
    let b = b.required("beta", u32_le(operands.beta).as_slice());
    let b = b.required("bias-null", bias_null.as_slice());
    proof {
        assert(bias_null@ =~= seq![
            if operands.bias is None {
                1u8
            } else {
                0u8
            },
        ]);
        assert(b.fields() =~= before + product_fields(
            shape,
            operands.alpha,
            operands.beta,
            operands.bias is None,
        ));
    }
    b
}

/// The argument digest of a TF32 launch.
pub fn tf32_kernel_arguments_digest(
    request: F32TriadRequest,
    operands: F32TriadOperands,
    symbol: &str,
    maps_digest: Sha256Digest,
) -> (digest: Sha256Digest)
    ensures
        digest == digest::sha256(
            tf32_argument_transcript(tf32_argument_record(request, operands, symbol, maps_digest)),
        ),
{
    let op = vec![request.op.code()];
    let b = FramedSha256::new("triad-tf32-kernel-arguments.v2");
    let b = b.required("symbol", symbol.as_bytes());
    let b = b.required("op", op.as_slice());
    let b = append_product_fields(b, request.shape, operands);
    let b = b.required("tensor-maps", maps_digest.as_slice());
    proof {
        assert(op@ =~= seq![request.op.code()]);
        assert(b.fields() =~= tf32_argument_fields(
            tf32_argument_record(request, operands, symbol, maps_digest),
        ));
    }
    b.finish()
}

#[verifier::spinoff_prover]
proof fn product_fields_injective(
    left: (F32TriadShape, u32, u32, bool),
    right: (F32TriadShape, u32, u32, bool),
)
    requires
        product_fields(left.0, left.1, left.2, left.3) == product_fields(
            right.0,
            right.1,
            right.2,
            right.3,
        ),
    ensures
        left == right,
{
    let l = product_fields(left.0, left.1, left.2, left.3);
    let r = product_fields(right.0, right.1, right.2, right.3);
    assert(l[0].value == r[0].value);
    digest::le_bytes_u64_injective(left.0.m as u64, right.0.m as u64);
    assert(l[1].value == r[1].value);
    digest::le_bytes_u64_injective(left.0.k as u64, right.0.k as u64);
    assert(l[2].value == r[2].value);
    digest::le_bytes_u64_injective(left.0.n as u64, right.0.n as u64);
    assert(l[3].value == r[3].value);
    digest::le_bytes_u64_injective(left.0.lda as u64, right.0.lda as u64);
    assert(l[4].value == r[4].value);
    digest::le_bytes_u64_injective(left.0.ldb as u64, right.0.ldb as u64);
    assert(l[5].value == r[5].value);
    digest::le_bytes_u64_injective(left.0.ldc as u64, right.0.ldc as u64);
    assert(l[6].value == r[6].value);
    digest::le_bytes_u32_injective(left.1, right.1);
    assert(l[7].value == r[7].value);
    digest::le_bytes_u32_injective(left.2, right.2);
    assert(l[8].value == r[8].value);
    let l_null: Seq<u8> = seq![
        if left.3 {
            1u8
        } else {
            0u8
        },
    ];
    let r_null: Seq<u8> = seq![
        if right.3 {
            1u8
        } else {
            0u8
        },
    ];
    assert(l_null[0] == r_null[0]);
}

proof fn product_fields_have_their_labels(
    left: (F32TriadShape, u32, u32, bool),
    right: (F32TriadShape, u32, u32, bool),
)
    ensures
        digest::same_labels(
            product_fields(left.0, left.1, left.2, left.3),
            product_fields(right.0, right.1, right.2, right.3),
        ),
        digest::values_framable(product_fields(left.0, left.1, left.2, left.3)),
{
    digest::le_bytes_len_all();
}

/// The bytes under the argument digest of a TF32 launch identify the
/// kernel, the product, its shape, the bits of both factors, whether there
/// is a bias, and the tensor maps.
#[verifier::spinoff_prover]
#[verifier::rlimit(60)]
pub proof fn tf32_arguments_identify(left: Tf32ArgumentRecord, right: Tf32ArgumentRecord)
    requires
        left.symbol.len() <= u64::MAX,
        right.symbol.len() <= u64::MAX,
        tf32_argument_transcript(left) == tf32_argument_transcript(right),
    ensures
        left == right,
{
    let l = tf32_argument_fields(left);
    let r = tf32_argument_fields(right);
    let lp = (left.shape, left.alpha, left.beta, left.without_bias);
    let rp = (right.shape, right.alpha, right.beta, right.without_bias);
    product_fields_have_their_labels(lp, rp);
    product_fields_have_their_labels(rp, lp);
    assert(digest::same_labels(l, r));
    assert(digest::values_framable(l));
    assert(digest::values_framable(r));
    digest::transcript_values_injective("triad-tf32-kernel-arguments.v2".spec_bytes(), l, r);
    assert(l[0].value == r[0].value);
    assert(l[1].value == r[1].value);
    assert(seq![left.op.code()][0] == seq![right.op.code()][0]);
    let l_product = product_fields(lp.0, lp.1, lp.2, lp.3);
    let r_product = product_fields(rp.0, rp.1, rp.2, rp.3);
    assert(l.subrange(2, 11) =~= l_product);
    assert(r.subrange(2, 11) =~= r_product);
    product_fields_injective(lp, rp);
    assert(l[11].value == r[11].value);
    assert(left.maps =~= right.maps);
}

/// Everything that the argument digest of a split-K launch binds.
pub struct Tf32SplitKArgumentRecord {
    pub symbol: Seq<u8>,
    pub node_index: u8,
    pub op: ResolvedGemmOp,
    pub partitions: u32,
    pub shape: F32TriadShape,
    pub alpha: u32,
    pub beta: u32,
    pub without_bias: bool,
    pub scratch_elements: usize,
}

/// The transcript domain of a split-K launch.
#[verifier::allow_in_spec]
pub fn tf32_splitk_domain(partitions: u32) -> &'static str
    returns
        (match partitions {
            2u32 => "triad-tf32-split-k2-kernel-arguments.v2",
            4u32 => "triad-tf32-split-k4-kernel-arguments.v2",
            8u32 => "triad-tf32-split-k8-kernel-arguments.v2",
            _ => "triad-tf32-invalid-split-k-kernel-arguments.v1",
        }),
{
    match partitions {
        2u32 => "triad-tf32-split-k2-kernel-arguments.v2",
        4u32 => "triad-tf32-split-k4-kernel-arguments.v2",
        8u32 => "triad-tf32-split-k8-kernel-arguments.v2",
        _ => "triad-tf32-invalid-split-k-kernel-arguments.v1",
    }
}

/// The transcript fields of a split-K launch.
pub open spec fn tf32_splitk_argument_fields(record: Tf32SplitKArgumentRecord) -> Seq<Field> {
    seq![
        digest::field("symbol", record.symbol),
        digest::field("node-index", seq![record.node_index]),
        digest::field("op", seq![record.op.code()]),
        digest::field("partitions", seq![record.partitions as u8]),
    ] + product_fields(record.shape, record.alpha, record.beta, record.without_bias) + seq![
        digest::field("scratch-elements", digest::le_bytes(record.scratch_elements as int, 8)),
    ]
}

/// The bytes under the argument digest of a split-K launch.
pub open spec fn tf32_splitk_argument_transcript(record: Tf32SplitKArgumentRecord) -> Seq<u8> {
    digest::transcript(
        tf32_splitk_domain(record.partitions).spec_bytes(),
        tf32_splitk_argument_fields(record),
    )
}

/// What the argument digest of a split-K launch binds.
pub open spec fn tf32_splitk_argument_record(
    request: F32TriadRequest,
    operands: F32TriadOperands,
    symbol: &str,
    node_index: u8,
    partitions: u32,
    scratch_elements: usize,
) -> Tf32SplitKArgumentRecord {
    Tf32SplitKArgumentRecord {
        symbol: symbol.spec_bytes(),
        node_index,
        op: request.op,
        partitions,
        shape: request.shape,
        alpha: operands.alpha,
        beta: operands.beta,
        without_bias: operands.bias is None,
        scratch_elements,
    }
}

/// The argument digest of a split-K launch.
pub fn tf32_splitk_arguments_digest(
    request: F32TriadRequest,
    operands: F32TriadOperands,
    symbol: &str,
    node_index: u8,
    partitions: u32,
    scratch_elements: usize,
) -> (digest: Sha256Digest)
    ensures
        digest == digest::sha256(
            tf32_splitk_argument_transcript(
                tf32_splitk_argument_record(
                    request,
                    operands,
                    symbol,
                    node_index,
                    partitions,
                    scratch_elements,
                ),
            ),
        ),
{
    let index = vec![node_index];
    let op = vec![request.op.code()];
    let partition = vec![partitions as u8];
    let b = FramedSha256::new(tf32_splitk_domain(partitions));
    let b = b.required("symbol", symbol.as_bytes());
    let b = b.required("node-index", index.as_slice());
    let b = b.required("op", op.as_slice());
    let b = b.required("partitions", partition.as_slice());
    let b = append_product_fields(b, request.shape, operands);
    let b = b.required("scratch-elements", u64_le(scratch_elements as u64).as_slice());
    proof {
        assert(index@ =~= seq![node_index]);
        assert(op@ =~= seq![request.op.code()]);
        assert(partition@ =~= seq![partitions as u8]);
        assert(b.fields() =~= tf32_splitk_argument_fields(
            tf32_splitk_argument_record(
                request,
                operands,
                symbol,
                node_index,
                partitions,
                scratch_elements,
            ),
        ));
    }
    b.finish()
}

proof fn splitk_domain_is_short(partitions: u32)
    ensures
        tf32_splitk_domain(partitions).spec_bytes().len() <= u64::MAX,
{
    reveal_strlit("triad-tf32-split-k2-kernel-arguments.v2");
    reveal_strlit("triad-tf32-split-k4-kernel-arguments.v2");
    reveal_strlit("triad-tf32-split-k8-kernel-arguments.v2");
    reveal_strlit("triad-tf32-invalid-split-k-kernel-arguments.v1");
    vstd::utf8::is_ascii_chars_encode_utf8(tf32_splitk_domain(partitions)@);
}

/// The bytes under the argument digest of a split-K launch identify the
/// kernel, the node, the product, the number of partitions, the shape, the
/// bits of both factors, whether there is a bias, and the scratch extent.
#[verifier::spinoff_prover]
#[verifier::rlimit(60)]
pub proof fn tf32_splitk_arguments_identify(
    left: Tf32SplitKArgumentRecord,
    right: Tf32SplitKArgumentRecord,
)
    requires
        left.symbol.len() <= u64::MAX,
        right.symbol.len() <= u64::MAX,
        left.partitions <= u8::MAX,
        right.partitions <= u8::MAX,
        tf32_splitk_argument_transcript(left) == tf32_splitk_argument_transcript(right),
    ensures
        left == right,
{
    let l = tf32_splitk_argument_fields(left);
    let r = tf32_splitk_argument_fields(right);
    let lp = (left.shape, left.alpha, left.beta, left.without_bias);
    let rp = (right.shape, right.alpha, right.beta, right.without_bias);
    product_fields_have_their_labels(lp, rp);
    product_fields_have_their_labels(rp, lp);
    digest::le_bytes_len_all();
    splitk_domain_is_short(left.partitions);
    splitk_domain_is_short(right.partitions);
    assert(digest::same_labels(l, r));
    assert(digest::values_framable(l));
    assert(digest::values_framable(r));
    digest::transcript_domains_injective(
        tf32_splitk_domain(left.partitions).spec_bytes(),
        l,
        tf32_splitk_domain(right.partitions).spec_bytes(),
        r,
    );
    assert(l[0].value == r[0].value);
    assert(l[1].value == r[1].value);
    assert(seq![left.node_index][0] == seq![right.node_index][0]);
    assert(l[2].value == r[2].value);
    assert(seq![left.op.code()][0] == seq![right.op.code()][0]);
    assert(l[3].value == r[3].value);
    assert(seq![left.partitions as u8][0] == seq![right.partitions as u8][0]);
    let l_product = product_fields(lp.0, lp.1, lp.2, lp.3);
    let r_product = product_fields(rp.0, rp.1, rp.2, rp.3);
    assert(l.subrange(4, 13) =~= l_product);
    assert(r.subrange(4, 13) =~= r_product);
    product_fields_injective(lp, rp);
    assert(l[13].value == r[13].value);
    digest::le_bytes_u64_injective(
        left.scratch_elements as u64,
        right.scratch_elements as u64,
    );
}

/// A module that a route was qualified on.
#[derive(Clone, Copy, Debug, PartialEq, Eq)]
pub struct QualifiedModule {
    pub target: CudaTarget,
    pub artifact: ArtifactIdentity,
    pub compiler: CompilerIdentity,
    pub device: DeviceIdentity,
    pub device_caps: DeviceCaps,
}

/// The revisions that routes are recorded under.
#[derive(Clone, Copy, Debug, PartialEq, Eq, Structural)]
pub struct RouteRevisions {
    pub tuning_table: u32,
    pub schedule: u32,
    pub zero_reduction_maps: u32,
}

/// The digests of one launch.
#[derive(Clone, Copy, Debug, PartialEq, Eq)]
pub struct Tf32LaunchDigests {
    pub maps: Sha256Digest,
    pub resources: Sha256Digest,
    pub arguments: Sha256Digest,
}

/// One split keeps the scalar chain; more splits fold fixed-order partials.
#[verifier::allow_in_spec]
pub fn sm120_fma_numeric_contract(route: Sm120FmaRoute) -> ResolvedNumericContract
    returns
        (if route.splits == 1 {
            ResolvedNumericContract::ScalarFmaV1
        } else {
            ResolvedNumericContract::ScalarFmaFixedSplitFoldV1
        }),
{
    if route.splits == 1 {
        ResolvedNumericContract::ScalarFmaV1
    } else {
        ResolvedNumericContract::ScalarFmaFixedSplitFoldV1
    }
}

/// One split owns its tile; more splits are folded by the owner.
#[verifier::allow_in_spec]
pub fn sm120_fma_ownership(route: Sm120FmaRoute) -> ResolvedOutputOwnership
    returns
        (if route.splits == 1 {
            ResolvedOutputOwnership::OneCtaPerOutputTileV1
        } else {
            ResolvedOutputOwnership::OwnerCtaPerOutputTileFixedSplitFoldV1
        }),
{
    if route.splits == 1 {
        ResolvedOutputOwnership::OneCtaPerOutputTileV1
    } else {
        ResolvedOutputOwnership::OwnerCtaPerOutputTileFixedSplitFoldV1
    }
}

/// The backend of a route.
#[verifier::allow_in_spec]
pub fn tf32_backend(route: Tf32PhysicalRoute) -> PhysicalGemmBackend
    returns
        (match route {
            Tf32PhysicalRoute::MmaTf32RnaV1(_) => PhysicalGemmBackend::MmaTf32RnaV1,
            Tf32PhysicalRoute::MmaTf32RnaSplitK2V1(_) => PhysicalGemmBackend::MmaTf32RnaSplitK2V1,
            Tf32PhysicalRoute::MmaTf32RnaSplitK4V1(_) => PhysicalGemmBackend::MmaTf32RnaSplitK4V1,
            Tf32PhysicalRoute::MmaTf32RnaSplitK8V1(_) => PhysicalGemmBackend::MmaTf32RnaSplitK8V1,
            Tf32PhysicalRoute::Sm90aWgmmaTf32TmaV1(_) => PhysicalGemmBackend::Sm90aWgmmaTf32TmaV1,
            Tf32PhysicalRoute::Sm100Tcgen05Tf32TmaV1(_) =>
                PhysicalGemmBackend::Sm100Tcgen05Tf32TmaV1,
            Tf32PhysicalRoute::Sm120TmaMmaTf32RnaV1(_) => PhysicalGemmBackend::Sm120TmaMmaTf32RnaV1,
            Tf32PhysicalRoute::Sm120TmaMmaTf32RnaStreamKV1(_) =>
                PhysicalGemmBackend::Sm120TmaMmaTf32RnaStreamKV1,
            Tf32PhysicalRoute::Sm120TmaFmaExactV1(_) => PhysicalGemmBackend::Sm120TmaFmaExactV1,
        }),
{
    match route {
        Tf32PhysicalRoute::MmaTf32RnaV1(_) => PhysicalGemmBackend::MmaTf32RnaV1,
        Tf32PhysicalRoute::MmaTf32RnaSplitK2V1(_) => PhysicalGemmBackend::MmaTf32RnaSplitK2V1,
        Tf32PhysicalRoute::MmaTf32RnaSplitK4V1(_) => PhysicalGemmBackend::MmaTf32RnaSplitK4V1,
        Tf32PhysicalRoute::MmaTf32RnaSplitK8V1(_) => PhysicalGemmBackend::MmaTf32RnaSplitK8V1,
        Tf32PhysicalRoute::Sm90aWgmmaTf32TmaV1(_) => PhysicalGemmBackend::Sm90aWgmmaTf32TmaV1,
        Tf32PhysicalRoute::Sm100Tcgen05Tf32TmaV1(_) => PhysicalGemmBackend::Sm100Tcgen05Tf32TmaV1,
        Tf32PhysicalRoute::Sm120TmaMmaTf32RnaV1(_) => PhysicalGemmBackend::Sm120TmaMmaTf32RnaV1,
        Tf32PhysicalRoute::Sm120TmaMmaTf32RnaStreamKV1(_) =>
            PhysicalGemmBackend::Sm120TmaMmaTf32RnaStreamKV1,
        Tf32PhysicalRoute::Sm120TmaFmaExactV1(_) => PhysicalGemmBackend::Sm120TmaFmaExactV1,
    }
}

/// The numeric contract of a route on a reduction that is not empty.
#[verifier::allow_in_spec]
pub fn tf32_numeric_contract(route: Tf32PhysicalRoute) -> ResolvedNumericContract
    returns
        (match route {
            Tf32PhysicalRoute::MmaTf32RnaV1(_) => ResolvedNumericContract::MmaTf32RnaV1,
            Tf32PhysicalRoute::MmaTf32RnaSplitK2V1(_) =>
                ResolvedNumericContract::MmaTf32RnaSplitK2V1,
            Tf32PhysicalRoute::MmaTf32RnaSplitK4V1(_) =>
                ResolvedNumericContract::MmaTf32RnaSplitK4V1,
            Tf32PhysicalRoute::MmaTf32RnaSplitK8V1(_) =>
                ResolvedNumericContract::MmaTf32RnaSplitK8V1,
            Tf32PhysicalRoute::Sm90aWgmmaTf32TmaV1(_) =>
                ResolvedNumericContract::Sm90aWgmmaTf32TmaV1,
            Tf32PhysicalRoute::Sm100Tcgen05Tf32TmaV1(_) =>
                ResolvedNumericContract::Sm100Tcgen05Tf32TmaV1,
            Tf32PhysicalRoute::Sm120TmaMmaTf32RnaV1(_) =>
                ResolvedNumericContract::Sm120TmaMmaTf32RnaV1,
            Tf32PhysicalRoute::Sm120TmaMmaTf32RnaStreamKV1(_) =>
                ResolvedNumericContract::Sm120TmaMmaTf32RnaStreamKV1,
            Tf32PhysicalRoute::Sm120TmaFmaExactV1(exact) => sm120_fma_numeric_contract(exact),
        }),
{
    match route {
        Tf32PhysicalRoute::MmaTf32RnaV1(_) => ResolvedNumericContract::MmaTf32RnaV1,
        Tf32PhysicalRoute::MmaTf32RnaSplitK2V1(_) => ResolvedNumericContract::MmaTf32RnaSplitK2V1,
        Tf32PhysicalRoute::MmaTf32RnaSplitK4V1(_) => ResolvedNumericContract::MmaTf32RnaSplitK4V1,
        Tf32PhysicalRoute::MmaTf32RnaSplitK8V1(_) => ResolvedNumericContract::MmaTf32RnaSplitK8V1,
        Tf32PhysicalRoute::Sm90aWgmmaTf32TmaV1(_) => ResolvedNumericContract::Sm90aWgmmaTf32TmaV1,
        Tf32PhysicalRoute::Sm100Tcgen05Tf32TmaV1(_) =>
            ResolvedNumericContract::Sm100Tcgen05Tf32TmaV1,
        Tf32PhysicalRoute::Sm120TmaMmaTf32RnaV1(_) => ResolvedNumericContract::Sm120TmaMmaTf32RnaV1,
        Tf32PhysicalRoute::Sm120TmaMmaTf32RnaStreamKV1(_) =>
            ResolvedNumericContract::Sm120TmaMmaTf32RnaStreamKV1,
        Tf32PhysicalRoute::Sm120TmaFmaExactV1(exact) => sm120_fma_numeric_contract(exact),
    }
}

/// Who writes an output tile of a single-launch route.
#[verifier::allow_in_spec]
pub fn tf32_ownership(route: Tf32PhysicalRoute) -> ResolvedOutputOwnership
    returns
        (match route {
            Tf32PhysicalRoute::Sm120TmaMmaTf32RnaStreamKV1(_) =>
                ResolvedOutputOwnership::OwnerCtaPerOutputTileStreamKFixedOrderV1,
            Tf32PhysicalRoute::Sm120TmaFmaExactV1(exact) => sm120_fma_ownership(exact),
            _ => ResolvedOutputOwnership::OneCtaPerOutputTileV1,
        }),
{
    match route {
        Tf32PhysicalRoute::Sm120TmaMmaTf32RnaStreamKV1(_) =>
            ResolvedOutputOwnership::OwnerCtaPerOutputTileStreamKFixedOrderV1,
        Tf32PhysicalRoute::Sm120TmaFmaExactV1(exact) => sm120_fma_ownership(exact),
        _ => ResolvedOutputOwnership::OneCtaPerOutputTileV1,
    }
}

/// The recorded route of a single-launch kernel. An empty reduction runs
/// the epilogue alone and is recorded as such.
pub open spec fn single_launch_route(
    request: F32TriadRequest,
    spec: Tf32KernelSpec,
    qualified: QualifiedModule,
    revisions: RouteRevisions,
    digests: Tf32LaunchDigests,
    zero_reduction: bool,
    config: LaunchConfig,
) -> ResolvedGemmRoute {
    ResolvedGemmRoute {
        op: request.op,
        dtype: PolicyDtype::F32,
        backend: tf32_backend(spec.route),
        numeric_contract: if zero_reduction {
            ResolvedNumericContract::ZeroReductionEpilogueF32V1
        } else {
            tf32_numeric_contract(spec.route)
        },
        instruction_family: if zero_reduction {
            ResolvedInstructionFamily::ScalarFma
        } else {
            spec.instruction_family
        },
        instruction_shape: if zero_reduction {
            ResolvedInstructionShape { m: 1, n: 1, k: 1 }
        } else {
            spec.instruction_shape
        },
        operand_conversion: if zero_reduction {
            ResolvedOperandConversion::Unconverted
        } else {
            spec.operand_conversion
        },
        ownership: tf32_ownership(spec.route),
        symbol: spec.symbol,
        module_kind: spec.module_kind,
        target: qualified.target,
        artifact: qualified.artifact,
        compiler: qualified.compiler,
        device: qualified.device,
        device_caps: qualified.device_caps,
        shape: (request.shape.m, request.shape.k, request.shape.n),
        strides: (request.shape.lda, request.shape.ldb, request.shape.ldc),
        tile: spec.tile,
        bk: spec.bk,
        stages: spec.stages,
        threads: spec.threads,
        launch: ResolvedKernelLaunch {
            grid_dim: config.grid_dim,
            block_dim: config.block_dim,
            shared_mem_bytes: config.shared_mem_bytes,
            arguments_digest: digests.arguments,
        },
        tensor_map_revision: if zero_reduction {
            revisions.zero_reduction_maps
        } else {
            spec.tensor_map_revision
        },
        tensor_maps_digest: digests.maps,
        resources_digest: digests.resources,
        tuning_table_revision: revisions.tuning_table,
        schedule_revision: spec.schedule_revision,
    }
}

/// Records a single-launch kernel.
pub fn tf32_resolved_route(
    request: F32TriadRequest,
    spec: &Tf32KernelSpec,
    qualified: &QualifiedModule,
    revisions: RouteRevisions,
    digests: Tf32LaunchDigests,
    zero_reduction: bool,
    config: LaunchConfig,
) -> (route: ResolvedGemmRoute)
    ensures
        route == single_launch_route(
            request,
            *spec,
            *qualified,
            revisions,
            digests,
            zero_reduction,
            config,
        ),
{
    let numeric_contract = if zero_reduction {
        ResolvedNumericContract::ZeroReductionEpilogueF32V1
    } else {
        tf32_numeric_contract(spec.route)
    };
    let instruction_family = if zero_reduction {
        ResolvedInstructionFamily::ScalarFma
    } else {
        spec.instruction_family
    };
    let instruction_shape = if zero_reduction {
        ResolvedInstructionShape { m: 1, n: 1, k: 1 }
    } else {
        spec.instruction_shape
    };
    let operand_conversion = if zero_reduction {
        ResolvedOperandConversion::Unconverted
    } else {
        spec.operand_conversion
    };
    let tensor_map_revision: u32 = if zero_reduction {
        revisions.zero_reduction_maps
    } else {
        spec.tensor_map_revision
    };
    ResolvedGemmRoute {
        op: request.op,
        dtype: PolicyDtype::F32,
        backend: tf32_backend(spec.route),
        numeric_contract,
        instruction_family,
        instruction_shape,
        operand_conversion,
        ownership: tf32_ownership(spec.route),
        symbol: spec.symbol,
        module_kind: spec.module_kind,
        target: qualified.target,
        artifact: qualified.artifact,
        compiler: qualified.compiler,
        device: qualified.device,
        device_caps: qualified.device_caps,
        shape: (request.shape.m, request.shape.k, request.shape.n),
        strides: (request.shape.lda, request.shape.ldb, request.shape.ldc),
        tile: spec.tile,
        bk: spec.bk,
        stages: spec.stages,
        threads: spec.threads,
        launch: ResolvedKernelLaunch {
            grid_dim: config.grid_dim,
            block_dim: config.block_dim,
            shared_mem_bytes: config.shared_mem_bytes,
            arguments_digest: digests.arguments,
        },
        tensor_map_revision,
        tensor_maps_digest: digests.maps,
        resources_digest: digests.resources,
        tuning_table_revision: revisions.tuning_table,
        schedule_revision: spec.schedule_revision,
    }
}

/// Who folds the partitions of a split-K route.
#[verifier::allow_in_spec]
pub fn tf32_splitk_ownership(partitions: u32) -> ResolvedOutputOwnership
    returns
        (match partitions {
            2u32 => ResolvedOutputOwnership::LastCtaPerOutputTileFixedSplitK2ReduceV1,
            4u32 => ResolvedOutputOwnership::LastCtaPerOutputTileFixedSplitK4ReduceV1,
            _ => ResolvedOutputOwnership::LastCtaPerOutputTileFixedSplitK8ReduceV1,
        }),
{
    match partitions {
        2u32 => ResolvedOutputOwnership::LastCtaPerOutputTileFixedSplitK2ReduceV1,
        4u32 => ResolvedOutputOwnership::LastCtaPerOutputTileFixedSplitK4ReduceV1,
        _ => ResolvedOutputOwnership::LastCtaPerOutputTileFixedSplitK8ReduceV1,
    }
}

/// The recorded route of a fused split-K launch.
pub open spec fn splitk_route(
    request: F32TriadRequest,
    operands: F32TriadOperands,
    spec: Tf32SplitKSpec,
    qualified: QualifiedModule,
    revisions: RouteRevisions,
    resources_digest: Sha256Digest,
    plan: Tf32SplitKLaunchPlan,
) -> ResolvedGemmRoute {
    ResolvedGemmRoute {
        op: request.op,
        dtype: PolicyDtype::F32,
        backend: tf32_backend(spec.route),
        numeric_contract: tf32_numeric_contract(spec.route),
        instruction_family: ResolvedInstructionFamily::MmaSync,
        instruction_shape: ResolvedInstructionShape { m: 16, n: 8, k: 8 },
        operand_conversion: ResolvedOperandConversion::RegisterCvtRnaTf32F32V1,
        ownership: tf32_splitk_ownership(spec.partitions),
        symbol: spec.symbol,
        module_kind: ModuleKind::TriadSm80,
        target: qualified.target,
        artifact: qualified.artifact,
        compiler: qualified.compiler,
        device: qualified.device,
        device_caps: qualified.device_caps,
        shape: (request.shape.m, request.shape.k, request.shape.n),
        strides: (request.shape.lda, request.shape.ldb, request.shape.ldc),
        tile: spec.tile,
        bk: spec.bk,
        stages: spec.stages,
        threads: spec.threads,
        launch: ResolvedKernelLaunch {
            grid_dim: plan.fused.grid_dim,
            block_dim: plan.fused.block_dim,
            shared_mem_bytes: plan.fused.shared_mem_bytes,
            arguments_digest: digest::sha256(
                tf32_splitk_argument_transcript(
                    tf32_splitk_argument_record(
                        request,
                        operands,
                        spec.symbol,
                        0,
                        spec.partitions,
                        plan.scratch_elements,
                    ),
                ),
            ),
        },
        tensor_map_revision: 0,
        tensor_maps_digest: digest::zero_digest(),
        resources_digest,
        tuning_table_revision: revisions.tuning_table,
        schedule_revision: revisions.schedule,
    }
}

/// Records a fused split-K launch, which is one node.
pub fn tf32_splitk_resolved_routes(
    request: F32TriadRequest,
    operands: F32TriadOperands,
    spec: &Tf32SplitKSpec,
    qualified: &QualifiedModule,
    revisions: RouteRevisions,
    resources_digest: Sha256Digest,
    plan: Tf32SplitKLaunchPlan,
) -> (routes: Vec<ResolvedGemmRoute>)
    requires
        spec.wf(),
    ensures
        routes@ == seq![
            splitk_route(
                request,
                operands,
                *spec,
                *qualified,
                revisions,
                resources_digest,
                plan,
            ),
        ],
{
    let arguments_digest = tf32_splitk_arguments_digest(
        request,
        operands,
        spec.symbol,
        0,
        spec.partitions,
        plan.scratch_elements,
    );
    let fused = ResolvedGemmRoute {
        op: request.op,
        dtype: PolicyDtype::F32,
        backend: tf32_backend(spec.route),
        numeric_contract: tf32_numeric_contract(spec.route),
        instruction_family: ResolvedInstructionFamily::MmaSync,
        instruction_shape: ResolvedInstructionShape { m: 16, n: 8, k: 8 },
        operand_conversion: ResolvedOperandConversion::RegisterCvtRnaTf32F32V1,
        ownership: tf32_splitk_ownership(spec.partitions),
        symbol: spec.symbol,
        module_kind: ModuleKind::TriadSm80,
        target: qualified.target,
        artifact: qualified.artifact,
        compiler: qualified.compiler,
        device: qualified.device,
        device_caps: qualified.device_caps,
        shape: (request.shape.m, request.shape.k, request.shape.n),
        strides: (request.shape.lda, request.shape.ldb, request.shape.ldc),
        tile: spec.tile,
        bk: spec.bk,
        stages: spec.stages,
        threads: spec.threads,
        launch: ResolvedKernelLaunch {
            grid_dim: plan.fused.grid_dim,
            block_dim: plan.fused.block_dim,
            shared_mem_bytes: plan.fused.shared_mem_bytes,
            arguments_digest,
        },
        tensor_map_revision: 0,
        tensor_maps_digest: digest::no_digest(),
        resources_digest,
        tuning_table_revision: revisions.tuning_table,
        schedule_revision: revisions.schedule,
    };
    let routes = vec![fused];
    assert(routes@ =~= seq![fused]);
    routes
}

/// Split-K routes with different partition counts are recorded under
/// different backends, numeric contracts and ownership rules.
pub proof fn splitk_routes_are_told_apart(left: Tf32SplitKSpec, right: Tf32SplitKSpec)
    requires
        left.wf(),
        right.wf(),
        left.partitions != right.partitions,
    ensures
        tf32_backend(left.route) != tf32_backend(right.route),
        tf32_numeric_contract(left.route) != tf32_numeric_contract(right.route),
        tf32_splitk_ownership(left.partitions) != tf32_splitk_ownership(right.partitions),
{
}

} // verus!
