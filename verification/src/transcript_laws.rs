//! The argument digests of the launches bind every value under its own name.

use crate::digest;
use crate::digest::{Field, Sha256Digest};
use crate::half_kernel::HalfKernelIdentity;
use crate::half_launch::HalfGemmObservation;
use crate::half_routes;
use crate::half_routes::HalfAllocations;
use crate::identity::PolicyDtype;
use crate::kernel::LaunchConfig;
use crate::scalar_plan;
use crate::scalar_plan::ScalarDispatchPlan;
use crate::scalar_routes;
use crate::scalar_routes::ZeroArgumentRecord;
use crate::shape::{
    F32TriadOperands, F32TriadRequest, F32TriadShape, ResolvedGemmOp, F32_ONE_BITS, F32_ZERO_BITS,
};
use crate::tf32_routes;
use vstd::prelude::*;
use vstd::string::StringSliceAdditionalSpecFns;

verus! {

/// A transcript has a value under a label.
pub open spec fn holds(fields: Seq<Field>, label: &str, value: Seq<u8>) -> bool {
    exists|i: int|
        0 <= i < fields.len() && #[trigger] fields[i] == digest::field(label, value)
}

/// A transcript has a number of eight bytes under a label.
pub open spec fn holds_wide(fields: Seq<Field>, label: &str, value: int) -> bool {
    holds(fields, label, digest::le_bytes(value, 8))
}

/// A transcript has a number of four bytes under a label.
pub open spec fn holds_narrow(fields: Seq<Field>, label: &str, value: int) -> bool {
    holds(fields, label, digest::le_bytes(value, 4))
}

/// A transcript has the extents, the strides and the factors of a product.
pub open spec fn holds_product(
    fields: Seq<Field>,
    shape: F32TriadShape,
    alpha: u32,
    beta: u32,
) -> bool {
    &&& holds_wide(fields, "m", shape.m as int)
    &&& holds_wide(fields, "k", shape.k as int)
    &&& holds_wide(fields, "n", shape.n as int)
    &&& holds_wide(fields, "lda", shape.lda as int)
    &&& holds_wide(fields, "ldb", shape.ldb as int)
    &&& holds_wide(fields, "ldc", shape.ldc as int)
    &&& holds_narrow(fields, "alpha", alpha as int)
    &&& holds_narrow(fields, "beta", beta as int)
}

proof fn held(fields: Seq<Field>, i: int, label: &str, value: Seq<u8>)
    requires
        0 <= i < fields.len(),
        fields[i] == digest::field(label, value),
    ensures
        holds(fields, label, value),
{
}

proof fn product_is_held(
    fields: Seq<Field>,
    first: int,
    shape: F32TriadShape,
    alpha: u32,
    beta: u32,
)
    requires
        0 <= first,
        first + 8 <= fields.len(),
        fields[first] == digest::field("m", digest::le_bytes(shape.m as int, 8)),
        fields[first + 1] == digest::field("k", digest::le_bytes(shape.k as int, 8)),
        fields[first + 2] == digest::field("n", digest::le_bytes(shape.n as int, 8)),
        fields[first + 3] == digest::field("lda", digest::le_bytes(shape.lda as int, 8)),
        fields[first + 4] == digest::field("ldb", digest::le_bytes(shape.ldb as int, 8)),
        fields[first + 5] == digest::field("ldc", digest::le_bytes(shape.ldc as int, 8)),
        fields[first + 6] == digest::field("alpha", digest::le_bytes(alpha as int, 4)),
        fields[first + 7] == digest::field("beta", digest::le_bytes(beta as int, 4)),
    ensures
        holds_product(fields, shape, alpha, beta),
{
}

/// The transcript of a frozen scalar launch has its kernel, its index, its
/// product, the fields of its plan and its argument layout.
pub proof fn scalar_transcripts_bind_their_launch(
    request: F32TriadRequest,
    operands: F32TriadOperands,
    plan: ScalarDispatchPlan,
    index: u64,
    symbol: Seq<u8>,
)
    ensures
        ({
            let record = scalar_plan::scalar_argument_record(
                request,
                operands,
                plan,
                index as int,
                symbol,
            );
            let layout = scalar_plan::argument_layout(request, operands, plan, index as int);
            let fields = scalar_plan::scalar_argument_fields(record);
            &&& holds(fields, "symbol", symbol)
            &&& holds_wide(fields, "node-index", index as int)
            &&& holds(fields, "plan", seq![scalar_plan::plan_fields(plan).0])
            &&& holds_wide(fields, "plan-a", scalar_plan::plan_fields(plan).1 as int)
            &&& holds_wide(fields, "plan-b", scalar_plan::plan_fields(plan).2 as int)
            &&& holds_product(fields, request.shape, operands.alpha, operands.beta)
            &&& holds_wide(fields, "output-offset", layout.output_offset as int)
            &&& holds_wide(fields, "a-offset", layout.a_offset as int)
            &&& holds_wide(fields, "b-offset", layout.b_offset as int)
            &&& holds_wide(fields, "null-pointer-mask", layout.null_pointer_mask as int)
        }),
{
    let record = scalar_plan::scalar_argument_record(
        request,
        operands,
        plan,
        index as int,
        symbol,
    );
    let layout = scalar_plan::argument_layout(request, operands, plan, index as int);
    let fields = scalar_plan::scalar_argument_fields(record);
    held(fields, 0, "symbol", symbol);
    held(fields, 1, "node-index", digest::le_bytes(index as int, 8));
    held(fields, 2, "plan", seq![scalar_plan::plan_fields(plan).0]);
    held(fields, 3, "plan-a", digest::le_bytes(scalar_plan::plan_fields(plan).1 as int, 8));
    held(fields, 4, "plan-b", digest::le_bytes(scalar_plan::plan_fields(plan).2 as int, 8));
    product_is_held(fields, 5, request.shape, operands.alpha, operands.beta);
    held(fields, 13, "output-offset", digest::le_bytes(layout.output_offset as int, 8));
    held(fields, 14, "a-offset", digest::le_bytes(layout.a_offset as int, 8));
    held(fields, 15, "b-offset", digest::le_bytes(layout.b_offset as int, 8));
    held(fields, 16, "null-pointer-mask", digest::le_bytes(layout.null_pointer_mask as int, 8));
}

/// The transcript of a half-precision launch has its kernel, its product and
/// the allocation behind each tensor. The product is unscaled, and it adds to
/// what is there for a weight gradient alone.
pub proof fn half_transcripts_bind_their_launch(
    observation: HalfGemmObservation,
    symbol: &str,
    dtype: PolicyDtype,
    allocations: HalfAllocations,
)
    ensures
        ({
            let record = half_routes::half_argument_record(
                observation,
                symbol,
                dtype,
                allocations,
            );
            let fields = half_routes::half_argument_fields(record);
            &&& holds(fields, "symbol", symbol.spec_bytes())
            &&& holds(fields, "op", seq![observation.op.code()])
            &&& holds(fields, "dtype", seq![dtype.code()])
            &&& holds_product(
                fields,
                observation.shape(),
                F32_ONE_BITS,
                if observation.op is Tn {
                    F32_ONE_BITS
                } else {
                    F32_ZERO_BITS
                },
            )
            &&& holds(fields, "output-allocation", allocations.output@)
            &&& holds(fields, "a-allocation", allocations.a@)
            &&& holds(fields, "b-allocation", allocations.b@)
            &&& observation.arguments.bias != 0 ==> holds(
                fields,
                "bias-allocation",
                allocations.bias@,
            )
            &&& holds_wide(
                fields,
                "null-pointer-mask",
                if observation.arguments.bias == 0 {
                    8
                } else {
                    0
                },
            )
            &&& holds_narrow(fields, "tile-m", observation.tile.0 as int)
            &&& holds_narrow(fields, "tile-n", observation.tile.1 as int)
            &&& holds_narrow(fields, "bk", observation.bk_stages.0 as int)
            &&& holds(fields, "stages", seq![observation.bk_stages.1])
        }),
{
    let record = half_routes::half_argument_record(observation, symbol, dtype, allocations);
    let fields = half_routes::half_argument_fields(record);
    let beta = if observation.op is Tn {
        F32_ONE_BITS
    } else {
        F32_ZERO_BITS
    };
    held(fields, 0, "symbol", symbol.spec_bytes());
    held(fields, 1, "op", seq![observation.op.code()]);
    held(fields, 2, "dtype", seq![dtype.code()]);
    product_is_held(fields, 3, observation.shape(), F32_ONE_BITS, beta);
    held(
        fields,
        11,
        "null-pointer-mask",
        digest::le_bytes(
            if observation.arguments.bias == 0 {
                8
            } else {
                0
            },
            8,
        ),
    );
    held(fields, 12, "output-allocation", allocations.output@);
    held(fields, 13, "a-allocation", allocations.a@);
    held(fields, 14, "b-allocation", allocations.b@);
    if observation.arguments.bias != 0 {
        held(fields, 15, "bias-allocation", allocations.bias@);
    }
    held(fields, 16, "tile-m", digest::le_bytes(observation.tile.0 as int, 4));
    held(fields, 17, "tile-n", digest::le_bytes(observation.tile.1 as int, 4));
    held(fields, 18, "bk", digest::le_bytes(observation.bk_stages.0 as int, 4));
    held(fields, 19, "stages", seq![observation.bk_stages.1]);
}

/// The transcript of a TF32 launch has its kernel, its product, whether there
/// is a bias, and its tensor maps.
pub proof fn tf32_transcripts_bind_their_launch(
    request: F32TriadRequest,
    operands: F32TriadOperands,
    symbol: &str,
    maps: Sha256Digest,
)
    ensures
        ({
            let fields = tf32_routes::tf32_argument_fields(
                tf32_routes::tf32_argument_record(request, operands, symbol, maps),
            );
            &&& holds(fields, "symbol", symbol.spec_bytes())
            &&& holds(fields, "op", seq![request.op.code()])
            &&& holds_product(fields, request.shape, operands.alpha, operands.beta)
            &&& holds(
                fields,
                "bias-null",
                seq![
                    if operands.bias is None {
                        1u8
                    } else {
                        0u8
                    },
                ],
            )
            &&& holds(fields, "tensor-maps", maps@)
        }),
{
    let fields = tf32_routes::tf32_argument_fields(
        tf32_routes::tf32_argument_record(request, operands, symbol, maps),
    );
    held(fields, 0, "symbol", symbol.spec_bytes());
    held(fields, 1, "op", seq![request.op.code()]);
    product_is_held(fields, 2, request.shape, operands.alpha, operands.beta);
    held(
        fields,
        10,
        "bias-null",
        seq![
            if operands.bias is None {
                1u8
            } else {
                0u8
            },
        ],
    );
    held(fields, 11, "tensor-maps", maps@);
}

/// The transcript of a split-K launch has its kernel, its product, its
/// partitions and the extent of its workspace, under the domain of its
/// partitions.
pub proof fn splitk_transcripts_bind_their_launch(
    request: F32TriadRequest,
    operands: F32TriadOperands,
    symbol: &str,
    partitions: u32,
    scratch_elements: usize,
)
    requires
        partitions <= 255,
    ensures
        ({
            let fields = tf32_routes::tf32_splitk_argument_fields(
                tf32_routes::tf32_splitk_argument_record(
                    request,
                    operands,
                    symbol,
                    0,
                    partitions,
                    scratch_elements,
                ),
            );
            &&& holds(fields, "symbol", symbol.spec_bytes())
            &&& holds(fields, "node-index", seq![0u8])
            &&& holds(fields, "op", seq![request.op.code()])
            &&& holds(fields, "partitions", seq![partitions as u8])
            &&& holds_product(fields, request.shape, operands.alpha, operands.beta)
            &&& holds(
                fields,
                "bias-null",
                seq![
                    if operands.bias is None {
                        1u8
                    } else {
                        0u8
                    },
                ],
            )
            &&& holds_wide(fields, "scratch-elements", scratch_elements as int)
        }),
        tf32_routes::tf32_splitk_domain(2) == "triad-tf32-split-k2-kernel-arguments.v2",
        tf32_routes::tf32_splitk_domain(4) == "triad-tf32-split-k4-kernel-arguments.v2",
        tf32_routes::tf32_splitk_domain(8) == "triad-tf32-split-k8-kernel-arguments.v2",
{
    let fields = tf32_routes::tf32_splitk_argument_fields(
        tf32_routes::tf32_splitk_argument_record(
            request,
            operands,
            symbol,
            0,
            partitions,
            scratch_elements,
        ),
    );
    held(fields, 0, "symbol", symbol.spec_bytes());
    held(fields, 1, "node-index", seq![0u8]);
    held(fields, 2, "op", seq![request.op.code()]);
    held(fields, 3, "partitions", seq![partitions as u8]);
    product_is_held(fields, 4, request.shape, operands.alpha, operands.beta);
    held(
        fields,
        12,
        "bias-null",
        seq![
            if operands.bias is None {
                1u8
            } else {
                0u8
            },
        ],
    );
    held(fields, 13, "scratch-elements", digest::le_bytes(scratch_elements as int, 8));
}

/// The transcript of an empty reduction has the kernel of its operation and its
/// product. Its inputs are null, and so is an absent bias.
pub proof fn zero_transcripts_bind_their_launch(record: ZeroArgumentRecord)
    ensures
        ({
            let fields = scalar_routes::zero_argument_fields(record);
            &&& holds(
                fields,
                "symbol",
                (match record.op {
                    ResolvedGemmOp::Nn => "gemm_bi_nn_zero_reduction_v1",
                    ResolvedGemmOp::Tn => "gemm_bi_tn_zero_reduction_v1",
                    ResolvedGemmOp::Nt => "gemm_bi_nt_zero_reduction_v1",
                }).spec_bytes(),
            )
            &&& holds(fields, "op", seq![record.op.code()])
            &&& holds_product(fields, record.shape, record.alpha, record.beta)
            &&& holds_wide(fields, "output-offset", 0)
            &&& holds_wide(
                fields,
                "null-pointer-mask",
                2 + 4 + (if record.without_bias {
                    8int
                } else {
                    0
                }),
            )
        }),
{
    let fields = scalar_routes::zero_argument_fields(record);
    held(
        fields,
        0,
        "symbol",
        (match record.op {
            ResolvedGemmOp::Nn => "gemm_bi_nn_zero_reduction_v1",
            ResolvedGemmOp::Tn => "gemm_bi_tn_zero_reduction_v1",
            ResolvedGemmOp::Nt => "gemm_bi_nt_zero_reduction_v1",
        }).spec_bytes(),
    );
    held(fields, 1, "op", seq![record.op.code()]);
    product_is_held(fields, 2, record.shape, record.alpha, record.beta);
    held(fields, 10, "output-offset", digest::le_bytes(0, 8));
    held(
        fields,
        11,
        "null-pointer-mask",
        digest::le_bytes(
            2 + 4 + (if record.without_bias {
                8int
            } else {
                0
            }),
            8,
        ),
    );
}

/// The resources of a half-precision kernel are its symbol, its module, the
/// threads of a block and the dynamic shared memory, each under its own name.
pub proof fn half_resources_are_bound(
    identity: HalfKernelIdentity,
    config: LaunchConfig,
)
    ensures
        ({
            let fields = half_routes::half_resource_fields(identity, config);
            &&& fields.len() == 4
            &&& holds(fields, "symbol", identity.symbol.spec_bytes())
            &&& holds(fields, "module-kind", seq![identity.module_kind.code()])
            &&& holds_narrow(
                fields,
                "threads",
                config.block_dim.0 * config.block_dim.1 * config.block_dim.2,
            )
            &&& holds_narrow(
                fields,
                "dynamic-shared-memory-bytes",
                config.shared_mem_bytes as int,
            )
        }),
{
    let fields = half_routes::half_resource_fields(identity, config);
    held(fields, 0, "symbol", identity.symbol.spec_bytes());
    held(fields, 1, "module-kind", seq![identity.module_kind.code()]);
    held(
        fields,
        2,
        "threads",
        digest::le_bytes(config.block_dim.0 * config.block_dim.1 * config.block_dim.2, 4),
    );
    held(
        fields,
        3,
        "dynamic-shared-memory-bytes",
        digest::le_bytes(config.shared_mem_bytes as int, 4),
    );
}

} // verus!
