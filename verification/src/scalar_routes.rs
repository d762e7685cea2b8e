//! Resolved routes of the scalar launches.

use crate::arith;
use crate::arith::{checked_i32, checked_u32};
use crate::digest;
use crate::digest::{no_digest, u32_le, u64_le, Field, FramedSha256, Sha256Digest};
use crate::error::LaunchError;
use crate::identity::{
    CompilerIdentity, GemmRouteIdentity, ModuleKind, PhysicalGemmBackend, PolicyDtype,
    ResolvedGemmRoute, ResolvedInstructionFamily, ResolvedInstructionShape,
    ResolvedNumericContract, ResolvedOperandConversion, ResolvedOutputOwnership, TableRevisions,
};
use crate::kernel::{LaunchConfig, ResolvedKernelLaunch};
use crate::scalar_nodes;
use crate::scalar_nodes::ScalarNodeSpec;
use crate::scalar_plan::ScalarDispatchPlan;
use crate::shape::{F32TriadOperands, F32TriadRequest, F32TriadShape, ResolvedGemmOp};
use crate::text;
use crate::text::{contains_text, same_text};
use crate::params::SgbZeroReductionParams;
use vstd::prelude::*;
use vstd::string::StringSliceAdditionalSpecFns;

verus! {

/// Backend, numeric contract and output ownership of one kernel.
pub type RouteContract = (
    PhysicalGemmBackend,
    ResolvedNumericContract,
    ResolvedOutputOwnership,
);

/// The contract that the launch of a symbol is recorded under.
pub open spec fn route_contract(symbol: &str) -> RouteContract {
    if symbol@ == "gemm_bi_nn_splitk32_partial"@ || symbol@ == "gemm_bi_nn_splitk_slim_partial"@
        || symbol@ == "gemm_bi_nn_splitk32_m32n64_exact_v1"@ {
        (
            PhysicalGemmBackend::ScalarFmaSplitKPartialV1,
            ResolvedNumericContract::ScalarFmaSplitKPartialV1,
            ResolvedOutputOwnership::OneCtaPerOutputTilePerSplitKPartitionV1,
        )
    } else if symbol@ == "gemm_bi_splitk_reduce"@ {
        (
            PhysicalGemmBackend::ScalarFmaSplitKF32ReduceV1,
            ResolvedNumericContract::ScalarFmaSplitKF32ReduceV1,
            ResolvedOutputOwnership::OneThreadPerOutputElementFixedSplitKReduceV1,
        )
    } else if text::occurs(symbol.spec_bytes(), "_tn_narrow_splitm_partial".spec_bytes()) {
        (
            PhysicalGemmBackend::ScalarFmaTnNarrowSplitMPartialV1,
            ResolvedNumericContract::ScalarFmaTnNarrowSplitMPartialV1,
            ResolvedOutputOwnership::OneCtaPerOutputTileV1,
        )
    } else if symbol@ == "gemm_bi_splitm_reduce"@ {
        (
            PhysicalGemmBackend::ScalarFmaTnSplitMF64ReduceV1,
            ResolvedNumericContract::ScalarFmaTnSplitMF64ReduceV1,
            ResolvedOutputOwnership::OneThreadPerOutputElementFixedSplitMReduceV1,
        )
    } else if symbol@ == "gemm_bi_tn_m16n16_bk16_s2_splitm16_v1"@ {
        (
            PhysicalGemmBackend::ScalarFmaTnSplitMF64ReduceV1,
            ResolvedNumericContract::ScalarFmaTnSplitMF64ReduceV1,
            ResolvedOutputOwnership::OneCtaPerOutputTileV1,
        )
    } else {
        (
            PhysicalGemmBackend::ScalarFmaV1,
            ResolvedNumericContract::ScalarFmaV1,
            ResolvedOutputOwnership::OneCtaPerOutputTileV1,
        )
    }
}

/// The contract that the launch of a symbol is recorded under.
pub fn scalar_route_contract(symbol: &str) -> (contract: RouteContract)
    ensures
        contract == route_contract(symbol),
{
    if same_text(symbol, "gemm_bi_nn_splitk32_partial") || same_text(
        symbol,
        "gemm_bi_nn_splitk_slim_partial",
    ) || same_text(symbol, "gemm_bi_nn_splitk32_m32n64_exact_v1") {
        return (
            PhysicalGemmBackend::ScalarFmaSplitKPartialV1,
            ResolvedNumericContract::ScalarFmaSplitKPartialV1,
            ResolvedOutputOwnership::OneCtaPerOutputTilePerSplitKPartitionV1,
        );
    }
    if same_text(symbol, "gemm_bi_splitk_reduce") {
        return (
            PhysicalGemmBackend::ScalarFmaSplitKF32ReduceV1,
            ResolvedNumericContract::ScalarFmaSplitKF32ReduceV1,
            ResolvedOutputOwnership::OneThreadPerOutputElementFixedSplitKReduceV1,
        );
    }
    if contains_text(symbol, "_tn_narrow_splitm_partial") {
        return (
            PhysicalGemmBackend::ScalarFmaTnNarrowSplitMPartialV1,
            ResolvedNumericContract::ScalarFmaTnNarrowSplitMPartialV1,
            ResolvedOutputOwnership::OneCtaPerOutputTileV1,
        );
    }
    if same_text(symbol, "gemm_bi_splitm_reduce") {
        return (
            PhysicalGemmBackend::ScalarFmaTnSplitMF64ReduceV1,
            ResolvedNumericContract::ScalarFmaTnSplitMF64ReduceV1,
            ResolvedOutputOwnership::OneThreadPerOutputElementFixedSplitMReduceV1,
        );
    }
    if same_text(symbol, "gemm_bi_tn_m16n16_bk16_s2_splitm16_v1") {
        return (
            PhysicalGemmBackend::ScalarFmaTnSplitMF64ReduceV1,
            ResolvedNumericContract::ScalarFmaTnSplitMF64ReduceV1,
            ResolvedOutputOwnership::OneCtaPerOutputTileV1,
        );
    }
    (
        PhysicalGemmBackend::ScalarFmaV1,
        ResolvedNumericContract::ScalarFmaV1,
        ResolvedOutputOwnership::OneCtaPerOutputTileV1,
    )
}

/// The threads of a block fit a launch dimension.
pub open spec fn block_fits(launch: ResolvedKernelLaunch) -> bool {
    &&& launch.block_dim.0 * launch.block_dim.1 <= u32::MAX
    &&& launch.block_dim.0 * launch.block_dim.1 * launch.block_dim.2 <= u32::MAX
}

/// The recorded route of one frozen scalar launch.
pub open spec fn resolved_route(
    context: GemmRouteIdentity,
    compiler: CompilerIdentity,
    revisions: TableRevisions,
    request: F32TriadRequest,
    resources_digest: Sha256Digest,
    node: ScalarNodeSpec,
) -> ResolvedGemmRoute {
    let contract = route_contract(node.symbol);
    ResolvedGemmRoute {
        op: request.op,
        dtype: PolicyDtype::F32,
        backend: contract.0,
        numeric_contract: contract.1,
        instruction_family: ResolvedInstructionFamily::ScalarFma,
        instruction_shape: ResolvedInstructionShape { m: 1, n: 1, k: 1 },
        operand_conversion: ResolvedOperandConversion::Unconverted,
        ownership: contract.2,
        symbol: node.symbol,
        module_kind: ModuleKind::TriadScalar,
        target: compiler.target,
        artifact: context.artifacts.triad_scalar,
        compiler,
        device: context.device,
        device_caps: context.device_caps,
        shape: (request.shape.m, request.shape.k, request.shape.n),
        strides: (request.shape.lda, request.shape.ldb, request.shape.ldc),
        tile: node.tile,
        bk: node.bk,
        stages: node.stages,
        threads: (node.launch.block_dim.0 * node.launch.block_dim.1
            * node.launch.block_dim.2) as u32,
        launch: node.launch,
        tensor_map_revision: 0,
        tensor_maps_digest: digest::zero_digest(),
        resources_digest,
        tuning_table_revision: revisions.tuning_table,
        schedule_revision: revisions.schedule,
    }
}

fn build_resolved_route(
    context: &GemmRouteIdentity,
    compiler: &CompilerIdentity,
    revisions: TableRevisions,
    request: F32TriadRequest,
    resources_digest: Sha256Digest,
    node: &ScalarNodeSpec,
) -> (route: ResolvedGemmRoute)
    requires
        block_fits(node.launch),
    ensures
        route == resolved_route(*context, *compiler, revisions, request, resources_digest, *node),
{
    let (backend, numeric_contract, ownership) = scalar_route_contract(node.symbol);
    ResolvedGemmRoute {
        op: request.op,
        dtype: PolicyDtype::F32,
        backend,
        numeric_contract,
        instruction_family: ResolvedInstructionFamily::ScalarFma,
        instruction_shape: ResolvedInstructionShape { m: 1, n: 1, k: 1 },
        operand_conversion: ResolvedOperandConversion::Unconverted,
        ownership,
        symbol: node.symbol,
        module_kind: ModuleKind::TriadScalar,
        target: compiler.target,
        artifact: context.artifacts.triad_scalar,
        compiler: *compiler,
        device: context.device,
        device_caps: context.device_caps,
        shape: (request.shape.m, request.shape.k, request.shape.n),
        strides: (request.shape.lda, request.shape.ldb, request.shape.ldc),
        tile: node.tile,
        bk: node.bk,
        stages: node.stages,
        threads: node.launch.block_dim.0 * node.launch.block_dim.1 * node.launch.block_dim.2,
        launch: node.launch,
        tensor_map_revision: 0,
        tensor_maps_digest: no_digest(),
        resources_digest,
        tuning_table_revision: revisions.tuning_table,
        schedule_revision: revisions.schedule,
    }
}

/// The recorded routes of the frozen launches of a plan, in order.
pub fn scalar_resolved_routes(
    context: &GemmRouteIdentity,
    compiler: &CompilerIdentity,
    revisions: TableRevisions,
    request: F32TriadRequest,
    resources_digest: Sha256Digest,
    nodes: &Vec<ScalarNodeSpec>,
) -> (routes: Vec<ResolvedGemmRoute>)
    requires
        forall|i: int| 0 <= i < nodes@.len() ==> block_fits((#[trigger] nodes@[i]).launch),
    ensures
        routes@ == Seq::new(
            nodes@.len(),
            |i: int| resolved_route(
                *context,
                *compiler,
                revisions,
                request,
                resources_digest,
                nodes@[i],
            ),
        ),
{
    let mut routes: Vec<ResolvedGemmRoute> = Vec::new();
    let mut i: usize = 0;
    while i < nodes.len()
        invariant
            i <= nodes@.len(),
            forall|i: int| 0 <= i < nodes@.len() ==> block_fits((#[trigger] nodes@[i]).launch),
            routes@ == Seq::new(
                i as nat,
                |i: int| resolved_route(
                    *context,
                    *compiler,
                    revisions,
                    request,
                    resources_digest,
                    nodes@[i],
                ),
            ),
        decreases nodes@.len() - i,
    {
        routes.push(
            build_resolved_route(context, compiler, revisions, request, resources_digest, &nodes[i]),
        );
        i = i + 1;
        assert(routes@ =~= Seq::new(
            i as nat,
            |i: int| resolved_route(
                *context,
                *compiler,
                revisions,
                request,
                resources_digest,
                nodes@[i],
            ),
        ));
    }
    routes
}

/// A block of at most 256 by 32 threads.
spec fn small_block(config: LaunchConfig) -> bool {
    config.block_dim.0 <= 256 && config.block_dim.1 <= 32 && config.block_dim.2 == 1
}

#[verifier::spinoff_prover]
#[verifier::rlimit(60)]
proof fn geometry_blocks_are_small(
    operands: F32TriadOperands,
    plan: ScalarDispatchPlan,
    m: u32,
    k: u32,
    n: u32,
)
    ensures
        scalar_nodes::node_geometry(operands, plan, m, k, n) matches Ok(nodes) ==> forall|i: int|
            0 <= i < nodes.len() ==> small_block((#[trigger] nodes[i]).config),
{
}

/// The blocks of every frozen launch have a recordable thread count.
pub proof fn frozen_blocks_fit(
    request: F32TriadRequest,
    operands: F32TriadOperands,
    plan: ScalarDispatchPlan,
)
    ensures
        scalar_nodes::physical_nodes(request, operands, plan) matches Ok(nodes) ==> forall|i: int|
            0 <= i < nodes.len() ==> block_fits((#[trigger] nodes[i]).launch),
{
    if let Ok(nodes) = scalar_nodes::physical_nodes(request, operands, plan) {
        let m = request.shape.m as u32;
        let k = request.shape.k as u32;
        let n = request.shape.n as u32;
        geometry_blocks_are_small(operands, plan, m, k, n);
        let geometry = scalar_nodes::node_geometry(operands, plan, m, k, n)->Ok_0;
        assert forall|i: int| 0 <= i < nodes.len() implies block_fits(
            (#[trigger] nodes[i]).launch,
        ) by {
            assert(small_block(geometry[i].config));
            let block = nodes[i].launch.block_dim;
            assert(block.0 * block.1 <= 8_192) by (nonlinear_arith)
                requires
                    block.0 <= 256,
                    block.1 <= 32,
            ;
        }
    }
}

/// The kernel that writes the epilogue of an empty reduction.
#[verifier::allow_in_spec]
pub fn scalar_zero_symbol(op: ResolvedGemmOp) -> &'static str
    returns
        (match op {
            ResolvedGemmOp::Nn => "gemm_bi_nn_zero_reduction_v1",
            ResolvedGemmOp::Tn => "gemm_bi_tn_zero_reduction_v1",
            ResolvedGemmOp::Nt => "gemm_bi_nt_zero_reduction_v1",
        }),
{
    match op {
        ResolvedGemmOp::Nn => "gemm_bi_nn_zero_reduction_v1",
        ResolvedGemmOp::Tn => "gemm_bi_tn_zero_reduction_v1",
        ResolvedGemmOp::Nt => "gemm_bi_nt_zero_reduction_v1",
    }
}

/// A prepared empty reduction: its recorded route, parameters and geometry.
#[derive(Clone, Copy, Debug, PartialEq, Eq)]
pub struct PreparedScalarZero {
    pub route: ResolvedGemmRoute,
    pub params: SgbZeroReductionParams,
    pub config: LaunchConfig,
}

/// Everything that the argument digest of an empty reduction binds.
pub struct ZeroArgumentRecord {
    pub op: ResolvedGemmOp,
    pub shape: F32TriadShape,
    pub alpha: u32,
    pub beta: u32,
    pub without_bias: bool,
}

/// The transcript fields of an empty reduction.
pub open spec fn zero_argument_fields(record: ZeroArgumentRecord) -> Seq<Field> {
    seq![
        digest::field("symbol", scalar_zero_symbol(record.op).spec_bytes()),
        digest::field("op", seq![record.op.code()]),
        digest::field("m", digest::le_bytes(record.shape.m as int, 8)),
        digest::field("k", digest::le_bytes(record.shape.k as int, 8)),
        digest::field("n", digest::le_bytes(record.shape.n as int, 8)),
        digest::field("lda", digest::le_bytes(record.shape.lda as int, 8)),
        digest::field("ldb", digest::le_bytes(record.shape.ldb as int, 8)),
        digest::field("ldc", digest::le_bytes(record.shape.ldc as int, 8)),
        digest::field("alpha", digest::le_bytes(record.alpha as int, 4)),
        digest::field("beta", digest::le_bytes(record.beta as int, 4)),
        digest::field("output-offset", digest::le_bytes(0, 8)),
        digest::field(
            "null-pointer-mask",
            digest::le_bytes(if record.without_bias { 0b1110 } else { 0b110 }, 8),
        ),
    ]
}

/// The argument digest of an empty reduction.
pub open spec fn zero_arguments_digest(
    request: F32TriadRequest,
    operands: F32TriadOperands,
) -> Sha256Digest {
    digest::sha256(
        digest::transcript(
            "triad-scalar-zero-reduction-arguments.v1".spec_bytes(),
            zero_argument_fields(
                ZeroArgumentRecord {
                    op: request.op,
                    shape: request.shape,
                    alpha: operands.alpha,
                    beta: operands.beta,
                    without_bias: operands.bias is None,
                },
            ),
        ),
    )
}

/// The argument digest of an empty reduction.
pub fn scalar_zero_arguments_digest(
    request: F32TriadRequest,
    operands: F32TriadOperands,
) -> (digest: Sha256Digest)
    ensures
        digest == zero_arguments_digest(request, operands),
{
    let mask: u64 = if operands.bias.is_none() { 0b1110 } else { 0b110 };
    let mut op: Vec<u8> = Vec::new();
    op.push(request.op.code());
    let b = FramedSha256::new("triad-scalar-zero-reduction-arguments.v1");
    let b = b.required("symbol", scalar_zero_symbol(request.op).as_bytes());
    let b = b.required("op", op.as_slice());
    let b = b.required("m", u64_le(request.shape.m as u64).as_slice());
    let b = b.required("k", u64_le(request.shape.k as u64).as_slice());
    let b = b.required("n", u64_le(request.shape.n as u64).as_slice());
    let b = b.required("lda", u64_le(request.shape.lda as u64).as_slice());
    let b = b.required("ldb", u64_le(request.shape.ldb as u64).as_slice());
    let b = b.required("ldc", u64_le(request.shape.ldc as u64).as_slice());
    let b = b.required("alpha", u32_le(operands.alpha).as_slice());
    let b = b.required("beta", u32_le(operands.beta).as_slice());
    let b = b.required("output-offset", u64_le(0).as_slice());
    let b = b.required("null-pointer-mask", u64_le(mask).as_slice());
    proof {
        assert(op@ =~= seq![request.op.code()]);
        assert(b.fields() =~= zero_argument_fields(
            ZeroArgumentRecord {
                op: request.op,
                shape: request.shape,
                alpha: operands.alpha,
                beta: operands.beta,
                without_bias: operands.bias is None,
            },
        ));
    }
    b.finish()
}

proof fn zero_symbol_is_short(op: ResolvedGemmOp)
    ensures
        scalar_zero_symbol(op).spec_bytes().len() == 28,
{
    reveal_strlit("gemm_bi_nn_zero_reduction_v1");
    reveal_strlit("gemm_bi_tn_zero_reduction_v1");
    reveal_strlit("gemm_bi_nt_zero_reduction_v1");
    vstd::utf8::is_ascii_chars_encode_utf8(scalar_zero_symbol(op)@);
}

/// The bytes under the argument digest of an empty reduction identify the
/// product, its shape, the bits of both factors and whether there is a bias.
pub proof fn zero_arguments_identify(left: ZeroArgumentRecord, right: ZeroArgumentRecord)
    requires
        digest::transcript(
            "triad-scalar-zero-reduction-arguments.v1".spec_bytes(),
            zero_argument_fields(left),
        ) == digest::transcript(
            "triad-scalar-zero-reduction-arguments.v1".spec_bytes(),
            zero_argument_fields(right),
        ),
    ensures
        left == right,
{
    let l = zero_argument_fields(left);
    let r = zero_argument_fields(right);
    zero_symbol_is_short(left.op);
    zero_symbol_is_short(right.op);
    digest::le_bytes_len_all();
    assert(digest::same_labels(l, r));
    digest::transcript_values_injective(
        "triad-scalar-zero-reduction-arguments.v1".spec_bytes(),
        l,
        r,
    );
    assert(l[1].value == r[1].value);
    assert(seq![left.op.code()][0] == seq![right.op.code()][0]);
    assert(l[2].value == r[2].value);
    digest::le_bytes_u64_injective(left.shape.m as u64, right.shape.m as u64);
    assert(l[3].value == r[3].value);
    digest::le_bytes_u64_injective(left.shape.k as u64, right.shape.k as u64);
    assert(l[4].value == r[4].value);
    digest::le_bytes_u64_injective(left.shape.n as u64, right.shape.n as u64);
    assert(l[5].value == r[5].value);
    digest::le_bytes_u64_injective(left.shape.lda as u64, right.shape.lda as u64);
    assert(l[6].value == r[6].value);
    digest::le_bytes_u64_injective(left.shape.ldb as u64, right.shape.ldb as u64);
    assert(l[7].value == r[7].value);
    digest::le_bytes_u64_injective(left.shape.ldc as u64, right.shape.ldc as u64);
    assert(l[8].value == r[8].value);
    digest::le_bytes_u32_injective(left.alpha, right.alpha);
    assert(l[9].value == r[9].value);
    digest::le_bytes_u32_injective(left.beta, right.beta);
    assert(l[11].value == r[11].value);
    digest::le_bytes_u64_injective(
        if left.without_bias { 0b1110 } else { 0b110 },
        if right.without_bias { 0b1110 } else { 0b110 },
    );
}

/// The grid of an empty reduction: one thread per output.
pub open spec fn zero_reduction_config(request: F32TriadRequest) -> Result<
    LaunchConfig,
    LaunchError,
> {
    let rows = request.shape.output_rows(request.op);
    let columns = request.shape.output_columns(request.op);
    if rows * columns > usize::MAX {
        Err(LaunchError::InvalidDimensions("zero-reduction output size overflows usize"))
    } else {
        match checked_u32(
            arith::ceil_div(rows * columns, 256) as usize,
            "zero-reduction grid.x",
        ) {
            Err(error) => Err(error),
            Ok(grid) => Ok(LaunchConfig::linear(grid, 256, 0)),
        }
    }
}

fn build_zero_reduction_config(request: F32TriadRequest) -> (result: Result<
    LaunchConfig,
    LaunchError,
>)
    ensures
        result == zero_reduction_config(request),
{
    let rows: usize = request.shape.output_rows(request.op);
    let columns: usize = request.shape.output_columns(request.op);
    match rows.checked_mul(columns) {
        None => Err(LaunchError::InvalidDimensions("zero-reduction output size overflows usize")),
        Some(total) => {
            let blocks: usize = if total % 256 == 0 { total / 256 } else { total / 256 + 1 };
            let grid: u32 = checked_u32(blocks, "zero-reduction grid.x")?;
            Ok(LaunchConfig::linear(grid, 256, 0))
        },
    }
}

/// The parameters of an empty reduction.
pub open spec fn zero_reduction_params(
    request: F32TriadRequest,
    operands: F32TriadOperands,
) -> Result<SgbZeroReductionParams, LaunchError> {
    let shape = request.shape;
    if shape.m > i32::MAX {
        Err(LaunchError::ExceedsI32("M"))
    } else if shape.k > i32::MAX {
        Err(LaunchError::ExceedsI32("K"))
    } else if shape.n > i32::MAX {
        Err(LaunchError::ExceedsI32("N"))
    } else if shape.lda > i32::MAX {
        Err(LaunchError::ExceedsI32("lda"))
    } else if shape.ldb > i32::MAX {
        Err(LaunchError::ExceedsI32("ldb"))
    } else if shape.ldc > i32::MAX {
        Err(LaunchError::ExceedsI32("ldc"))
    } else {
        Ok(
            SgbZeroReductionParams {
                alpha: operands.alpha,
                beta: operands.beta,
                m: shape.m as i32,
                k: shape.k as i32,
                n: shape.n as i32,
                lda: shape.lda as i32,
                ldb: shape.ldb as i32,
                ldc: shape.ldc as i32,
            },
        )
    }
}

fn build_zero_reduction_params(request: F32TriadRequest, operands: F32TriadOperands) -> (result:
    Result<SgbZeroReductionParams, LaunchError>)
    ensures
        result == zero_reduction_params(request, operands),
{
    let m: i32 = checked_i32(request.shape.m, "M")?;
    let k: i32 = checked_i32(request.shape.k, "K")?;
    let n: i32 = checked_i32(request.shape.n, "N")?;
    let lda: i32 = checked_i32(request.shape.lda, "lda")?;
    let ldb: i32 = checked_i32(request.shape.ldb, "ldb")?;
    let ldc: i32 = checked_i32(request.shape.ldc, "ldc")?;
    Ok(
        SgbZeroReductionParams {
            alpha: operands.alpha,
            beta: operands.beta,
            m,
            k,
            n,
            lda,
            ldb,
            ldc,
        },
    )
}

/// The recorded route of an empty reduction.
pub open spec fn zero_route(
    context: GemmRouteIdentity,
    compiler: CompilerIdentity,
    revisions: TableRevisions,
    request: F32TriadRequest,
    maps: (u32, Sha256Digest),
    resources_digest: Sha256Digest,
    config: LaunchConfig,
    arguments_digest: Sha256Digest,
) -> ResolvedGemmRoute {
    ResolvedGemmRoute {
        op: request.op,
        dtype: PolicyDtype::F32,
        backend: PhysicalGemmBackend::ScalarFmaV1,
        numeric_contract: ResolvedNumericContract::ZeroReductionEpilogueF32V1,
        instruction_family: ResolvedInstructionFamily::ScalarFma,
        instruction_shape: ResolvedInstructionShape { m: 1, n: 1, k: 1 },
        operand_conversion: ResolvedOperandConversion::Unconverted,
        ownership: ResolvedOutputOwnership::OneCtaPerOutputTileV1,
        symbol: scalar_zero_symbol(request.op),
        module_kind: ModuleKind::TriadScalar,
        target: compiler.target,
        artifact: context.artifacts.triad_scalar,
        compiler,
        device: context.device,
        device_caps: context.device_caps,
        shape: (request.shape.m, request.shape.k, request.shape.n),
        strides: (request.shape.lda, request.shape.ldb, request.shape.ldc),
        tile: (1, 1),
        bk: 0,
        stages: 1,
        threads: 256,
        launch: ResolvedKernelLaunch {
            grid_dim: config.grid_dim,
            block_dim: config.block_dim,
            shared_mem_bytes: config.shared_mem_bytes,
            arguments_digest,
        },
        tensor_map_revision: maps.0,
        tensor_maps_digest: maps.1,
        resources_digest,
        tuning_table_revision: revisions.tuning_table,
        schedule_revision: revisions.schedule,
    }
}

/// The recorded route of an empty reduction. `maps` is the revision and the
/// identity of the tensor maps that stand for the unread inputs.
pub fn scalar_zero_route(
    context: &GemmRouteIdentity,
    compiler: &CompilerIdentity,
    revisions: TableRevisions,
    request: F32TriadRequest,
    maps: (u32, Sha256Digest),
    resources_digest: Sha256Digest,
    config: LaunchConfig,
    arguments_digest: Sha256Digest,
) -> (route: ResolvedGemmRoute)
    ensures
        route == zero_route(
            *context,
            *compiler,
            revisions,
            request,
            maps,
            resources_digest,
            config,
            arguments_digest,
        ),
{
    ResolvedGemmRoute {
        op: request.op,
        dtype: PolicyDtype::F32,
        backend: PhysicalGemmBackend::ScalarFmaV1,
        numeric_contract: ResolvedNumericContract::ZeroReductionEpilogueF32V1,
        instruction_family: ResolvedInstructionFamily::ScalarFma,
        instruction_shape: ResolvedInstructionShape { m: 1, n: 1, k: 1 },
        operand_conversion: ResolvedOperandConversion::Unconverted,
        ownership: ResolvedOutputOwnership::OneCtaPerOutputTileV1,
        symbol: scalar_zero_symbol(request.op),
        module_kind: ModuleKind::TriadScalar,
        target: compiler.target,
        artifact: context.artifacts.triad_scalar,
        compiler: *compiler,
        device: context.device,
        device_caps: context.device_caps,
        shape: (request.shape.m, request.shape.k, request.shape.n),
        strides: (request.shape.lda, request.shape.ldb, request.shape.ldc),
        tile: (1, 1),
        bk: 0,
        stages: 1,
        threads: 256,
        launch: ResolvedKernelLaunch {
            grid_dim: config.grid_dim,
            block_dim: config.block_dim,
            shared_mem_bytes: config.shared_mem_bytes,
            arguments_digest,
        },
        tensor_map_revision: maps.0,
        tensor_maps_digest: maps.1,
        resources_digest,
        tuning_table_revision: revisions.tuning_table,
        schedule_revision: revisions.schedule,
    }
}

/// Prepares the epilogue of an empty reduction: geometry, recorded route and
/// parameters, in this order of refusal.
pub fn prepare_scalar_zero_f32(
    context: &GemmRouteIdentity,
    compiler: &CompilerIdentity,
    revisions: TableRevisions,
    request: F32TriadRequest,
    operands: F32TriadOperands,
    maps: (u32, Sha256Digest),
    resources_digest: Sha256Digest,
) -> (result: Result<PreparedScalarZero, LaunchError>)
    ensures
        result == (match zero_reduction_config(request) {
            Err(error) => Err::<PreparedScalarZero, LaunchError>(error),
            Ok(config) => match zero_reduction_params(request, operands) {
                Err(error) => Err::<PreparedScalarZero, LaunchError>(error),
                Ok(params) => Ok::<PreparedScalarZero, LaunchError>(
                    PreparedScalarZero {
                        route: zero_route(
                            *context,
                            *compiler,
                            revisions,
                            request,
                            maps,
                            resources_digest,
                            config,
                            zero_arguments_digest(request, operands),
                        ),
                        params,
                        config,
                    },
                ),
            },
        }),
{
    let config = build_zero_reduction_config(request)?;
    let arguments_digest = scalar_zero_arguments_digest(request, operands);
    let route = scalar_zero_route(
        context,
        compiler,
        revisions,
        request,
        maps,
        resources_digest,
        config,
        arguments_digest,
    );
    let params = build_zero_reduction_params(request, operands)?;
    Ok(PreparedScalarZero { route, params, config })
}

} // verus!
