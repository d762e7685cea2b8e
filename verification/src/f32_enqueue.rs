//! Use of prepared f32 launches: the products that they are looked up by,
//! what they enqueue and what is recorded of it.

use crate::control;
use crate::control::{validate_prepared_scalar_binding, PhysicalGraphRecord};
use crate::error::LaunchError;
use crate::f32_launch;
use crate::f32_launch::{
    physical_prepared_f32_route, prepared_f32_launch, PreparedF32Kind, PreparedF32TriadLaunch,
    ScalarPhysicalGraphDispatch,
};
use crate::half_kernel::half_policy_dtype;
use crate::identity::{PolicyDtype, ResolvedGemmRoute, WeightDtype};
use crate::kernel;
use crate::kernel::{LaunchProgram, Program};
use crate::prepared::F32PreparedSelection;
use crate::scalar_dw;
use crate::scalar_dw::gemm_bi_backward_dw_with_control;
use crate::scalar_dx;
use crate::scalar_dx::gemm_bi_backward_dx_with_control;
use crate::scalar_forward;
use crate::scalar_forward::{gemm_bi_forward_sub_with_control, GemmBiFwdSubOperands};
use crate::scalar_launch::{PreparedScalar, ScalarWorkspace};
use crate::scalar_plan::ScalarDispatchPlan;
use crate::shape::{
    F32TriadOperands, F32TriadRequest, F32TriadShape, ResolvedGemmOp, F32_ONE_BITS, F32_ZERO_BITS,
};
use crate::tf32_plan::{Sm120FmaRoute, Sm120FmaTile, Tf32PhysicalRoute};
use vstd::prelude::*;

verus! {

/// How many launches of a program match their prepared routes, counted from
/// one of them on, before one does not.
pub open spec fn bound_count(
    routes: Seq<ResolvedGemmRoute>,
    program: Program,
    from: int,
) -> int
    decreases program.launches.len() - from,
{
    if from < 0 || from >= program.launches.len() {
        from
    } else {
        match control::bind_fault(
            routes,
            from,
            program.launches[from].symbol,
            program.launches[from].config,
        ) {
            Some(_) => from,
            None => bound_count(routes, program, from + 1),
        }
    }
}

/// A program on its prepared routes: launches are enqueued up to the first
/// that does not match.
pub open spec fn bound_program(routes: Seq<ResolvedGemmRoute>, program: Program) -> Program {
    Program {
        launches: program.launches.subrange(0, bound_count(routes, program, 0)),
        outcome: match control::run_fault(routes, program, None, 0) {
            Some(error) => Err(error),
            None => Ok(()),
        },
    }
}

/// Runs a program on its prepared routes.
pub fn run_program(routes: &Vec<ResolvedGemmRoute>, program: LaunchProgram) -> (bound:
    LaunchProgram)
    ensures
        bound@ == bound_program(routes@, program@),
{
    let mut i: usize = 0;
    let mut fault: Option<LaunchError> = None;
    while i < program.launches.len() && fault.is_none()
        invariant
            i <= program.launches@.len(),
            fault is None ==> {
                &&& bound_count(routes@, program@, 0) == bound_count(routes@, program@, i as int)
                &&& control::run_fault(routes@, program@, None, 0) == control::run_fault(
                    routes@,
                    program@,
                    None,
                    i as int,
                )
            },
            fault is Some ==> {
                &&& bound_count(routes@, program@, 0) == i
                &&& control::run_fault(routes@, program@, None, 0) == fault
            },
        decreases
            program.launches@.len() - i,
            (if fault is None {
                1int
            } else {
                0int
            }),
    {
        assert(program@.launches[i as int] == program.launches@[i as int]@);
        if i >= routes.len() {
            fault = Some(LaunchError::UnexpectedKernel(program.launches[i].symbol));
        } else {
            match validate_prepared_scalar_binding(
                routes[i].symbol,
                routes[i].launch,
                program.launches[i].symbol,
                program.launches[i].config,
            ) {
                Err(error) => {
                    fault = Some(error);
                },
                Ok(_) => {
                    i = i + 1;
                },
            }
        }
    }
    let outcome = match fault {
        Some(error) => Err(error),
        None => match program.outcome {
            Err(error) => Err(error),
            Ok(_) => if i == routes.len() {
                Ok(())
            } else {
                Err(LaunchError::MissingKernels(routes.len(), i))
            },
        },
    };
    let ghost all = program@;
    let mut launches = program.launches;
    launches.truncate(i);
    let bound = LaunchProgram { launches, outcome };
    assert(bound@.launches =~= all.launches.subrange(0, i as int));
    bound
}

/// The launch program of a scalar product on its own operands.
pub open spec fn eager_scalar_program(
    request: F32TriadRequest,
    frozen: PreparedScalar,
    dispatch: ScalarPhysicalGraphDispatch,
    workspace: ScalarWorkspace,
) -> Program {
    let unused = Ok::<ScalarDispatchPlan, LaunchError>(frozen.plan);
    match dispatch {
        ScalarPhysicalGraphDispatch::Nn { y, x, w_ptr, bias_ptr, dims } =>
            scalar_forward::forward_sub_program(
            y,
            GemmBiFwdSubOperands { x_ptr: x, lda: request.shape.lda, w_ptr, bias_ptr },
            dims,
            Some(frozen),
            unused,
            workspace,
        ),
        ScalarPhysicalGraphDispatch::Tn { dw_ptr, dy, x_saved, dims } =>
            scalar_dw::backward_dw_program(
            dw_ptr,
            dy,
            x_saved,
            dims,
            Some(frozen),
            unused,
            workspace,
        ),
        ScalarPhysicalGraphDispatch::Nt { dx, dy, w_ptr, dims } => scalar_dx::backward_dx_program(
            dx,
            dy,
            w_ptr,
            dims,
            Some(frozen),
            unused,
            workspace,
        ),
    }
}

/// What a prepared launch enqueues: a scalar plan its program on its
/// prepared routes, any other launch its one kernel, if it is `loaded`.
pub open spec fn enqueued(
    prepared: PreparedF32TriadLaunch,
    dispatch: ScalarPhysicalGraphDispatch,
    workspace: ScalarWorkspace,
    loaded: bool,
) -> Program {
    match prepared.kind {
        PreparedF32Kind::Scalar(plan) => bound_program(
            prepared.routes@,
            eager_scalar_program(
                prepared.request,
                PreparedScalar { plan, operands: prepared.operands },
                dispatch,
                workspace,
            ),
        ),
        _ => Program::start().then_launch(f32_launch::prepared_step(prepared, loaded)),
    }
}

/// Builds what a prepared launch enqueues. A TF32 launch whose kernel is not
/// `loaded` is refused.
pub fn enqueue_validated_prepared_f32_triad(
    prepared: &PreparedF32TriadLaunch,
    dispatch: ScalarPhysicalGraphDispatch,
    workspace: ScalarWorkspace,
    loaded: bool,
) -> (program: LaunchProgram)
    requires
        prepared.wf(),
        prepared.serves(dispatch.op()),
    ensures
        program@ == enqueued(*prepared, dispatch, workspace, loaded),
{
    let plan = match prepared.kind {
        PreparedF32Kind::Scalar(plan) => plan,
        _ => {
            return LaunchProgram::start().then_launch(prepared_f32_launch(prepared, loaded));
        },
    };
    let frozen = PreparedScalar { plan, operands: prepared.operands };
    let program = match dispatch {
        ScalarPhysicalGraphDispatch::Nn { y, x, w_ptr, bias_ptr, dims } => {
            let operands = GemmBiFwdSubOperands {
                x_ptr: x,
                lda: prepared.request.shape.lda,
                w_ptr,
                bias_ptr,
            };
            gemm_bi_forward_sub_with_control(
                y,
                operands,
                dims,
                Some(frozen),
                Ok(plan),
                workspace,
            )
        },
        ScalarPhysicalGraphDispatch::Tn { dw_ptr, dy, x_saved, dims } =>
            gemm_bi_backward_dw_with_control(
            dw_ptr,
            dy,
            x_saved,
            dims,
            Some(frozen),
            Ok(plan),
            workspace,
        ),
        ScalarPhysicalGraphDispatch::Nt { dx, dy, w_ptr, dims } =>
            gemm_bi_backward_dx_with_control(
            dx,
            dy,
            w_ptr,
            dims,
            Some(frozen),
            Ok(plan),
            workspace,
        ),
    };
    run_program(&prepared.routes, program)
}

/// What is recorded of a launch of a prepared product: the scalar kernels
/// keep their route and name their allocations beside it, the others are
/// recorded under their physical route.
pub open spec fn launch_record(
    prepared: PreparedF32TriadLaunch,
    logical_dtype: PolicyDtype,
    index: int,
) -> PhysicalGraphRecord {
    if prepared.kind is Scalar || prepared.kind is ScalarZero {
        PhysicalGraphRecord {
            logical_dtype,
            physical_resources: Some(prepared.physical_resources),
            route: prepared.routes@[index],
        }
    } else {
        PhysicalGraphRecord {
            logical_dtype,
            physical_resources: None,
            route: f32_launch::physical_route(prepared, prepared.routes@[index]),
        }
    }
}

/// Records a launch of a prepared product.
pub fn record_prepared_launch(
    prepared: &PreparedF32TriadLaunch,
    logical_dtype: PolicyDtype,
    index: usize,
) -> (record: PhysicalGraphRecord)
    requires
        index < prepared.routes@.len(),
    ensures
        record == launch_record(*prepared, logical_dtype, index as int),
{
    match prepared.kind {
        PreparedF32Kind::Scalar(_) | PreparedF32Kind::ScalarZero { .. } => PhysicalGraphRecord {
            logical_dtype,
            physical_resources: Some(prepared.physical_resources),
            route: prepared.routes[index],
        },
        _ => PhysicalGraphRecord {
            logical_dtype,
            physical_resources: None,
            route: physical_prepared_f32_route(prepared, prepared.routes[index]),
        },
    }
}

proof fn all_launches_bind(routes: Seq<ResolvedGemmRoute>, program: Program, from: int)
    requires
        0 <= from <= program.launches.len(),
        control::run_fault(routes, program, None, from) == None::<LaunchError>,
    ensures
        bound_count(routes, program, from) == program.launches.len(),
        program.outcome is Ok,
    decreases program.launches.len() - from,
{
    if from < program.launches.len() {
        all_launches_bind(routes, program, from + 1);
    }
}

/// The graph nodes of a prepared scalar product hold exactly the launches
/// that it enqueues eagerly, under the same records, whenever the eager
/// launch goes through on the operands that were prepared.
pub proof fn graph_nodes_replay_the_eager_program(
    prepared: PreparedF32TriadLaunch,
    logical_dtype: PolicyDtype,
    dispatch: ScalarPhysicalGraphDispatch,
    workspace: ScalarWorkspace,
    loaded: bool,
    result: Result<control::PreparedTriadPhysicalGraphSequence, LaunchError>,
)
    requires
        prepared.kind is Scalar,
        f32_launch::changed_input(prepared.operands, dispatch) is None,
        f32_launch::scalar_graph_result(
            prepared,
            logical_dtype,
            dispatch,
            workspace,
            Ok::<(), LaunchError>(()),
            result,
        ),
    ensures
        match enqueued(prepared, dispatch, workspace, loaded).outcome {
            Err(error) => result == Err::<control::PreparedTriadPhysicalGraphSequence, LaunchError>(
                error,
            ),
            Ok(_) => {
                &&& result is Ok
                &&& result->Ok_0.launches@.len() == enqueued(
                    prepared,
                    dispatch,
                    workspace,
                    loaded,
                ).launches.len()
                &&& forall|i: int|
                    0 <= i < result->Ok_0.launches@.len() ==> control::captures(
                        #[trigger] result->Ok_0.launches@[i],
                        enqueued(prepared, dispatch, workspace, loaded).launches[i],
                        launch_record(prepared, logical_dtype, i),
                    )
            },
        },
{
    let frozen = PreparedScalar { plan: prepared.kind->Scalar_0, operands: prepared.operands };
    let program = eager_scalar_program(prepared.request, frozen, dispatch, workspace);
    assert(program == f32_launch::scalar_graph_program(
        prepared.request,
        frozen,
        dispatch,
        workspace,
    ));
    if control::run_fault(prepared.routes@, program, None, 0) is None {
        all_launches_bind(prepared.routes@, program, 0);
        assert(program.launches.subrange(0, program.launches.len() as int) =~= program.launches);
    }
}

/// A product as it is looked up among the prepared launches, and the
/// addresses that its launch program runs on.
#[derive(Clone, Copy, Debug, PartialEq, Eq)]
pub struct CachedProduct {
    pub request: F32TriadRequest,
    pub operands: F32TriadOperands,
    pub dispatch: ScalarPhysicalGraphDispatch,
}

/// An input address: an empty reduction has none.
#[verifier::allow_in_spec]
pub fn input_address(request: F32TriadRequest, address: u64) -> u64
    returns
        (if request.shape.reduction(request.op) == 0 {
            0u64
        } else {
            address
        }),
{
    if request.shape.reduction(request.op) == 0 {
        0
    } else {
        address
    }
}

/// A bias address: null means no bias.
#[verifier::allow_in_spec]
pub fn optional_bias(bias_ptr: u64) -> Option<u64>
    returns
        (if bias_ptr != 0 {
            Some(bias_ptr)
        } else {
            None::<u64>
        }),
{
    if bias_ptr != 0 {
        Some(bias_ptr)
    } else {
        None
    }
}

/// The densely packed product of an operation.
#[verifier::allow_in_spec]
pub fn dense_request(op: ResolvedGemmOp, dims: (usize, usize, usize)) -> F32TriadRequest
    returns
        (F32TriadRequest { op, shape: F32TriadShape::contiguous(op, dims) }),
{
    F32TriadRequest { op, shape: F32TriadShape::contiguous(op, dims) }
}

/// A forward product, `y = x @ w + bias`.
#[verifier::allow_in_spec]
pub fn cached_f32_forward(
    y: u64,
    x: u64,
    w_ptr: u64,
    bias_ptr: u64,
    dims: (usize, usize, usize),
) -> CachedProduct
    returns
        ({
            let request = dense_request(ResolvedGemmOp::Nn, dims);
            CachedProduct {
                request,
                operands: F32TriadOperands {
                    output: y,
                    a: input_address(request, x),
                    b: input_address(request, w_ptr),
                    bias: optional_bias(bias_ptr),
                    alpha: F32_ONE_BITS,
                    beta: F32_ZERO_BITS,
                },
                dispatch: ScalarPhysicalGraphDispatch::Nn {
                    y,
                    x: input_address(request, x),
                    w_ptr: input_address(request, w_ptr),
                    bias_ptr,
                    dims,
                },
            }
        }),
{
    let request = dense_request(ResolvedGemmOp::Nn, dims);
    let a: u64 = input_address(request, x);
    let b: u64 = input_address(request, w_ptr);
    CachedProduct {
        request,
        operands: F32TriadOperands {
            output: y,
            a,
            b,
            bias: optional_bias(bias_ptr),
            alpha: F32_ONE_BITS,
            beta: F32_ZERO_BITS,
        },
        dispatch: ScalarPhysicalGraphDispatch::Nn { y, x: a, w_ptr: b, bias_ptr, dims },
    }
}

/// A weight gradient, `dw += x^T @ dy`.
#[verifier::allow_in_spec]
pub fn cached_f32_backward_dw(
    dw_ptr: u64,
    dy: u64,
    x_saved: u64,
    dims: (usize, usize, usize),
) -> CachedProduct
    returns
        ({
            let request = dense_request(ResolvedGemmOp::Tn, dims);
            CachedProduct {
                request,
                operands: F32TriadOperands {
                    output: dw_ptr,
                    a: input_address(request, x_saved),
                    b: input_address(request, dy),
                    bias: None,
                    alpha: F32_ONE_BITS,
                    beta: F32_ONE_BITS,
                },
                dispatch: ScalarPhysicalGraphDispatch::Tn { dw_ptr, dy, x_saved, dims },
            }
        }),
{
    let request = dense_request(ResolvedGemmOp::Tn, dims);
    CachedProduct {
        request,
        operands: F32TriadOperands {
            output: dw_ptr,
            a: input_address(request, x_saved),
            b: input_address(request, dy),
            bias: None,
            alpha: F32_ONE_BITS,
            beta: F32_ONE_BITS,
        },
        dispatch: ScalarPhysicalGraphDispatch::Tn { dw_ptr, dy, x_saved, dims },
    }
}

/// An input gradient, `dx = dy @ w^T`.
#[verifier::allow_in_spec]
pub fn cached_f32_backward_dx(
    dx: u64,
    dy: u64,
    w_ptr: u64,
    dims: (usize, usize, usize),
) -> CachedProduct
    returns
        ({
            let request = dense_request(ResolvedGemmOp::Nt, dims);
            CachedProduct {
                request,
                operands: F32TriadOperands {
                    output: dx,
                    a: input_address(request, dy),
                    b: input_address(request, w_ptr),
                    bias: None,
                    alpha: F32_ONE_BITS,
                    beta: F32_ZERO_BITS,
                },
                dispatch: ScalarPhysicalGraphDispatch::Nt { dx, dy, w_ptr, dims },
            }
        }),
{
    let request = dense_request(ResolvedGemmOp::Nt, dims);
    CachedProduct {
        request,
        operands: F32TriadOperands {
            output: dx,
            a: input_address(request, dy),
            b: input_address(request, w_ptr),
            bias: None,
            alpha: F32_ONE_BITS,
            beta: F32_ZERO_BITS,
        },
        dispatch: ScalarPhysicalGraphDispatch::Nt { dx, dy, w_ptr, dims },
    }
}

/// A product of half tensors that falls back to the scalar f32 kernels: it
/// is prepared on its addresses as they are and recorded under its half
/// element type.
#[verifier::allow_in_spec]
pub fn exact_scalar_product(
    dispatch: ScalarPhysicalGraphDispatch,
    dtype: WeightDtype,
) -> Result<(CachedProduct, PolicyDtype), LaunchError>
    returns
        (match half_policy_dtype(dtype) {
            Err(error) => Err::<(CachedProduct, PolicyDtype), LaunchError>(error),
            Ok(logical_dtype) => Ok::<(CachedProduct, PolicyDtype), LaunchError>(
                (fallback_product(dispatch), logical_dtype),
            ),
        }),
{
    match half_policy_dtype(dtype) {
        Err(error) => Err(error),
        Ok(logical_dtype) => Ok((fallback_product(dispatch), logical_dtype)),
    }
}

/// The f32 product on the addresses of a dispatch.
#[verifier::allow_in_spec]
pub fn fallback_product(dispatch: ScalarPhysicalGraphDispatch) -> CachedProduct
    returns
        (match dispatch {
            ScalarPhysicalGraphDispatch::Nn { y, x, w_ptr, bias_ptr, dims } => CachedProduct {
                request: dense_request(ResolvedGemmOp::Nn, dims),
                operands: F32TriadOperands {
                    output: y,
                    a: x,
                    b: w_ptr,
                    bias: optional_bias(bias_ptr),
                    alpha: F32_ONE_BITS,
                    beta: F32_ZERO_BITS,
                },
                dispatch,
            },
            ScalarPhysicalGraphDispatch::Tn { dw_ptr, dy, x_saved, dims } => CachedProduct {
                request: dense_request(ResolvedGemmOp::Tn, dims),
                operands: F32TriadOperands {
                    output: dw_ptr,
                    a: x_saved,
                    b: dy,
                    bias: None,
                    alpha: F32_ONE_BITS,
                    beta: F32_ONE_BITS,
                },
                dispatch,
            },
            ScalarPhysicalGraphDispatch::Nt { dx, dy, w_ptr, dims } => CachedProduct {
                request: dense_request(ResolvedGemmOp::Nt, dims),
                operands: F32TriadOperands {
                    output: dx,
                    a: dy,
                    b: w_ptr,
                    bias: None,
                    alpha: F32_ONE_BITS,
                    beta: F32_ZERO_BITS,
                },
                dispatch,
            },
        }),
{
    match dispatch {
        ScalarPhysicalGraphDispatch::Nn { y, x, w_ptr, bias_ptr, dims } => CachedProduct {
            request: dense_request(ResolvedGemmOp::Nn, dims),
            operands: F32TriadOperands {
                output: y,
                a: x,
                b: w_ptr,
                bias: optional_bias(bias_ptr),
                alpha: F32_ONE_BITS,
                beta: F32_ZERO_BITS,
            },
            dispatch,
        },
        ScalarPhysicalGraphDispatch::Tn { dw_ptr, dy, x_saved, dims } => CachedProduct {
            request: dense_request(ResolvedGemmOp::Tn, dims),
            operands: F32TriadOperands {
                output: dw_ptr,
                a: x_saved,
                b: dy,
                bias: None,
                alpha: F32_ONE_BITS,
                beta: F32_ONE_BITS,
            },
            dispatch,
        },
        ScalarPhysicalGraphDispatch::Nt { dx, dy, w_ptr, dims } => CachedProduct {
            request: dense_request(ResolvedGemmOp::Nt, dims),
            operands: F32TriadOperands {
                output: dx,
                a: dy,
                b: w_ptr,
                bias: None,
                alpha: F32_ONE_BITS,
                beta: F32_ZERO_BITS,
            },
            dispatch,
        },
    }
}

/// An empty reduction is looked up, and prepared, the same whatever its
/// inputs are.
pub proof fn empty_reductions_share_their_preparation(
    y: u64,
    left: (u64, u64),
    right: (u64, u64),
    bias_ptr: u64,
    dims: (usize, usize, usize),
)
    ensures
        dims.1 == 0 ==> cached_f32_forward(y, left.0, left.1, bias_ptr, dims)
            == cached_f32_forward(y, right.0, right.1, bias_ptr, dims),
        dims.0 == 0 ==> cached_f32_backward_dw(y, left.0, left.1, dims).operands
            == cached_f32_backward_dw(y, right.0, right.1, dims).operands,
        dims.2 == 0 ==> cached_f32_backward_dx(y, left.0, left.1, dims).operands
            == cached_f32_backward_dx(y, right.0, right.1, dims).operands,
{
}

/// The tiles that the fixed family takes from the exact SM120 kernels.
#[derive(Clone, Copy, Debug, PartialEq, Eq, Structural)]
pub enum FixedSm120ExactTmaTile {
    M128N64,
    M64N128,
}

/// The literal route of a fixed tile: one split, no vectorized reduction.
#[verifier::allow_in_spec]
pub fn fixed_sm120_exact_route(tile: FixedSm120ExactTmaTile) -> Tf32PhysicalRoute
    returns
        (Tf32PhysicalRoute::Sm120TmaFmaExactV1(
            Sm120FmaRoute {
                tile: match tile {
                    FixedSm120ExactTmaTile::M128N64 => Sm120FmaTile::M128N64,
                    FixedSm120ExactTmaTile::M64N128 => Sm120FmaTile::M64N128,
                },
                kvec: false,
                splits: 1,
            },
        )),
{
    let tile = match tile {
        FixedSm120ExactTmaTile::M128N64 => Sm120FmaTile::M128N64,
        FixedSm120ExactTmaTile::M64N128 => Sm120FmaTile::M64N128,
    };
    Tf32PhysicalRoute::Sm120TmaFmaExactV1(Sm120FmaRoute { tile, kvec: false, splits: 1 })
}

/// The product and the forced route of a fixed exact launch, or `None` where
/// the route is not served: it was not qualified, or its kernel is not
/// loaded. A specification that cannot be had is an error.
pub fn fixed_sm120_exact_tma(
    shape: (usize, usize, usize),
    tile: FixedSm120ExactTmaTile,
    qualified: bool,
    loaded: Result<bool, LaunchError>,
) -> (result: Result<Option<(F32TriadRequest, F32PreparedSelection)>, LaunchError>)
    ensures
        result == (match (qualified, loaded) {
            (false, _) => Ok::<Option<(F32TriadRequest, F32PreparedSelection)>, LaunchError>(None),
            (true, Err(error)) => Err::<
                Option<(F32TriadRequest, F32PreparedSelection)>,
                LaunchError,
            >(error),
            (true, Ok(false)) => Ok::<
                Option<(F32TriadRequest, F32PreparedSelection)>,
                LaunchError,
            >(None),
            (true, Ok(true)) => Ok::<
                Option<(F32TriadRequest, F32PreparedSelection)>,
                LaunchError,
            >(
                Some(
                    (
                        dense_request(ResolvedGemmOp::Nn, shape),
                        F32PreparedSelection::Forced(fixed_sm120_exact_route(tile)),
                    ),
                ),
            ),
        }),
{
    if !qualified {
        return Ok(None);
    }
    if !loaded? {
        return Ok(None);
    }
    Ok(
        Some(
            (
                dense_request(ResolvedGemmOp::Nn, shape),
                F32PreparedSelection::Forced(fixed_sm120_exact_route(tile)),
            ),
        ),
    )
}

} // verus!
