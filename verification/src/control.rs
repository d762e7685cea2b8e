//! Binding of launch programs to their prepared routes.

use crate::arguments;
use crate::arguments::{argument_bytes, PhysicalScalarKernelArguments};
use crate::digest::Sha256Digest;
use crate::error::LaunchError;
use crate::identity::{
    is_zero_digest, CompilerIdentity, GemmRouteIdentity, PolicyDtype, ResolvedGemmRoute,
    TableRevisions,
};
use crate::kernel;
use crate::kernel::{
    KernelArg, LaunchConfig, LaunchProgram, LaunchStep, Program, ResolvedKernelLaunch,
};
use crate::scalar_laws;
use crate::scalar_launch::PreparedScalar;
use crate::scalar_nodes::ScalarNodeSpec;
use crate::scalar_plan::ScalarDispatchPlan;
use crate::scalar_routes;
use crate::shape::{F32TriadOperands, F32TriadRequest};
use crate::text::same_text;
use vstd::prelude::*;

verus! {

/// No bit of the digest is set.
pub open spec fn zero(digest: Sha256Digest) -> bool {
    forall|i: int| 0 <= i < 32 ==> digest@[i] == 0
}

/// Why a launch does not match what was prepared for it.
pub open spec fn binding_fault(
    expected_symbol: &'static str,
    expected: ResolvedKernelLaunch,
    symbol: &'static str,
    config: LaunchConfig,
) -> Option<LaunchError> {
    if zero(expected.arguments_digest) {
        Some(LaunchError::ZeroArgumentDigest(expected_symbol))
    } else if expected_symbol@ != symbol@ || expected.config() != config {
        Some(LaunchError::LaunchChanged(expected_symbol, symbol))
    } else {
        None
    }
}

/// Accepts a launch that is the prepared one, and hands out the frozen
/// digest of its arguments.
pub fn validate_prepared_scalar_binding(
    expected_symbol: &'static str,
    expected: ResolvedKernelLaunch,
    symbol: &'static str,
    config: LaunchConfig,
) -> (result: Result<Sha256Digest, LaunchError>)
    ensures
        result == (match binding_fault(expected_symbol, expected, symbol, config) {
            Some(error) => Err::<Sha256Digest, LaunchError>(error),
            None => Ok::<Sha256Digest, LaunchError>(expected.arguments_digest),
        }),
{
    if is_zero_digest(&expected.arguments_digest) {
        return Err(LaunchError::ZeroArgumentDigest(expected_symbol));
    }
    if !same_text(expected_symbol, symbol) || !expected.config().same(&config) {
        return Err(LaunchError::LaunchChanged(expected_symbol, symbol));
    }
    Ok(expected.arguments_digest)
}

/// The launch at a position of the prepared routes.
pub open spec fn bind_fault(
    routes: Seq<ResolvedGemmRoute>,
    next: int,
    symbol: &'static str,
    config: LaunchConfig,
) -> Option<LaunchError> {
    if next >= routes.len() {
        Some(LaunchError::UnexpectedKernel(symbol))
    } else {
        binding_fault(routes[next].symbol, routes[next].launch, symbol, config)
    }
}

/// The prepared routes of a scalar plan and how far they are launched.
pub struct ScalarLaunchControl<'a> {
    routes: &'a Vec<ResolvedGemmRoute>,
    prepared: PreparedScalar,
    next: usize,
}

impl<'a> ScalarLaunchControl<'a> {
    #[verifier::type_invariant]
    spec fn inv(self) -> bool {
        self.next <= self.routes@.len()
    }

    /// The prepared routes, in launch order.
    pub closed spec fn routes(self) -> Seq<ResolvedGemmRoute> {
        self.routes@
    }

    /// The frozen plan and operands.
    pub closed spec fn prepared(self) -> PreparedScalar {
        self.prepared
    }

    /// How many routes were launched.
    pub closed spec fn next(self) -> int {
        self.next as int
    }

    /// Nothing is launched yet.
    pub fn new(routes: &'a Vec<ResolvedGemmRoute>, prepared: PreparedScalar) -> (control:
        ScalarLaunchControl<'a>)
        ensures
            control.routes() == routes@,
            control.prepared() == prepared,
            control.next() == 0,
    {
        ScalarLaunchControl { routes, prepared, next: 0 }
    }

    /// Matches the next launch against the next prepared route.
    pub fn bind(&mut self, symbol: &'static str, config: LaunchConfig) -> (result: Result<
        ResolvedGemmRoute,
        LaunchError,
    >)
        ensures
            final(self).routes() == old(self).routes(),
            final(self).prepared() == old(self).prepared(),
            match bind_fault(old(self).routes(), old(self).next(), symbol, config) {
                Some(error) => result == Err::<ResolvedGemmRoute, LaunchError>(error) && final(
                    self).next() == old(self).next(),
                None => result == Ok::<ResolvedGemmRoute, LaunchError>(
                    old(self).routes()[old(self).next()],
                ) && final(self).next() == old(self).next() + 1,
            },
    {
        proof {
            use_type_invariant(&*self);
        }
        if self.next >= self.routes.len() {
            return Err(LaunchError::UnexpectedKernel(symbol));
        }
        let route = self.routes[self.next];
        let _ = validate_prepared_scalar_binding(route.symbol, route.launch, symbol, config)?;
        self.next = self.next + 1;
        Ok(route)
    }

    /// Accepts a plan whose routes were all launched.
    pub fn finish(&self) -> (result: Result<(), LaunchError>)
        ensures
            result == (if self.next() == self.routes().len() {
                Ok::<(), LaunchError>(())
            } else {
                Err::<(), LaunchError>(
                    LaunchError::MissingKernels(self.routes().len() as usize, self.next() as usize),
                )
            }),
    {
        if self.next == self.routes.len() {
            Ok(())
        } else {
            Err(LaunchError::MissingKernels(self.routes.len(), self.next))
        }
    }

    /// The frozen operands.
    pub fn operands(&self) -> (operands: F32TriadOperands)
        ensures
            operands == self.prepared().operands,
    {
        self.prepared.operands
    }

    /// The frozen plan.
    pub fn plan(&self) -> (plan: ScalarDispatchPlan)
        ensures
            plan == self.prepared().plan,
    {
        self.prepared.plan
    }

    /// Accepts exactly the frozen operands, bit by bit.
    pub fn validate_operands(&self, actual: F32TriadOperands) -> (result: Result<(), LaunchError>)
        ensures
            result == (if actual == self.prepared().operands {
                Ok::<(), LaunchError>(())
            } else {
                Err::<(), LaunchError>(
                    LaunchError::Rejected("scalar operands changed after f32 Triad preparation"),
                )
            }),
    {
        if actual != self.prepared.operands {
            return Err(
                LaunchError::Rejected("scalar operands changed after f32 Triad preparation"),
            );
        }
        Ok(())
    }
}

/// What stops a program from running on its prepared routes, seen from one
/// of its launches on: a launch that is not the prepared one, then the
/// program's own refusal, then a binding that changed meanwhile, then
/// prepared routes that are left over.
pub open spec fn run_fault(
    routes: Seq<ResolvedGemmRoute>,
    program: Program,
    changed: Option<LaunchError>,
    from: int,
) -> Option<LaunchError>
    decreases program.launches.len() - from,
{
    if from < 0 || from >= program.launches.len() {
        match (program.outcome, changed) {
            (Err(error), _) => Some(error),
            (Ok(_), Some(error)) => Some(error),
            (Ok(_), None) => if from == routes.len() {
                None
            } else {
                Some(LaunchError::MissingKernels(routes.len() as usize, from as usize))
            },
        }
    } else {
        match bind_fault(
            routes,
            from,
            program.launches[from].symbol,
            program.launches[from].config,
        ) {
            Some(error) => Some(error),
            None => run_fault(routes, program, changed, from + 1),
        }
    }
}

/// Runs a program against the routes that were prepared for it.
pub fn bind_program(control: &mut ScalarLaunchControl, program: &LaunchProgram) -> (result: Result<
    (),
    LaunchError,
>)
    requires
        old(control).next() == 0,
    ensures
        result == (match run_fault(old(control).routes(), program@, None, 0) {
            Some(error) => Err::<(), LaunchError>(error),
            None => Ok::<(), LaunchError>(()),
        }),
        final(control).routes() == old(control).routes(),
        final(control).prepared() == old(control).prepared(),
        result is Ok ==> final(control).next() == program@.launches.len(),
{
    let ghost routes = control.routes();
    let mut i: usize = 0;
    while i < program.launches.len()
        invariant
            i <= program.launches@.len(),
            control.routes() == routes,
            routes == old(control).routes(),
            control.prepared() == old(control).prepared(),
            control.next() == i,
            run_fault(routes, program@, None, 0) == run_fault(routes, program@, None, i as int),
        decreases program.launches@.len() - i,
    {
        assert(program@.launches[i as int] == program.launches@[i as int]@);
        match control.bind(program.launches[i].symbol, program.launches[i].config) {
            Err(error) => {
                return Err(error);
            },
            Ok(_) => {},
        }
        i = i + 1;
    }
    match program.outcome {
        Err(error) => Err(error),
        Ok(_) => control.finish(),
    }
}

/// What is recorded of a graph node: the element type that the product is
/// logically in, the allocations that it physically runs on where the route
/// does not name them, and its route.
#[derive(Clone, Copy, Debug, PartialEq, Eq)]
pub struct PhysicalGraphRecord {
    pub logical_dtype: PolicyDtype,
    pub physical_resources: Option<Sha256Digest>,
    pub route: ResolvedGemmRoute,
}

/// One graph node: a kernel, its geometry, what it is recorded as and its
/// arguments by value.
pub struct PreparedTriadPhysicalGraphLaunch {
    pub symbol: &'static str,
    pub config: LaunchConfig,
    pub record: PhysicalGraphRecord,
    pub arguments: PhysicalScalarKernelArguments,
}

/// The graph nodes of one product, in order.
pub struct PreparedTriadPhysicalGraphSequence {
    pub launches: Vec<PreparedTriadPhysicalGraphLaunch>,
}

impl PreparedTriadPhysicalGraphSequence {
    /// How many kernels the sequence launches.
    pub fn len(&self) -> (count: usize)
        ensures
            count == self.launches@.len(),
    {
        self.launches.len()
    }
}

/// The captured bytes of an argument list.
pub open spec fn captured_bytes(args: Seq<KernelArg>) -> Seq<Seq<u8>> {
    Seq::new(args.len(), |i: int| arguments::zero_filled(arguments::arg_bytes(args[i])))
}

/// A graph node holds a step of a program and its record.
pub open spec fn captures(
    node: PreparedTriadPhysicalGraphLaunch,
    step: LaunchStep,
    record: PhysicalGraphRecord,
) -> bool {
    &&& node.symbol == step.symbol
    &&& node.config == step.config
    &&& node.record == record
    &&& node.arguments.arguments() == captured_bytes(step.args)
}

/// Captures an argument list.
pub fn capture_arguments(args: &Vec<KernelArg>) -> (captured: PhysicalScalarKernelArguments)
    requires
        args@.len() <= arguments::PHYSICAL_SCALAR_MAX_KERNEL_ARGUMENTS,
    ensures
        captured.arguments() == captured_bytes(args@),
{
    let mut captured = PhysicalScalarKernelArguments::new();
    let mut i: usize = 0;
    while i < args.len()
        invariant
            i <= args@.len(),
            args@.len() <= arguments::PHYSICAL_SCALAR_MAX_KERNEL_ARGUMENTS,
            captured.arguments() == captured_bytes(args@.subrange(0, i as int)),
        decreases args@.len() - i,
    {
        let ghost before = captured.arguments();
        let bytes = argument_bytes(&args[i]);
        proof {
            arguments::arguments_are_narrow(args@[i as int]);
        }
        let pushed = captured.push(bytes.as_slice());
        assert(pushed is Ok);
        i = i + 1;
        assert(captured.arguments() =~= captured_bytes(args@.subrange(0, i as int)));
    }
    assert(args@.subrange(0, i as int) =~= args@);
    captured
}

/// Prepares the graph nodes of a program on the routes that were prepared
/// for it: every launch is matched, then its arguments are captured.
pub fn capture_program(
    routes: &Vec<ResolvedGemmRoute>,
    program: &LaunchProgram,
    logical_dtype: PolicyDtype,
    physical_resources: Sha256Digest,
    changed: Option<LaunchError>,
) -> (result: Result<PreparedTriadPhysicalGraphSequence, LaunchError>)
    requires
        scalar_laws::arguments_bounded(
            program@,
            arguments::PHYSICAL_SCALAR_MAX_KERNEL_ARGUMENTS as int,
        ),
    ensures
        match result {
            Err(error) => run_fault(routes@, program@, changed, 0) == Some(error),
            Ok(sequence) => {
                &&& run_fault(routes@, program@, changed, 0) == None::<LaunchError>
                &&& sequence.launches@.len() == routes@.len()
                &&& sequence.launches@.len() == program@.launches.len()
                &&& forall|i: int|
                    0 <= i < routes@.len() ==> captures(
                        #[trigger] sequence.launches@[i],
                        program@.launches[i],
                        PhysicalGraphRecord {
                            logical_dtype,
                            physical_resources: Some(physical_resources),
                            route: routes@[i],
                        },
                    )
            },
        },
{
    let mut launches: Vec<PreparedTriadPhysicalGraphLaunch> = Vec::new();
    let mut i: usize = 0;
    while i < program.launches.len()
        invariant
            i <= program.launches@.len(),
            scalar_laws::arguments_bounded(
                program@,
                arguments::PHYSICAL_SCALAR_MAX_KERNEL_ARGUMENTS as int,
            ),
            launches@.len() == i,
            i <= routes@.len(),
            run_fault(routes@, program@, changed, 0) == run_fault(
                routes@,
                program@,
                changed,
                i as int,
            ),
            forall|j: int|
                0 <= j < i ==> captures(
                    #[trigger] launches@[j],
                    program@.launches[j],
                    PhysicalGraphRecord {
                        logical_dtype,
                        physical_resources: Some(physical_resources),
                        route: routes@[j],
                    },
                ),
        decreases program.launches@.len() - i,
    {
        assert(program@.launches[i as int] == program.launches@[i as int]@);
        if i >= routes.len() {
            return Err(LaunchError::UnexpectedKernel(program.launches[i].symbol));
        }
        let route = routes[i];
        let step = &program.launches[i];
        match validate_prepared_scalar_binding(route.symbol, route.launch, step.symbol, step.config)
        {
            Err(error) => {
                return Err(error);
            },
            Ok(_) => {},
        }
        let captured = capture_arguments(&step.args);
        launches.push(
            PreparedTriadPhysicalGraphLaunch {
                symbol: step.symbol,
                config: step.config,
                record: PhysicalGraphRecord {
                    logical_dtype,
                    physical_resources: Some(physical_resources),
                    route,
                },
                arguments: captured,
            },
        );
        i = i + 1;
    }
    match program.outcome {
        Err(error) => Err(error),
        Ok(_) => {
            match changed {
                Some(error) => {
                    return Err(error);
                },
                None => {},
            }
            if i != routes.len() {
                return Err(LaunchError::MissingKernels(routes.len(), i));
            }
            Ok(PreparedTriadPhysicalGraphSequence { launches })
        },
    }
}

proof fn matching_program_has_no_fault(
    routes: Seq<ResolvedGemmRoute>,
    program: Program,
    from: int,
)
    requires
        0 <= from <= program.launches.len(),
        program.outcome is Ok,
        program.launches.len() == routes.len(),
        forall|i: int|
            0 <= i < routes.len() ==> {
                &&& !zero((#[trigger] routes[i]).launch.arguments_digest)
                &&& routes[i].symbol == program.launches[i].symbol
                &&& routes[i].launch.config() == program.launches[i].config
            },
    ensures
        run_fault(routes, program, None, from) == None::<LaunchError>,
    decreases program.launches.len() - from,
{
    if from < program.launches.len() {
        assert(!zero(routes[from].launch.arguments_digest));
        matching_program_has_no_fault(routes, program, from + 1);
    }
}

/// A completed program always binds to the routes that were resolved from
/// the frozen nodes of its plan, as long as no argument digest is zero.
pub proof fn frozen_routes_bind_their_program(
    context: GemmRouteIdentity,
    compiler: CompilerIdentity,
    revisions: TableRevisions,
    request: F32TriadRequest,
    resources_digest: Sha256Digest,
    nodes: Seq<ScalarNodeSpec>,
    program: Program,
)
    requires
        program.outcome is Ok,
        scalar_laws::launches_nodes(program, nodes),
        forall|i: int|
            0 <= i < nodes.len() ==> !zero((#[trigger] nodes[i]).launch.arguments_digest),
    ensures
        run_fault(
            Seq::new(
                nodes.len(),
                |i: int|
                    scalar_routes::resolved_route(
                        context,
                        compiler,
                        revisions,
                        request,
                        resources_digest,
                        nodes[i],
                    ),
            ),
            program,
            None,
            0,
        ) == None::<LaunchError>,
{
    let routes = Seq::new(
        nodes.len(),
        |i: int|
            scalar_routes::resolved_route(
                context,
                compiler,
                revisions,
                request,
                resources_digest,
                nodes[i],
            ),
    );
    assert forall|i: int| 0 <= i < routes.len() implies {
        &&& !zero((#[trigger] routes[i]).launch.arguments_digest)
        &&& routes[i].symbol == program.launches[i].symbol
        &&& routes[i].launch.config() == program.launches[i].config
    } by {
        assert(!zero(nodes[i].launch.arguments_digest));
        assert(program.launches[i].symbol == nodes[i].symbol);
    }
    matching_program_has_no_fault(routes, program, 0);
}

} // verus!
