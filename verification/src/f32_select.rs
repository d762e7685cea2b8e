//! Which kernels are prepared for an f32 product.

use crate::error::LaunchError;
use crate::identity::{validated_allocation_domain, AllocationDomain};
use crate::prepared::F32PreparedSelection;
use crate::shape;
use crate::shape::{validate_f32_triad_operands, F32TriadOperands, F32TriadRequest};
use crate::tf32_plan::{Sm120FmaRoute, Tf32PhysicalRoute};
use vstd::prelude::*;

verus! {

/// What a policy selects for an f32 product.
#[derive(Clone, Copy, Debug, PartialEq, Eq, Structural)]
pub enum F32TriadSelection {
    ScalarFmaV1,
    Tf32(Tf32PhysicalRoute),
    ExactSm120Fma(Sm120FmaRoute),
}

/// What is prepared for an f32 product.
#[derive(Clone, Copy, Debug, PartialEq, Eq, Structural)]
pub enum F32Preparation {
    ScalarZero,
    Scalar,
    Tf32(Tf32PhysicalRoute),
}

/// What is prepared for a selected product. An empty reduction runs the
/// epilogue alone. A selected TF32 kernel that the toolkit could not serve
/// declines to the exact family, and from there to the scalar kernels.
#[verifier::allow_in_spec]
pub fn automatic_preparation(
    request: F32TriadRequest,
    selection: F32TriadSelection,
    excluded: bool,
    fallback: F32TriadSelection,
) -> F32Preparation
    returns
        (if request.shape.reduction(request.op) == 0 {
            F32Preparation::ScalarZero
        } else {
            match selection {
                F32TriadSelection::ScalarFmaV1 => F32Preparation::Scalar,
                F32TriadSelection::ExactSm120Fma(exact) => F32Preparation::Tf32(
                    Tf32PhysicalRoute::Sm120TmaFmaExactV1(exact),
                ),
                F32TriadSelection::Tf32(route) => if !excluded {
                    F32Preparation::Tf32(route)
                } else {
                    match fallback {
                        F32TriadSelection::ExactSm120Fma(exact) => F32Preparation::Tf32(
                            Tf32PhysicalRoute::Sm120TmaFmaExactV1(exact),
                        ),
                        _ => F32Preparation::Scalar,
                    }
                },
            }
        }),
{
    if request.shape.reduction(request.op) == 0 {
        return F32Preparation::ScalarZero;
    }
    match selection {
        F32TriadSelection::ScalarFmaV1 => F32Preparation::Scalar,
        F32TriadSelection::ExactSm120Fma(exact) => F32Preparation::Tf32(
            Tf32PhysicalRoute::Sm120TmaFmaExactV1(exact),
        ),
        F32TriadSelection::Tf32(route) => {
            if !excluded {
                F32Preparation::Tf32(route)
            } else {
                match fallback {
                    F32TriadSelection::ExactSm120Fma(exact) => F32Preparation::Tf32(
                        Tf32PhysicalRoute::Sm120TmaFmaExactV1(exact),
                    ),
                    _ => F32Preparation::Scalar,
                }
            }
        },
    }
}

/// What is prepared where the scalar kernels are asked for.
#[verifier::allow_in_spec]
pub fn exact_scalar_preparation(request: F32TriadRequest) -> F32Preparation
    returns
        (if request.shape.reduction(request.op) == 0 {
            F32Preparation::ScalarZero
        } else {
            F32Preparation::Scalar
        }),
{
    if request.shape.reduction(request.op) == 0 {
        F32Preparation::ScalarZero
    } else {
        F32Preparation::Scalar
    }
}

/// Only exact arithmetic replaces a TF32 kernel that is excluded.
pub proof fn excluded_kernels_decline_to_exact_arithmetic(
    request: F32TriadRequest,
    route: Tf32PhysicalRoute,
    fallback: F32TriadSelection,
)
    ensures
        match automatic_preparation(request, F32TriadSelection::Tf32(route), true, fallback) {
            F32Preparation::Tf32(served) => served is Sm120TmaFmaExactV1,
            _ => true,
        },
{
}

/// How the kernel of a route is laid out.
#[derive(Clone, Copy, Debug, PartialEq, Eq, Structural)]
pub enum Tf32Layout {
    Tiled,
    StreamK,
    SplitK,
    Exact(Sm120FmaRoute),
}

/// The layout of a route.
#[verifier::allow_in_spec]
pub fn tf32_layout(route: Tf32PhysicalRoute) -> Tf32Layout
    returns
        (match route {
            Tf32PhysicalRoute::MmaTf32RnaSplitK2V1(_)
            | Tf32PhysicalRoute::MmaTf32RnaSplitK4V1(_)
            | Tf32PhysicalRoute::MmaTf32RnaSplitK8V1(_) => Tf32Layout::SplitK,
            Tf32PhysicalRoute::Sm120TmaMmaTf32RnaStreamKV1(_) => Tf32Layout::StreamK,
            Tf32PhysicalRoute::Sm120TmaFmaExactV1(exact) => Tf32Layout::Exact(exact),
            _ => Tf32Layout::Tiled,
        }),
{
    match route {
        Tf32PhysicalRoute::MmaTf32RnaSplitK2V1(_)
        | Tf32PhysicalRoute::MmaTf32RnaSplitK4V1(_)
        | Tf32PhysicalRoute::MmaTf32RnaSplitK8V1(_) => Tf32Layout::SplitK,
        Tf32PhysicalRoute::Sm120TmaMmaTf32RnaStreamKV1(_) => Tf32Layout::StreamK,
        Tf32PhysicalRoute::Sm120TmaFmaExactV1(exact) => Tf32Layout::Exact(exact),
        _ => Tf32Layout::Tiled,
    }
}

/// The layout that a route is prepared in. A route that cannot be resolved
/// is refused for the reason that its module was rejected, where there is
/// one.
pub open spec fn prepared_layout(
    forced: Tf32PhysicalRoute,
    resolved: Result<Tf32PhysicalRoute, LaunchError>,
    rejection: Option<&'static str>,
) -> Result<(Tf32PhysicalRoute, Tf32Layout), LaunchError> {
    match (resolved, rejection) {
        (Err(_), Some(reason)) => Err(LaunchError::ForcedRouteRejected(forced, reason)),
        (Err(error), None) => Err(error),
        (Ok(route), _) => Ok((route, tf32_layout(route))),
    }
}

/// Decides on the layout that a route is prepared in.
pub fn tf32_preparation(
    forced: Tf32PhysicalRoute,
    resolved: Result<Tf32PhysicalRoute, LaunchError>,
    rejection: Option<&'static str>,
) -> (result: Result<(Tf32PhysicalRoute, Tf32Layout), LaunchError>)
    ensures
        result == prepared_layout(forced, resolved, rejection),
{
    match resolved {
        Err(error) => match rejection {
            Some(reason) => Err(LaunchError::ForcedRouteRejected(forced, reason)),
            None => Err(error),
        },
        Ok(route) => Ok((route, tf32_layout(route))),
    }
}

/// What preparing an f32 product finds: whether a graph is captured, where
/// the stream and the kernels live, whether the output is allocated, what
/// the policy selects, whether the selected kernel is excluded and what
/// replaces it.
#[derive(Clone, Copy, Debug, PartialEq, Eq)]
pub struct F32PreparationFacts {
    pub capturing: Result<bool, LaunchError>,
    pub stream: AllocationDomain,
    pub kernels: AllocationDomain,
    pub output: Result<(), LaunchError>,
    pub selection: Result<F32TriadSelection, LaunchError>,
    pub excluded: bool,
    pub fallback: F32TriadSelection,
}

/// Why an f32 product is not prepared at all; the first rule broken wins.
pub open spec fn preparation_fault(
    request: F32TriadRequest,
    operands: F32TriadOperands,
    facts: F32PreparationFacts,
) -> Option<LaunchError> {
    match (
        request.shape.validated(request.op),
        shape::operand_fault(request, operands),
        facts.capturing,
    ) {
        (Err(error), _, _) => Some(error),
        (Ok(_), Some(text), _) => Some(LaunchError::Rejected(text)),
        (Ok(_), None, Err(error)) => Some(error),
        (Ok(_), None, Ok(true)) => Some(
            LaunchError::Rejected("f32 Triad launch must be prepared before graph capture"),
        ),
        (Ok(_), None, Ok(false)) => if facts.stream != facts.kernels {
            Some(LaunchError::ForeignDomain("f32 Triad", facts.stream, facts.kernels))
        } else {
            match facts.output {
                Err(error) => Some(error),
                Ok(_) => None,
            }
        },
    }
}

/// Accepts an f32 product for preparation.
pub fn admit_preparation(
    request: F32TriadRequest,
    operands: F32TriadOperands,
    facts: &F32PreparationFacts,
) -> (result: Result<(), LaunchError>)
    ensures
        result == (match preparation_fault(request, operands, *facts) {
            Some(error) => Err::<(), LaunchError>(error),
            None => Ok::<(), LaunchError>(()),
        }),
{
    request.shape.validate(request.op)?;
    validate_f32_triad_operands(request, operands)?;
    match facts.capturing {
        Err(error) => {
            return Err(error);
        },
        Ok(capturing) => {
            if capturing {
                return Err(
                    LaunchError::Rejected("f32 Triad launch must be prepared before graph capture"),
                );
            }
        },
    }
    let _ = validated_allocation_domain(facts.stream, facts.kernels, "f32 Triad")?;
    match facts.output {
        Err(error) => Err(error),
        Ok(_) => Ok(()),
    }
}

/// What is prepared for a product under a selection, or why nothing is. The
/// policy is only asked about products with a reduction.
pub open spec fn selected_preparation(
    selection: F32PreparedSelection,
    request: F32TriadRequest,
    operands: F32TriadOperands,
    facts: F32PreparationFacts,
) -> Result<F32Preparation, LaunchError> {
    match preparation_fault(request, operands, facts) {
        Some(error) => Err(error),
        None => match selection {
            F32PreparedSelection::ExactScalar => Ok(exact_scalar_preparation(request)),
            F32PreparedSelection::Forced(route) => Ok(F32Preparation::Tf32(route)),
            F32PreparedSelection::Automatic => if request.shape.reduction(request.op) == 0 {
                Ok(F32Preparation::ScalarZero)
            } else {
                match facts.selection {
                    Err(error) => Err(error),
                    Ok(selected) => Ok(
                        automatic_preparation(request, selected, facts.excluded, facts.fallback),
                    ),
                }
            },
        },
    }
}

/// What is prepared where the policy selects the kernels.
pub fn prepare_f32_triad(
    request: F32TriadRequest,
    operands: F32TriadOperands,
    facts: &F32PreparationFacts,
) -> (result: Result<F32Preparation, LaunchError>)
    ensures
        result == selected_preparation(
            F32PreparedSelection::Automatic,
            request,
            operands,
            *facts,
        ),
{
    admit_preparation(request, operands, facts)?;
    if request.shape.reduction(request.op) == 0 {
        return Ok(F32Preparation::ScalarZero);
    }
    match facts.selection {
        Err(error) => Err(error),
        Ok(selected) => Ok(
            automatic_preparation(request, selected, facts.excluded, facts.fallback),
        ),
    }
}

/// What is prepared where the scalar kernels are asked for.
pub fn prepare_exact_scalar_f32_triad(
    request: F32TriadRequest,
    operands: F32TriadOperands,
    facts: &F32PreparationFacts,
) -> (result: Result<F32Preparation, LaunchError>)
    ensures
        result == selected_preparation(
            F32PreparedSelection::ExactScalar,
            request,
            operands,
            *facts,
        ),
{
    admit_preparation(request, operands, facts)?;
    Ok(exact_scalar_preparation(request))
}

/// What is prepared where a route is forced: that route, also for an empty
/// reduction.
pub fn prepare_f32_triad_forced(
    request: F32TriadRequest,
    operands: F32TriadOperands,
    route: Tf32PhysicalRoute,
    facts: &F32PreparationFacts,
) -> (result: Result<F32Preparation, LaunchError>)
    ensures
        result == selected_preparation(
            F32PreparedSelection::Forced(route),
            request,
            operands,
            *facts,
        ),
{
    admit_preparation(request, operands, facts)?;
    Ok(F32Preparation::Tf32(route))
}

/// What is prepared for a product under a selection.
pub fn prepare_selected_f32(
    selection: F32PreparedSelection,
    request: F32TriadRequest,
    operands: F32TriadOperands,
    facts: &F32PreparationFacts,
) -> (result: Result<F32Preparation, LaunchError>)
    ensures
        result == selected_preparation(selection, request, operands, *facts),
{
    match selection {
        F32PreparedSelection::Automatic => prepare_f32_triad(request, operands, facts),
        F32PreparedSelection::ExactScalar => prepare_exact_scalar_f32_triad(
            request,
            operands,
            facts,
        ),
        F32PreparedSelection::Forced(route) => prepare_f32_triad_forced(
            request,
            operands,
            route,
            facts,
        ),
    }
}

/// The TF32 route that a product was selected for and that its toolkit
/// excludes, where that is reported.
pub fn excluded_route(
    selection: F32PreparedSelection,
    request: F32TriadRequest,
    operands: F32TriadOperands,
    facts: &F32PreparationFacts,
) -> (excluded: Option<Tf32PhysicalRoute>)
    ensures
        excluded == (match (selection, selected_preparation(selection, request, operands, *facts)) {
            (F32PreparedSelection::Automatic, Ok(_)) => match facts.selection {
                Ok(F32TriadSelection::Tf32(route)) => if facts.excluded && request.shape.reduction(
                    request.op,
                ) != 0 {
                    Some(route)
                } else {
                    None::<Tf32PhysicalRoute>
                },
                _ => None::<Tf32PhysicalRoute>,
            },
            _ => None::<Tf32PhysicalRoute>,
        }),
{
    if selection != F32PreparedSelection::Automatic || !facts.excluded {
        return None;
    }
    if request.shape.reduction(request.op) == 0 {
        return None;
    }
    match admit_preparation(request, operands, facts) {
        Err(_) => None,
        Ok(_) => match facts.selection {
            Ok(F32TriadSelection::Tf32(route)) => Some(route),
            _ => None,
        },
    }
}

/// Nothing is prepared while a graph is captured, whatever is asked for.
pub proof fn captures_prepare_nothing(
    selection: F32PreparedSelection,
    request: F32TriadRequest,
    operands: F32TriadOperands,
    facts: F32PreparationFacts,
)
    requires
        facts.capturing == Ok::<bool, LaunchError>(true),
    ensures
        selected_preparation(selection, request, operands, facts) is Err,
{
}

} // verus!
