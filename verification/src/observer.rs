//! Observation of launches: the arguments of a recorded launch lie in
//! allocations that were looked up ahead of it.

use crate::digest::Sha256Digest;
use crate::error::LaunchError;
use crate::identity::{validated_allocation_domain, AllocationDomain};
use vstd::prelude::*;

verus! {

/// What observed launches are called in a refusal of their stream.
pub const OBSERVED_BACKEND: &'static str = "physical half launch";

/// The device memory behind an argument.
#[derive(Clone, Copy, Debug, PartialEq, Eq, Structural)]
pub struct PhysicalArgumentRange {
    pub pointer: u64,
    pub required_bytes: u64,
}

/// What a recorder of launches is given: how many launches it holds, the
/// allocations behind their arguments, and the stamp under which the
/// allocations are current, where all of them are managed.
pub struct PhysicalObserver<I, E> {
    pub capacity: usize,
    pub allocations: Vec<I>,
    pub managed_epoch: Option<E>,
}

/// The first allocations of a list of ranges were found.
pub open spec fn found<I, Query: Fn(u64, u64) -> Result<I, LaunchError>>(
    ranges: Seq<PhysicalArgumentRange>,
    query: Query,
    allocations: Seq<I>,
) -> bool {
    &&& allocations.len() <= ranges.len()
    &&& forall|i: int|
        #![trigger allocations[i]]
        0 <= i < allocations.len() ==> call_ensures(
            query,
            (ranges[i].pointer, ranges[i].required_bytes),
            Ok(allocations[i]),
        )
}

/// The range behind the allocations that were found is refused.
pub open spec fn refused_behind<I, Query: Fn(u64, u64) -> Result<I, LaunchError>>(
    ranges: Seq<PhysicalArgumentRange>,
    query: Query,
    allocations: Seq<I>,
    error: LaunchError,
) -> bool {
    &&& found(ranges, query, allocations)
    &&& allocations.len() < ranges.len()
    &&& call_ensures(
        query,
        (ranges[allocations.len() as int].pointer, ranges[allocations.len() as int].required_bytes),
        Err::<I, LaunchError>(error),
    )
}

/// A range may be looked up where the allocations of those ahead of it may
/// be found.
pub open spec fn looks_up<I, Query: Fn(u64, u64) -> Result<I, LaunchError>>(
    ranges: Seq<PhysicalArgumentRange>,
    query: Query,
) -> bool {
    forall|allocations: Seq<I>| #[trigger]
        found(ranges, query, allocations) && allocations.len() < ranges.len() ==> call_requires(
            query,
            (
                ranges[allocations.len() as int].pointer,
                ranges[allocations.len() as int].required_bytes,
            ),
        )
}

/// How preparing an observer ends. The ranges are looked up in order, the
/// first that is refused ends it; there has to be one.
pub open spec fn observer_prepared<
    I,
    E,
    Query: Fn(u64, u64) -> Result<I, LaunchError>,
    Epoch: FnOnce(u64, &Vec<PhysicalArgumentRange>) -> Option<E>,
>(
    domains: (AllocationDomain, AllocationDomain),
    capacity: usize,
    ranges: &Vec<PhysicalArgumentRange>,
    query: Query,
    epoch: Epoch,
    result: Result<PhysicalObserver<I, E>, LaunchError>,
) -> bool {
    match (validated_allocation_domain(domains.0, domains.1, OBSERVED_BACKEND), result) {
        (Err(error), _) => result == Err::<PhysicalObserver<I, E>, LaunchError>(error),
        (Ok(domain), Ok(observer)) => {
            &&& ranges@.len() > 0
            &&& observer.capacity == capacity
            &&& observer.allocations@.len() == ranges@.len()
            &&& found(ranges@, query, observer.allocations@)
            &&& call_ensures(epoch, (domain.context_handle, ranges), observer.managed_epoch)
        },
        (Ok(_), Err(error)) => {
            ||| ranges@.len() == 0 && error == LaunchError::Rejected(
                "physical launch observer requires prevalidated arguments",
            )
            ||| exists|allocations: Seq<I>| #[trigger]
                refused_behind(ranges@, query, allocations, error)
        },
    }
}

/// Prepares the observer of a physical launch. `query` looks an allocation
/// up, `epoch` stamps the ranges of a context. Nothing is looked up behind a
/// range that is refused, and only ranges that were all found are stamped.
pub fn prepare_physical_observer<
    I,
    E,
    Query: Fn(u64, u64) -> Result<I, LaunchError>,
    Epoch: FnOnce(u64, &Vec<PhysicalArgumentRange>) -> Option<E>,
>(
    domains: (AllocationDomain, AllocationDomain),
    capacity: usize,
    ranges: &Vec<PhysicalArgumentRange>,
    query: Query,
    epoch: Epoch,
) -> (result: Result<PhysicalObserver<I, E>, LaunchError>)
    requires
        validated_allocation_domain(domains.0, domains.1, OBSERVED_BACKEND) matches Ok(domain) ==> {
            &&& looks_up(ranges@, query)
            &&& forall|allocations: Seq<I>| #[trigger]
                found(ranges@, query, allocations) && 0 < allocations.len() == ranges@.len()
                    ==> call_requires(epoch, (domain.context_handle, ranges))
        },
    ensures
        observer_prepared(domains, capacity, ranges, query, epoch, result),
{
    let domain = validated_allocation_domain(domains.0, domains.1, OBSERVED_BACKEND)?;
    let mut allocations: Vec<I> = Vec::new();
    let mut i: usize = 0;
    while i < ranges.len()
        invariant
            i <= ranges@.len(),
            allocations@.len() == i,
            found(ranges@, query, allocations@),
            looks_up(ranges@, query),
            validated_allocation_domain(domains.0, domains.1, OBSERVED_BACKEND) is Ok,
        decreases ranges@.len() - i,
    {
        let range = ranges[i];
        match query(range.pointer, range.required_bytes) {
            Err(error) => {
                assert(refused_behind(ranges@, query, allocations@, error));
                return Err(error);
            },
            Ok(allocation) => {
                allocations.push(allocation);
            },
        }
        i = i + 1;
    }
    if allocations.len() == 0 {
        return Err(
            LaunchError::Rejected("physical launch observer requires prevalidated arguments"),
        );
    }
    let managed_epoch = epoch(domain.context_handle, ranges);
    Ok(PhysicalObserver { capacity, allocations, managed_epoch })
}

/// The first allocations of a list do not hold a range.
pub open spec fn not_among<I, Subrange: Fn(&I, u64, u64) -> Option<Sha256Digest>>(
    allocations: Seq<I>,
    count: int,
    range: PhysicalArgumentRange,
    subrange: Subrange,
) -> bool {
    forall|i: int|
        #![trigger allocations[i]]
        0 <= i < count ==> call_ensures(
            subrange,
            (&allocations[i], range.pointer, range.required_bytes),
            None::<Sha256Digest>,
        )
}

/// Which allocation identifies a range: the first that holds it.
pub open spec fn range_identified<I, Subrange: Fn(&I, u64, u64) -> Option<Sha256Digest>>(
    allocations: Seq<I>,
    range: PhysicalArgumentRange,
    subrange: Subrange,
    result: Result<Sha256Digest, LaunchError>,
) -> bool {
    match result {
        Ok(digest) => exists|at: int|
            #![trigger allocations[at]]
            0 <= at < allocations.len() && not_among(allocations, at, range, subrange)
                && call_ensures(
                subrange,
                (&allocations[at], range.pointer, range.required_bytes),
                Some(digest),
            ),
        Err(error) => {
            &&& error == LaunchError::OutsideAllocations(range.pointer, range.required_bytes)
            &&& not_among(allocations, allocations.len() as int, range, subrange)
        },
    }
}

impl<I, E> PhysicalObserver<I, E> {
    /// Identifies the memory behind an argument of an observed launch.
    /// `subrange` is the digest of a range of an allocation that holds it.
    /// No allocation is asked behind one that does.
    pub fn identify<Subrange: Fn(&I, u64, u64) -> Option<Sha256Digest>>(
        &self,
        range: PhysicalArgumentRange,
        subrange: Subrange,
    ) -> (result: Result<Sha256Digest, LaunchError>)
        requires
            forall|at: int|
                0 <= at < self.allocations@.len() && #[trigger] not_among(
                    self.allocations@,
                    at,
                    range,
                    subrange,
                ) ==> call_requires(
                    subrange,
                    (&self.allocations@[at], range.pointer, range.required_bytes),
                ),
        ensures
            range_identified(self.allocations@, range, subrange, result),
    {
        let mut i: usize = 0;
        while i < self.allocations.len()
            invariant
                i <= self.allocations@.len(),
                not_among(self.allocations@, i as int, range, subrange),
                forall|at: int|
                    0 <= at < self.allocations@.len() && #[trigger] not_among(
                        self.allocations@,
                        at,
                        range,
                        subrange,
                    ) ==> call_requires(
                        subrange,
                        (&self.allocations@[at], range.pointer, range.required_bytes),
                    ),
            decreases self.allocations@.len() - i,
        {
            match subrange(&self.allocations[i], range.pointer, range.required_bytes) {
                Some(digest) => {
                    assert(call_ensures(
                        subrange,
                        (&self.allocations@[i as int], range.pointer, range.required_bytes),
                        Some(digest),
                    ));
                    return Ok(digest);
                },
                None => {},
            }
            i = i + 1;
        }
        Err(LaunchError::OutsideAllocations(range.pointer, range.required_bytes))
    }
}

} // verus!
