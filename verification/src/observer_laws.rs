//! What an observer that was prepared for a launch says of its arguments.

use crate::digest::Sha256Digest;
use crate::error::LaunchError;
use crate::identity::AllocationDomain;
use crate::observer;
use crate::observer::{PhysicalArgumentRange, PhysicalObserver};
use vstd::prelude::*;

verus! {

/// A query found this allocation for one of the ranges.
pub open spec fn found_for_a_range<I, Query: Fn(u64, u64) -> Result<I, LaunchError>>(
    ranges: Seq<PhysicalArgumentRange>,
    query: Query,
    allocation: I,
) -> bool {
    exists|i: int|
        0 <= i < ranges.len() && call_ensures(
            query,
            ((#[trigger] ranges[i]).pointer, ranges[i].required_bytes),
            Ok::<I, LaunchError>(allocation),
        )
}

/// What identifies a range is a part, at that pointer and of that many bytes,
/// of an allocation that was found when the observer was prepared. A range
/// that it was prepared for is never refused, where an allocation that is
/// found for a range holds it.
pub proof fn observers_identify_what_they_were_prepared_for<
    I,
    E,
    Query: Fn(u64, u64) -> Result<I, LaunchError>,
    Epoch: FnOnce(u64, &Vec<PhysicalArgumentRange>) -> Option<E>,
    Subrange: Fn(&I, u64, u64) -> Option<Sha256Digest>,
>(
    domains: (AllocationDomain, AllocationDomain),
    capacity: usize,
    ranges: &Vec<PhysicalArgumentRange>,
    query: Query,
    epoch: Epoch,
    observer: PhysicalObserver<I, E>,
    range: PhysicalArgumentRange,
    subrange: Subrange,
    result: Result<Sha256Digest, LaunchError>,
)
    requires
        observer::observer_prepared(
            domains,
            capacity,
            ranges,
            query,
            epoch,
            Ok::<PhysicalObserver<I, E>, LaunchError>(observer),
        ),
        observer::range_identified(observer.allocations@, range, subrange, result),
    ensures
        result matches Ok(digest) ==> exists|allocation: I| #[trigger]
            found_for_a_range(ranges@, query, allocation) && call_ensures(
                subrange,
                (&allocation, range.pointer, range.required_bytes),
                Some(digest),
            ),
        ranges@.contains(range) && (forall|allocation: I|
            call_ensures(
                query,
                (range.pointer, range.required_bytes),
                Ok::<I, LaunchError>(allocation),
            ) ==> !(#[trigger] call_ensures(
                subrange,
                (&allocation, range.pointer, range.required_bytes),
                None::<Sha256Digest>,
            ))) ==> result is Ok,
{
    let allocations = observer.allocations@;
    if let Ok(digest) = result {
        let at = choose|at: int|
            #![trigger allocations[at]]
            0 <= at < allocations.len() && observer::not_among(allocations, at, range, subrange)
                && call_ensures(
                subrange,
                (&allocations[at], range.pointer, range.required_bytes),
                Some(digest),
            );
        assert(found_for_a_range(ranges@, query, allocations[at])) by {
            assert(call_ensures(
                query,
                (ranges@[at].pointer, ranges@[at].required_bytes),
                Ok::<I, LaunchError>(allocations[at]),
            ));
        }
    } else if ranges@.contains(range) {
        let i = choose|i: int| 0 <= i < ranges@.len() && ranges@[i] == range;
        assert(call_ensures(
            query,
            (ranges@[i].pointer, ranges@[i].required_bytes),
            Ok::<I, LaunchError>(allocations[i]),
        ));
        assert(call_ensures(
            subrange,
            (&allocations[i], range.pointer, range.required_bytes),
            None::<Sha256Digest>,
        ));
    }
}

/// An observer holds one allocation for each of its ranges, in their order,
/// keeps the capacity that it was asked for, and belongs to the one context
/// that its stream and its kernels share.
pub proof fn observers_hold_their_ranges<
    I,
    E,
    Query: Fn(u64, u64) -> Result<I, LaunchError>,
    Epoch: FnOnce(u64, &Vec<PhysicalArgumentRange>) -> Option<E>,
>(
    domains: (AllocationDomain, AllocationDomain),
    capacity: usize,
    ranges: &Vec<PhysicalArgumentRange>,
    query: Query,
    epoch: Epoch,
    observer: PhysicalObserver<I, E>,
    i: int,
)
    requires
        observer::observer_prepared(
            domains,
            capacity,
            ranges,
            query,
            epoch,
            Ok::<PhysicalObserver<I, E>, LaunchError>(observer),
        ),
        0 <= i < ranges@.len(),
    ensures
        observer.allocations@.len() == ranges@.len(),
        observer.capacity == capacity,
        call_ensures(
            query,
            (ranges@[i].pointer, ranges@[i].required_bytes),
            Ok::<I, LaunchError>(observer.allocations@[i]),
        ),
        domains.0 == domains.1,
        call_ensures(epoch, (domains.0.context_handle, ranges), observer.managed_epoch),
{
    assert(observer.allocations@[i] == observer.allocations@[i]);
}

} // verus!
