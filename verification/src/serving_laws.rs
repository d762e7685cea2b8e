//! What serving a request from a cache of prepared launches leaves behind.

use crate::error::LaunchError;
use crate::prepared;
use crate::prepared::{CachedLaunch, Sm120CacheAction, Sm120ManagedEpochState};
use crate::prepared_use;
use crate::tma::TmaFamily;
use vstd::prelude::*;

verus! {

/// Outside of a capture a cached launch is looked at again and a missing one is
/// prepared.
pub proof fn eager_requests_validate_or_prepare(hit: bool, epoch: Sm120ManagedEpochState)
    ensures
        prepared::sm120_cache_action(false, hit, epoch) == (if hit {
            Sm120CacheAction::Validate
        } else {
            Sm120CacheAction::Prepare
        }),
{
}

/// A capture changes nothing in the cache, and it is served exactly by a launch
/// whose allocations are current.
pub proof fn captures_change_nothing<
    K,
    L,
    E,
    Current: Fn(&E) -> bool,
    Validate: FnOnce(&L) -> bool,
    Prepare: FnOnce() -> Result<CachedLaunch<L, E>, LaunchError>,
>(
    before: Map<K, CachedLaunch<L, E>>,
    key: K,
    family: TmaFamily,
    is_current: &Current,
    validate: Validate,
    prepare: Prepare,
    after: Map<K, CachedLaunch<L, E>>,
    result: Result<(), LaunchError>,
)
    requires
        prepared_use::tma_served(
            before,
            key,
            family,
            true,
            is_current,
            validate,
            prepare,
            after,
            result,
        ),
    ensures
        after == before,
        result is Ok ==> before.contains_key(key) && before[key].managed_epoch is Some
            && call_ensures(*is_current, (&before[key].managed_epoch->Some_0,), true),
        result is Err ==> !before.contains_key(key) || before[key].managed_epoch is None
            || call_ensures(*is_current, (&before[key].managed_epoch->Some_0,), false),
{
}

/// A cached launch that validates is used as it is.
pub proof fn valid_launches_are_used_as_they_are<
    K,
    L,
    E,
    Current: Fn(&E) -> bool,
    Validate: FnOnce(&L) -> bool,
    Prepare: FnOnce() -> Result<CachedLaunch<L, E>, LaunchError>,
>(
    before: Map<K, CachedLaunch<L, E>>,
    key: K,
    family: TmaFamily,
    is_current: &Current,
    validate: Validate,
    prepare: Prepare,
    after: Map<K, CachedLaunch<L, E>>,
    result: Result<(), LaunchError>,
)
    requires
        before.contains_key(key),
        !call_ensures(validate, (&before[key].prepared,), false),
        prepared_use::tma_served(
            before,
            key,
            family,
            false,
            is_current,
            validate,
            prepare,
            after,
            result,
        ),
    ensures
        result is Ok,
        after == before,
{
}

/// A prepared launch is kept under its key, and every other launch that is left
/// is one that was there and whose stamp was not stale. A preparation that
/// fails leaves the cache as it was.
pub proof fn prepared_launches_are_kept_under_their_key<
    K,
    L,
    E,
    Current: Fn(&E) -> bool,
    Prepare: FnOnce() -> Result<CachedLaunch<L, E>, LaunchError>,
>(
    before: Map<K, CachedLaunch<L, E>>,
    key: K,
    limit: usize,
    is_current: &Current,
    prepare: Prepare,
    after: Map<K, CachedLaunch<L, E>>,
    result: Result<(), LaunchError>,
    other: K,
)
    requires
        prepared_use::prepares(before, key, limit, is_current, prepare, after, result),
    ensures
        result is Err ==> after == before,
        result is Ok ==> after.contains_key(key) && call_ensures(
            prepare,
            (),
            Ok::<CachedLaunch<L, E>, LaunchError>(after[key]),
        ),
        result is Ok && other != key && after.contains_key(other) ==> {
            &&& before.contains_key(other)
            &&& after[other] == before[other]
            &&& before[other].managed_epoch matches Some(epoch) ==> call_ensures(
                *is_current,
                (&epoch,),
                true,
            )
        },
{
    if result is Ok {
        let built = choose|built: Result<CachedLaunch<L, E>, LaunchError>|
            {
                &&& #[trigger] call_ensures(prepare, (), built)
                &&& match built {
                    Err(error) => result == Err::<(), LaunchError>(error) && after == before,
                    Ok(entry) => {
                        &&& result == Ok::<(), LaunchError>(())
                        &&& exists|roomed: Map<K, CachedLaunch<L, E>>| #[trigger]
                            prepared::made_room(before, is_current, key, limit, roomed) && after
                                == roomed.insert(key, entry)
                    },
                }
            };
        let entry = built->Ok_0;
        let roomed = choose|roomed: Map<K, CachedLaunch<L, E>>| #[trigger]
            prepared::made_room(before, is_current, key, limit, roomed) && after == roomed.insert(
                key,
                entry,
            );
        assert(after[key] == entry);
        if other != key && after.contains_key(other) {
            assert(roomed.contains_key(other));
            assert(roomed[other] == after[other]);
        }
    }
}

/// A single-precision request whose launch has a current stamp is served with
/// that launch, and the cache stays as it is.
pub proof fn current_launches_are_used_as_they_are<
    K,
    L,
    E,
    Current: Fn(&E) -> bool,
    Capture: Fn() -> Result<bool, LaunchError>,
    Validate: FnOnce(&L) -> Result<Option<E>, LaunchError>,
    Prepare: FnOnce() -> Result<CachedLaunch<L, E>, LaunchError>,
>(
    before: Map<K, CachedLaunch<L, E>>,
    key: K,
    is_current: &Current,
    capture_status: &Capture,
    validate: Validate,
    prepare: Prepare,
    after: Map<K, CachedLaunch<L, E>>,
    result: Result<(), LaunchError>,
)
    requires
        before.contains_key(key),
        before[key].managed_epoch is Some,
        !call_ensures(*is_current, (&before[key].managed_epoch->Some_0,), false),
        prepared_use::f32_served(
            before,
            key,
            is_current,
            capture_status,
            validate,
            prepare,
            after,
            result,
        ),
    ensures
        result is Ok,
        after == before,
{
    let (stamp, validity) = choose|stamp: Option<E>, validity: Result<(), LaunchError>|
        {
            let restamped = before.insert(
                key,
                CachedLaunch { prepared: before[key].prepared, managed_epoch: stamp },
            );
            &&& #[trigger] prepared_use::looked_at(
                before[key],
                is_current,
                capture_status,
                validate,
                stamp,
                validity,
            )
            &&& if validity is Ok {
                result == Ok::<(), LaunchError>(()) && after == restamped
            } else {
                prepared_use::f32_prepared_anew(
                    restamped,
                    key,
                    true,
                    is_current,
                    capture_status,
                    prepare,
                    after,
                    result,
                )
            }
        };
    assert(prepared_use::looked_at(
        before[key],
        is_current,
        capture_status,
        validate,
        stamp,
        validity,
    ));
    assert(after =~= before);
}

/// A single-precision request is refused during a capture unless the cache has
/// a launch for it, and the cache stays as it is.
pub proof fn captures_prepare_no_missing_launch<
    K,
    L,
    E,
    Current: Fn(&E) -> bool,
    Capture: Fn() -> Result<bool, LaunchError>,
    Validate: FnOnce(&L) -> Result<Option<E>, LaunchError>,
    Prepare: FnOnce() -> Result<CachedLaunch<L, E>, LaunchError>,
>(
    before: Map<K, CachedLaunch<L, E>>,
    key: K,
    is_current: &Current,
    capture_status: &Capture,
    validate: Validate,
    prepare: Prepare,
    after: Map<K, CachedLaunch<L, E>>,
    result: Result<(), LaunchError>,
)
    requires
        !before.contains_key(key),
        !call_ensures(*capture_status, (), Ok::<bool, LaunchError>(false)),
        prepared_use::f32_served(
            before,
            key,
            is_current,
            capture_status,
            validate,
            prepare,
            after,
            result,
        ),
    ensures
        result is Err,
        after == before,
{
}

/// Looking at a cached f32 launch again leaves it with a stamp that is current,
/// or with none; a refusal leaves it as it was.
pub proof fn refreshed_launches_are_current<
    E,
    Current: Fn(&E) -> bool,
    Capture: FnOnce() -> Result<bool, LaunchError>,
    Validate: FnOnce() -> Result<Option<E>, LaunchError>,
>(
    before: Option<E>,
    is_current: &Current,
    capture_status: Capture,
    validate: Validate,
    after: Option<E>,
    result: Result<(), LaunchError>,
)
    requires
        prepared_use::refreshed(before, is_current, capture_status, validate, after, result),
    ensures
        result is Ok && after is Some ==> call_ensures(
            *is_current,
            (&after->Some_0,),
            true,
        ),
        result is Err ==> after == before,
        result is Ok && after != before ==> call_ensures(
            validate,
            (),
            Ok::<Option<E>, LaunchError>(after),
        ),
{
}

/// While a graph is captured a launch whose stamp is stale is refused, and it
/// is not validated in its stead: only a stamp that is current, or none with a
/// full validation, lets it pass.
pub proof fn captures_refuse_stale_launches<
    E,
    Current: Fn(&E) -> bool,
    Capture: FnOnce() -> Result<bool, LaunchError>,
    Validate: FnOnce() -> Result<Option<E>, LaunchError>,
>(
    epoch: E,
    is_current: &Current,
    capture_status: Capture,
    validate: Validate,
    after: Option<E>,
    result: Result<(), LaunchError>,
)
    requires
        prepared_use::refreshed(
            Some(epoch),
            is_current,
            capture_status,
            validate,
            after,
            result,
        ),
        !call_ensures(*is_current, (&epoch,), true),
        !call_ensures(capture_status, (), Ok::<bool, LaunchError>(false)),
    ensures
        result is Err,
        after == Some(epoch),
{
}

/// A launch whose stamp is current passes unchanged, and one that is not is
/// passed exactly as its validation says.
pub proof fn current_launches_pass_unchanged<
    E,
    Current: Fn(&E) -> bool,
    Capture: FnOnce() -> Result<bool, LaunchError>,
    Validate: FnOnce() -> Result<Option<E>, LaunchError>,
>(
    before: Option<E>,
    is_current: &Current,
    capture_status: Capture,
    validate: Validate,
    after: Option<E>,
    result: Result<(), LaunchError>,
)
    requires
        prepared_use::refreshed(before, is_current, capture_status, validate, after, result),
    ensures
        before is Some && !call_ensures(*is_current, (&before->Some_0,), false) ==> result is Ok
            && after == before,
        before is None && result is Err ==> {
            ||| call_ensures(validate, (), Err::<Option<E>, LaunchError>(result->Err_0))
            ||| exists|fresh: E|
                #![trigger call_ensures(*is_current, (&fresh,), false)]
                call_ensures(*is_current, (&fresh,), false) && call_ensures(
                    validate,
                    (),
                    Ok::<Option<E>, LaunchError>(Some(fresh)),
                )
        },
{
}

} // verus!
