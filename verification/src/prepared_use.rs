//! Using prepared launches: a request is served from the cache, prepared,
//! or refused.

use crate::cache;
use crate::cache::{CacheKey, PreparedCache};
use crate::error::LaunchError;
use crate::prepared;
use crate::prepared::{
    admit_prepared, managed_epoch_state, sm120_cache_action, tma_capture_cache_error, CachedLaunch,
    Sm120CacheAction, F32_PREPARED_CACHE_LIMIT, TMA_PREPARED_CACHE_LIMIT,
};
use crate::tma::TmaFamily;
use vstd::prelude::*;

verus! {

/// A launch is prepared and takes its place in the cache, or the cache is
/// left as it is.
pub open spec fn prepares<K, L, E, Current: Fn(&E) -> bool, Prepare: FnOnce() -> Result<
    CachedLaunch<L, E>,
    LaunchError,
>>(
    before: Map<K, CachedLaunch<L, E>>,
    key: K,
    limit: usize,
    is_current: &Current,
    prepare: Prepare,
    after: Map<K, CachedLaunch<L, E>>,
    result: Result<(), LaunchError>,
) -> bool {
    exists|built: Result<CachedLaunch<L, E>, LaunchError>|
        {
            &&& #[trigger] call_ensures(prepare, (), built)
            &&& match built {
                Err(error) => result == Err::<(), LaunchError>(error) && after == before,
                Ok(entry) => {
                    &&& result == Ok::<(), LaunchError>(())
                    &&& exists|roomed: Map<K, CachedLaunch<L, E>>| #[trigger]
                        prepared::made_room(before, is_current, key, limit, roomed) && after
                            == roomed.insert(key, entry)
                },
            }
        }
}

fn prepare_and_admit<K: CacheKey, L, E, Current: Fn(&E) -> bool, Prepare: FnOnce() -> Result<
    CachedLaunch<L, E>,
    LaunchError,
>>(
    cache: &mut PreparedCache<K, CachedLaunch<L, E>>,
    key: K,
    limit: usize,
    is_current: &Current,
    prepare: Prepare,
) -> (result: Result<(), LaunchError>)
    requires
        call_requires(prepare, ()),
        forall|entry: CachedLaunch<L, E>| #[trigger]
            call_ensures(prepare, (), Ok::<CachedLaunch<L, E>, LaunchError>(entry))
                ==> prepared::asks_of_stamps(old(cache)@, is_current),
    ensures
        prepares(old(cache)@, key, limit, is_current, prepare, final(cache)@, result),
{
    let ghost before = cache@;
    let built = prepare();
    let ghost outcome = built;
    match built {
        Err(error) => {
            assert(call_ensures(prepare, (), outcome));
            Err(error)
        },
        Ok(entry) => {
            admit_prepared(cache, key, entry, limit, is_current);
            assert(call_ensures(prepare, (), outcome));
            Ok(())
        },
    }
}

/// How a request for a tensor-map launch ends.
pub open spec fn tma_served<
    K,
    L,
    E,
    Current: Fn(&E) -> bool,
    Validate: FnOnce(&L) -> bool,
    Prepare: FnOnce() -> Result<CachedLaunch<L, E>, LaunchError>,
>(
    before: Map<K, CachedLaunch<L, E>>,
    key: K,
    family: TmaFamily,
    capturing: bool,
    is_current: &Current,
    validate: Validate,
    prepare: Prepare,
    after: Map<K, CachedLaunch<L, E>>,
    result: Result<(), LaunchError>,
) -> bool {
    let refused = |action: Sm120CacheAction|
        result == Err::<(), LaunchError>(
            LaunchError::Rejected(tma_capture_cache_error(family, action)),
        ) && after == before;
    let used = result == Ok::<(), LaunchError>(()) && after == before;
    if !before.contains_key(key) {
        if capturing {
            refused(Sm120CacheAction::CaptureMissing)
        } else {
            prepares(before, key, TMA_PREPARED_CACHE_LIMIT, is_current, prepare, after, result)
        }
    } else if capturing {
        match before[key].managed_epoch {
            None => refused(Sm120CacheAction::CaptureUntracked),
            Some(epoch) => {
                ||| call_ensures(*is_current, (&epoch,), true) && used
                ||| call_ensures(*is_current, (&epoch,), false) && refused(
                    Sm120CacheAction::CaptureStale,
                )
            },
        }
    } else {
        ||| call_ensures(validate, (&before[key].prepared,), true) && used
        ||| call_ensures(validate, (&before[key].prepared,), false) && prepares(
            before.remove(key),
            key,
            TMA_PREPARED_CACHE_LIMIT,
            is_current,
            prepare,
            after,
            result,
        )
    }
}

/// A tensor-map launch is prepared: no graph is captured, and the cache
/// holds no launch that may validate.
pub open spec fn tma_preparation_due<K, L, E, Validate: FnOnce(&L) -> bool>(
    before: Map<K, CachedLaunch<L, E>>,
    key: K,
    capturing: bool,
    validate: Validate,
) -> bool {
    &&& !capturing
    &&& before.contains_key(key) ==> call_ensures(validate, (&before[key].prepared,), false)
}

/// Serves a request for a tensor-map launch. While a graph is captured, a
/// cached launch is used if its allocations are current and every other
/// request is refused; nothing is validated or prepared. Otherwise a cached
/// launch that does not validate is dropped and prepared again.
pub fn ensure_tma_prepared<
    K: CacheKey,
    L,
    E,
    Current: Fn(&E) -> bool,
    Validate: FnOnce(&L) -> bool,
    Prepare: FnOnce() -> Result<CachedLaunch<L, E>, LaunchError>,
>(
    cache: &mut PreparedCache<K, CachedLaunch<L, E>>,
    key: K,
    family: TmaFamily,
    capturing: bool,
    is_current: &Current,
    validate: Validate,
    prepare: Prepare,
) -> (result: Result<(), LaunchError>)
    requires
        old(cache)@.contains_key(key) ==> prepared::asks_of_stamp(old(cache)@[key], is_current),
        !capturing && old(cache)@.contains_key(key) ==> call_requires(
            validate,
            (&old(cache)@[key].prepared,),
        ),
        tma_preparation_due(old(cache)@, key, capturing, validate) ==> call_requires(prepare, ()),
        forall|entry: CachedLaunch<L, E>|
            tma_preparation_due(old(cache)@, key, capturing, validate) && #[trigger] call_ensures(
                prepare,
                (),
                Ok::<CachedLaunch<L, E>, LaunchError>(entry),
            ) ==> prepared::asks_of_stamps(old(cache)@.remove(key), is_current),
    ensures
        tma_served(
            old(cache)@,
            key,
            family,
            capturing,
            is_current,
            validate,
            prepare,
            final(cache)@,
            result,
        ),
        result is Ok ==> final(cache)@.contains_key(key),
{
    let ghost before = cache@;
    let epoch = managed_epoch_state(cache.get(&key), is_current);
    let action = sm120_cache_action(capturing, cache.contains_key(&key), epoch);
    match action {
        Sm120CacheAction::UsePrepared => {
            return Ok(());
        },
        Sm120CacheAction::CaptureMissing
        | Sm120CacheAction::CaptureStale
        | Sm120CacheAction::CaptureUntracked => {
            return Err(LaunchError::Rejected(tma_capture_cache_error(family, action)));
        },
        Sm120CacheAction::Validate => {
            let valid = match cache.get(&key) {
                Some(entry) => validate(&entry.prepared),
                None => false,
            };
            if valid {
                return Ok(());
            }
            let _ = cache.remove(&key);
        },
        Sm120CacheAction::Prepare => {
            assert(before.remove(key) =~= before);
        },
    }
    prepare_and_admit(cache, key, TMA_PREPARED_CACHE_LIMIT, is_current, prepare)
}

/// How a full validation of a cached launch ends: its stamp is replaced by
/// one that is current, or by none.
pub open spec fn revalidated<E, Current: Fn(&E) -> bool>(
    validation: Result<Option<E>, LaunchError>,
    is_current: &Current,
    before: Option<E>,
    after: Option<E>,
    result: Result<(), LaunchError>,
) -> bool {
    match validation {
        Err(error) => result == Err::<(), LaunchError>(error) && after == before,
        Ok(None) => result == Ok::<(), LaunchError>(()) && after == None::<E>,
        Ok(Some(fresh)) => {
            ||| call_ensures(*is_current, (&fresh,), true) && result == Ok::<(), LaunchError>(())
                && after == Some(fresh)
            ||| call_ensures(*is_current, (&fresh,), false) && result == Err::<(), LaunchError>(
                LaunchError::Rejected(
                    "managed CUDA allocation epoch changed during f32 Triad validation",
                ),
            ) && after == before
        },
    }
}

/// How a cached f32 launch is looked at again. A current stamp ends it; a
/// stale stamp ends it while a graph is captured; everything else is fully
/// validated.
pub open spec fn refreshed<
    E,
    Current: Fn(&E) -> bool,
    Capture: FnOnce() -> Result<bool, LaunchError>,
    Validate: FnOnce() -> Result<Option<E>, LaunchError>,
>(
    before: Option<E>,
    is_current: &Current,
    capture_status: Capture,
    validate: Validate,
    after: Option<E>,
    result: Result<(), LaunchError>,
) -> bool {
    let full = exists|validation: Result<Option<E>, LaunchError>| #[trigger]
        call_ensures(validate, (), validation) && revalidated(
            validation,
            is_current,
            before,
            after,
            result,
        );
    match before {
        None => full,
        Some(epoch) => {
            ||| call_ensures(*is_current, (&epoch,), true) && result == Ok::<(), LaunchError>(())
                && after == before
            ||| call_ensures(*is_current, (&epoch,), false) && exists|status: Result<
                bool,
                LaunchError,
            >| #[trigger]
                call_ensures(capture_status, (), status) && match status {
                    Err(error) => result == Err::<(), LaunchError>(error) && after == before,
                    Ok(true) => result == Err::<(), LaunchError>(
                        LaunchError::Rejected(
                            "prepared f32 Triad allocation epoch changed during graph capture; run eager warmup again",
                        ),
                    ) && after == before,
                    Ok(false) => full,
                }
        },
    }
}

/// A stamp that may be stale.
pub open spec fn stale_stamp<E, Current: Fn(&E) -> bool>(
    stamp: Option<E>,
    is_current: &Current,
) -> bool {
    stamp matches Some(epoch) && call_ensures(*is_current, (&epoch,), false)
}

/// A cached f32 launch is fully validated: it has no stamp, or a stale one
/// outside of a capture.
pub open spec fn validation_due<
    E,
    Current: Fn(&E) -> bool,
    Capture: FnOnce() -> Result<bool, LaunchError>,
>(stamp: Option<E>, is_current: &Current, capture_status: Capture) -> bool {
    stamp is None || (stale_stamp(stamp, is_current) && call_ensures(
        capture_status,
        (),
        Ok::<bool, LaunchError>(false),
    ))
}

/// Looks at a cached f32 launch again. A launch on unmanaged allocations
/// has no stamp: it is fully validated and the capture status is not asked.
/// A current stamp asks for neither, and nothing is validated while a graph
/// is captured.
pub fn refresh_cached_validation<
    E,
    Current: Fn(&E) -> bool,
    Capture: FnOnce() -> Result<bool, LaunchError>,
    Validate: FnOnce() -> Result<Option<E>, LaunchError>,
>(
    stamp: &mut Option<E>,
    is_current: &Current,
    capture_status: Capture,
    validate: Validate,
) -> (result: Result<(), LaunchError>)
    requires
        (*old(stamp)) matches Some(epoch) ==> call_requires(*is_current, (&epoch,)),
        stale_stamp(*old(stamp), is_current) ==> call_requires(capture_status, ()),
        validation_due(*old(stamp), is_current, capture_status) ==> call_requires(validate, ()),
        forall|fresh: E|
            validation_due(*old(stamp), is_current, capture_status) && #[trigger] call_ensures(
                validate,
                (),
                Ok::<Option<E>, LaunchError>(Some(fresh)),
            ) ==> call_requires(*is_current, (&fresh,)),
    ensures
        refreshed(*old(stamp), is_current, capture_status, validate, *final(stamp), result),
{
    let ghost before = *stamp;
    let managed = match &*stamp {
        Some(epoch) => {
            if is_current(epoch) {
                return Ok(());
            }
            true
        },
        None => false,
    };
    if managed {
        let status = capture_status();
        assert(call_ensures(capture_status, (), status));
        match status {
            Err(error) => {
                return Err(error);
            },
            Ok(true) => {
                return Err(
                    LaunchError::Rejected(
                        "prepared f32 Triad allocation epoch changed during graph capture; run eager warmup again",
                    ),
                );
            },
            Ok(false) => {},
        }
    }
    let validation = validate();
    let ghost outcome = validation;
    assert(call_ensures(validate, (), outcome));
    match validation {
        Err(error) => {
            assert(revalidated(
                outcome,
                is_current,
                before,
                *stamp,
                Err::<(), LaunchError>(error),
            ));
            Err(error)
        },
        Ok(None) => {
            *stamp = None;
            assert(revalidated(outcome, is_current, before, *stamp, Ok::<(), LaunchError>(())));
            Ok(())
        },
        Ok(Some(fresh)) => {
            if !is_current(&fresh) {
                let refused: Result<(), LaunchError> = Err(
                    LaunchError::Rejected(
                        "managed CUDA allocation epoch changed during f32 Triad validation",
                    ),
                );
                assert(revalidated(outcome, is_current, before, *stamp, refused));
                return refused;
            }
            *stamp = Some(fresh);
            assert(revalidated(outcome, is_current, before, *stamp, Ok::<(), LaunchError>(())));
            Ok(())
        },
    }
}

/// How a cached f32 launch is looked at again: whether it is still valid,
/// and the stamp that it is left with.
pub open spec fn looked_at<
    L,
    E,
    Current: Fn(&E) -> bool,
    Capture: Fn() -> Result<bool, LaunchError>,
    Validate: FnOnce(&L) -> Result<Option<E>, LaunchError>,
>(
    entry: CachedLaunch<L, E>,
    is_current: &Current,
    capture_status: &Capture,
    validate: Validate,
    after: Option<E>,
    result: Result<(), LaunchError>,
) -> bool {
    let before = entry.managed_epoch;
    let full = exists|validation: Result<Option<E>, LaunchError>| #[trigger]
        call_ensures(validate, (&entry.prepared,), validation) && revalidated(
            validation,
            is_current,
            before,
            after,
            result,
        );
    match before {
        None => full,
        Some(epoch) => {
            ||| call_ensures(*is_current, (&epoch,), true) && result == Ok::<(), LaunchError>(())
                && after == before
            ||| call_ensures(*is_current, (&epoch,), false) && exists|status: Result<
                bool,
                LaunchError,
            >| #[trigger]
                call_ensures(*capture_status, (), status) && match status {
                    Ok(false) => full,
                    _ => result is Err && after == before,
                }
        },
    }
}

/// How a request that the cache does not serve ends: it is refused while a
/// graph is captured, and prepared otherwise.
pub open spec fn f32_prepared_anew<
    K,
    L,
    E,
    Current: Fn(&E) -> bool,
    Capture: Fn() -> Result<bool, LaunchError>,
    Prepare: FnOnce() -> Result<CachedLaunch<L, E>, LaunchError>,
>(
    before: Map<K, CachedLaunch<L, E>>,
    key: K,
    stale: bool,
    is_current: &Current,
    capture_status: &Capture,
    prepare: Prepare,
    after: Map<K, CachedLaunch<L, E>>,
    result: Result<(), LaunchError>,
) -> bool {
    exists|status: Result<bool, LaunchError>|
        {
            &&& #[trigger] call_ensures(*capture_status, (), status)
            &&& match status {
                Err(error) => result == Err::<(), LaunchError>(error) && after == before,
                Ok(true) => result == Err::<(), LaunchError>(f32_capture_refusal(stale)) && after
                    == before,
                Ok(false) => prepares(
                    before,
                    key,
                    F32_PREPARED_CACHE_LIMIT,
                    is_current,
                    prepare,
                    after,
                    result,
                ),
            }
        }
}

/// What a capture that may not use the f32 cache answers.
#[verifier::allow_in_spec]
pub fn f32_capture_refusal(stale: bool) -> LaunchError
    returns
        (if stale {
            LaunchError::Rejected(
                "prepared f32 Triad cache entry is stale during graph capture; run eager warmup again",
            )
        } else {
            LaunchError::Rejected(
                "prepared f32 Triad cache entry is missing during graph capture; run eager warmup again",
            )
        }),
{
    if stale {
        LaunchError::Rejected(
            "prepared f32 Triad cache entry is stale during graph capture; run eager warmup again",
        )
    } else {
        LaunchError::Rejected(
            "prepared f32 Triad cache entry is missing during graph capture; run eager warmup again",
        )
    }
}

/// How a request for an f32 launch ends.
pub open spec fn f32_served<
    K,
    L,
    E,
    Current: Fn(&E) -> bool,
    Capture: Fn() -> Result<bool, LaunchError>,
    Validate: FnOnce(&L) -> Result<Option<E>, LaunchError>,
    Prepare: FnOnce() -> Result<CachedLaunch<L, E>, LaunchError>,
>(
    before: Map<K, CachedLaunch<L, E>>,
    key: K,
    is_current: &Current,
    capture_status: &Capture,
    validate: Validate,
    prepare: Prepare,
    after: Map<K, CachedLaunch<L, E>>,
    result: Result<(), LaunchError>,
) -> bool {
    if !before.contains_key(key) {
        f32_prepared_anew(
            before,
            key,
            false,
            is_current,
            capture_status,
            prepare,
            after,
            result,
        )
    } else {
        exists|stamp: Option<E>, validity: Result<(), LaunchError>|
            {
                let restamped = before.insert(
                    key,
                    CachedLaunch { prepared: before[key].prepared, managed_epoch: stamp },
                );
                &&& #[trigger] looked_at(
                    before[key],
                    is_current,
                    capture_status,
                    validate,
                    stamp,
                    validity,
                )
                &&& if validity is Ok {
                    result == Ok::<(), LaunchError>(()) && after == restamped
                } else {
                    f32_prepared_anew(
                        restamped,
                        key,
                        true,
                        is_current,
                        capture_status,
                        prepare,
                        after,
                        result,
                    )
                }
            }
    }
}

/// The cache does not serve an f32 request: it holds no launch, or one that
/// may turn out not to be valid.
pub open spec fn f32_unserved<
    K,
    L,
    E,
    Current: Fn(&E) -> bool,
    Capture: Fn() -> Result<bool, LaunchError>,
    Validate: FnOnce(&L) -> Result<Option<E>, LaunchError>,
>(
    before: Map<K, CachedLaunch<L, E>>,
    key: K,
    is_current: &Current,
    capture_status: &Capture,
    validate: Validate,
) -> bool {
    before.contains_key(key) ==> exists|stamp: Option<E>, error: LaunchError| #[trigger]
        looked_at(
            before[key],
            is_current,
            capture_status,
            validate,
            stamp,
            Err::<(), LaunchError>(error),
        )
}

/// An f32 launch is prepared: the cache does not serve it and no graph is
/// captured.
pub open spec fn f32_preparation_due<
    K,
    L,
    E,
    Current: Fn(&E) -> bool,
    Capture: Fn() -> Result<bool, LaunchError>,
    Validate: FnOnce(&L) -> Result<Option<E>, LaunchError>,
>(
    before: Map<K, CachedLaunch<L, E>>,
    key: K,
    is_current: &Current,
    capture_status: &Capture,
    validate: Validate,
) -> bool {
    &&& f32_unserved(before, key, is_current, capture_status, validate)
    &&& call_ensures(*capture_status, (), Ok::<bool, LaunchError>(false))
}

/// Serves a request for an f32 launch: a cached launch is looked at again
/// and used if it is still valid; a missing or stale one is prepared unless
/// a graph is captured. A launch that is used prepares nothing, and a
/// capture neither validates nor prepares.
#[verifier::spinoff_prover]
#[verifier::rlimit(60)]
pub fn ensure_f32_prepared<
    K: CacheKey,
    L,
    E,
    Current: Fn(&E) -> bool,
    Capture: Fn() -> Result<bool, LaunchError>,
    Validate: FnOnce(&L) -> Result<Option<E>, LaunchError>,
    Prepare: FnOnce() -> Result<CachedLaunch<L, E>, LaunchError>,
>(
    cache: &mut PreparedCache<K, CachedLaunch<L, E>>,
    key: K,
    is_current: &Current,
    capture_status: &Capture,
    validate: Validate,
    prepare: Prepare,
) -> (result: Result<(), LaunchError>)
    where K: Copy
    requires
        old(cache)@.contains_key(key) ==> prepared::asks_of_stamp(old(cache)@[key], is_current),
        old(cache)@.contains_key(key) && stale_stamp(
            old(cache)@[key].managed_epoch,
            is_current,
        ) ==> call_requires(*capture_status, ()),
        old(cache)@.contains_key(key) && validation_due(
            old(cache)@[key].managed_epoch,
            is_current,
            *capture_status,
        ) ==> call_requires(validate, (&old(cache)@[key].prepared,)),
        forall|fresh: E|
            old(cache)@.contains_key(key) && validation_due(
                old(cache)@[key].managed_epoch,
                is_current,
                *capture_status,
            ) && #[trigger] call_ensures(
                validate,
                (&old(cache)@[key].prepared,),
                Ok::<Option<E>, LaunchError>(Some(fresh)),
            ) ==> call_requires(*is_current, (&fresh,)),
        f32_unserved(old(cache)@, key, is_current, capture_status, validate) ==> call_requires(
            *capture_status,
            (),
        ),
        f32_preparation_due(old(cache)@, key, is_current, capture_status, validate)
            ==> call_requires(prepare, ()),
        forall|entry: CachedLaunch<L, E>|
            f32_preparation_due(old(cache)@, key, is_current, capture_status, validate)
                && #[trigger] call_ensures(
                prepare,
                (),
                Ok::<CachedLaunch<L, E>, LaunchError>(entry),
            ) ==> prepared::asks_of_stamps(old(cache)@, is_current),
    ensures
        f32_served(
            old(cache)@,
            key,
            is_current,
            capture_status,
            validate,
            prepare,
            final(cache)@,
            result,
        ),
        result is Ok ==> final(cache)@.contains_key(key),
{
    let ghost before = cache@;
    let stale = match cache.remove(&key) {
        None => {
            assert(cache@ =~= before);
            false
        },
        Some(entry) => {
            let ghost original = entry;
            let CachedLaunch { prepared, managed_epoch: mut stamp } = entry;
            let validity = {
                let launch = &prepared;
                let status = || -> (status: Result<bool, LaunchError>)
                    requires
                        call_requires(*capture_status, ()),
                    ensures
                        call_ensures(*capture_status, (), status),
                    { capture_status() };
                let full = || -> (validation: Result<Option<E>, LaunchError>)
                    requires
                        call_requires(validate, (launch,)),
                    ensures
                        call_ensures(validate, (launch,), validation),
                    { validate(launch) };
                refresh_cached_validation(&mut stamp, is_current, status, full)
            };
            let ghost restamped = CachedLaunch { prepared, managed_epoch: stamp };
            assert(looked_at(
                original,
                is_current,
                capture_status,
                validate,
                stamp,
                validity,
            ));
            cache.insert(key, CachedLaunch { prepared, managed_epoch: stamp });
            assert(cache@ =~= before.insert(key, restamped));
            if validity.is_ok() {
                return Ok(());
            }
            true
        },
    };
    let ghost base = cache@;
    let status = capture_status();
    assert(call_ensures(*capture_status, (), status));
    match status {
        Err(error) => Err(error),
        Ok(true) => Err(f32_capture_refusal(stale)),
        Ok(false) => prepare_and_admit(cache, key, F32_PREPARED_CACHE_LIMIT, is_current, prepare),
    }
}

/// A cache that holds no more than its limit still does after a launch was
/// prepared for it.
pub proof fn preparing_keeps_the_limit<
    K,
    L,
    E,
    Current: Fn(&E) -> bool,
    Prepare: FnOnce() -> Result<CachedLaunch<L, E>, LaunchError>,
>(
    before: Map<K, CachedLaunch<L, E>>,
    key: K,
    limit: usize,
    is_current: &Current,
    prepare: Prepare,
    after: Map<K, CachedLaunch<L, E>>,
    result: Result<(), LaunchError>,
)
    requires
        before.dom().finite(),
        before.len() <= limit,
        limit >= 1,
        prepares(before, key, limit, is_current, prepare, after, result),
    ensures
        after.dom().finite(),
        after.len() <= limit,
{
    if result is Ok {
        let built = choose|built: Result<CachedLaunch<L, E>, LaunchError>|
            {
                &&& #[trigger] call_ensures(prepare, (), built)
                &&& match built {
                    Err(error) => result == Err::<(), LaunchError>(error) && after == before,
                    Ok(entry) => {
                        &&& result == Ok::<(), LaunchError>(())
                        &&& exists|roomed: Map<K, CachedLaunch<L, E>>| #[trigger]
                            prepared::made_room(before, is_current, key, limit, roomed) && after
                                == roomed.insert(key, entry)
                    },
                }
            };
        let entry = built->Ok_0;
        let roomed = choose|roomed: Map<K, CachedLaunch<L, E>>| #[trigger]
            prepared::made_room(before, is_current, key, limit, roomed) && after == roomed.insert(
                key,
                entry,
            );
        let swept = choose|swept: Map<K, CachedLaunch<L, E>>|
            {
                &&& #[trigger] prepared::swept_stale(before, is_current, swept)
                &&& roomed == cache::room_for(swept, key, limit)
            };
        assert forall|other: K| swept.dom().contains(other) implies before.dom().contains(
            other,
        ) by {
            assert(swept.contains_key(other));
        }
        cache::swept_cache_stays_bounded(before, swept, key, entry, limit);
    }
}

/// A cache of tensor-map launches that holds no more than its limit still
/// does after every request.
pub proof fn tma_serving_keeps_the_limit<
    K,
    L,
    E,
    Current: Fn(&E) -> bool,
    Validate: FnOnce(&L) -> bool,
    Prepare: FnOnce() -> Result<CachedLaunch<L, E>, LaunchError>,
>(
    before: Map<K, CachedLaunch<L, E>>,
    key: K,
    family: TmaFamily,
    capturing: bool,
    is_current: &Current,
    validate: Validate,
    prepare: Prepare,
    after: Map<K, CachedLaunch<L, E>>,
    result: Result<(), LaunchError>,
)
    requires
        before.dom().finite(),
        before.len() <= TMA_PREPARED_CACHE_LIMIT,
        tma_served(
            before,
            key,
            family,
            capturing,
            is_current,
            validate,
            prepare,
            after,
            result,
        ),
    ensures
        after.dom().finite(),
        after.len() <= TMA_PREPARED_CACHE_LIMIT,
{
    let limit = TMA_PREPARED_CACHE_LIMIT;
    let dropped = before.remove(key);
    assert(dropped.dom() =~= before.dom().remove(key));
    if prepares(before, key, limit, is_current, prepare, after, result) {
        preparing_keeps_the_limit(before, key, limit, is_current, prepare, after, result);
    }
    if prepares(dropped, key, limit, is_current, prepare, after, result) {
        preparing_keeps_the_limit(dropped, key, limit, is_current, prepare, after, result);
    }
}

proof fn f32_preparing_anew_keeps_the_limit<
    K,
    L,
    E,
    Current: Fn(&E) -> bool,
    Capture: Fn() -> Result<bool, LaunchError>,
    Prepare: FnOnce() -> Result<CachedLaunch<L, E>, LaunchError>,
>(
    before: Map<K, CachedLaunch<L, E>>,
    key: K,
    stale: bool,
    is_current: &Current,
    capture_status: &Capture,
    prepare: Prepare,
    after: Map<K, CachedLaunch<L, E>>,
    result: Result<(), LaunchError>,
)
    requires
        before.dom().finite(),
        before.len() <= F32_PREPARED_CACHE_LIMIT,
        f32_prepared_anew(
            before,
            key,
            stale,
            is_current,
            capture_status,
            prepare,
            after,
            result,
        ),
    ensures
        after.dom().finite(),
        after.len() <= F32_PREPARED_CACHE_LIMIT,
{
    let limit = F32_PREPARED_CACHE_LIMIT;
    if prepares(before, key, limit, is_current, prepare, after, result) {
        preparing_keeps_the_limit(before, key, limit, is_current, prepare, after, result);
    }
}

/// A cache of f32 launches that holds no more than its limit still does
/// after every request.
pub proof fn f32_serving_keeps_the_limit<
    K,
    L,
    E,
    Current: Fn(&E) -> bool,
    Capture: Fn() -> Result<bool, LaunchError>,
    Validate: FnOnce(&L) -> Result<Option<E>, LaunchError>,
    Prepare: FnOnce() -> Result<CachedLaunch<L, E>, LaunchError>,
>(
    before: Map<K, CachedLaunch<L, E>>,
    key: K,
    is_current: &Current,
    capture_status: &Capture,
    validate: Validate,
    prepare: Prepare,
    after: Map<K, CachedLaunch<L, E>>,
    result: Result<(), LaunchError>,
)
    requires
        before.dom().finite(),
        before.len() <= F32_PREPARED_CACHE_LIMIT,
        f32_served(
            before,
            key,
            is_current,
            capture_status,
            validate,
            prepare,
            after,
            result,
        ),
    ensures
        after.dom().finite(),
        after.len() <= F32_PREPARED_CACHE_LIMIT,
{
    if !before.contains_key(key) {
        f32_preparing_anew_keeps_the_limit(
            before,
            key,
            false,
            is_current,
            capture_status,
            prepare,
            after,
            result,
        );
    } else {
        let (stamp, validity) = choose|stamp: Option<E>, validity: Result<(), LaunchError>|
            {
                let restamped = before.insert(
                    key,
                    CachedLaunch { prepared: before[key].prepared, managed_epoch: stamp },
                );
                &&& #[trigger] looked_at(
                    before[key],
                    is_current,
                    capture_status,
                    validate,
                    stamp,
                    validity,
                )
                &&& if validity is Ok {
                    result == Ok::<(), LaunchError>(()) && after == restamped
                } else {
                    f32_prepared_anew(
                        restamped,
                        key,
                        true,
                        is_current,
                        capture_status,
                        prepare,
                        after,
                        result,
                    )
                }
            };
        let restamped = before.insert(
            key,
            CachedLaunch { prepared: before[key].prepared, managed_epoch: stamp },
        );
        assert(restamped.dom() =~= before.dom());
        if validity is Err {
            f32_preparing_anew_keeps_the_limit(
                restamped,
                key,
                true,
                is_current,
                capture_status,
                prepare,
                after,
                result,
            );
        }
    }
}

} // verus!
