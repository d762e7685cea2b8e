//! Caches of prepared launches: what a launch is keyed by, and when a
//! cached one may be used.

use crate::cache;
use crate::cache::{make_room_in_bounded_cache, CacheKey, PreparedCache};
use crate::identity::{GemmPolicy, GemmRouteIdentity};
use crate::shape::{F32TriadOperands, F32TriadRequest};
use crate::tf32_plan::Tf32PhysicalRoute;
use crate::tma::{TmaAutoRequest, TmaFamily, TmaForcedRoute};
use vstd::prelude::*;

verus! {

/// How a prepared f32 launch was selected.
#[derive(Clone, Copy, Debug, PartialEq, Eq, Structural)]
pub enum F32PreparedSelection {
    Automatic,
    ExactScalar,
    Forced(Tf32PhysicalRoute),
}

/// What a prepared f32 launch is keyed by: floats by their bits, so that a
/// negative zero is told apart.
#[derive(Clone, Copy, Debug, PartialEq, Eq, Structural)]
pub struct PreparedF32Key {
    pub context_token: u64,
    pub policy: GemmPolicy,
    pub selection: F32PreparedSelection,
    pub request: F32TriadRequest,
    pub output: u64,
    pub a: u64,
    pub b: u64,
    pub bias: Option<u64>,
    pub alpha_bits: u32,
    pub beta_bits: u32,
}

impl PreparedF32Key {
    /// The key of a launch.
    #[verifier::allow_in_spec]
    pub fn new(
        context_token: u64,
        policy: GemmPolicy,
        selection: F32PreparedSelection,
        request: F32TriadRequest,
        operands: F32TriadOperands,
    ) -> PreparedF32Key
        returns
            (PreparedF32Key {
                context_token,
                policy,
                selection,
                request,
                output: operands.output,
                a: operands.a,
                b: operands.b,
                bias: operands.bias,
                alpha_bits: operands.alpha,
                beta_bits: operands.beta,
            }),
    {
        PreparedF32Key {
            context_token,
            policy,
            selection,
            request,
            output: operands.output,
            a: operands.a,
            b: operands.b,
            bias: operands.bias,
            alpha_bits: operands.alpha,
            beta_bits: operands.beta,
        }
    }
}

impl CacheKey for PreparedF32Key {
    fn same(&self, other: &PreparedF32Key) -> (equal: bool) {
        *self == *other
    }
}

/// Launches share a key only if they share the context, the policy, the
/// selection, the request, every pointer and the bits of both factors.
pub proof fn f32_key_seals_the_launch(
    left: (u64, GemmPolicy, F32PreparedSelection, F32TriadRequest, F32TriadOperands),
    right: (u64, GemmPolicy, F32PreparedSelection, F32TriadRequest, F32TriadOperands),
)
    requires
        PreparedF32Key::new(left.0, left.1, left.2, left.3, left.4) == PreparedF32Key::new(
            right.0,
            right.1,
            right.2,
            right.3,
            right.4,
        ),
    ensures
        left == right,
{
}

/// What a prepared tensor-map launch is keyed by.
#[derive(Clone, Copy, Debug, PartialEq, Eq)]
pub struct TmaPreparedKey {
    pub context: GemmRouteIdentity,
    pub route: TmaForcedRoute,
    pub a: u64,
    pub b: u64,
    pub output: u64,
    pub bias: u64,
    pub alpha_bits: u32,
    pub beta_bits: u32,
}

impl TmaPreparedKey {
    /// The key of a launch.
    #[verifier::allow_in_spec]
    pub fn new(
        context: GemmRouteIdentity,
        route: TmaForcedRoute,
        request: TmaAutoRequest,
    ) -> TmaPreparedKey
        returns
            (TmaPreparedKey {
                context,
                route,
                a: request.a_ptr,
                b: request.b_ptr,
                output: request.operands.output_ptr,
                bias: request.operands.bias_ptr,
                alpha_bits: request.operands.alpha,
                beta_bits: request.operands.beta,
            }),
    {
        TmaPreparedKey {
            context,
            route,
            a: request.a_ptr,
            b: request.b_ptr,
            output: request.operands.output_ptr,
            bias: request.operands.bias_ptr,
            alpha_bits: request.operands.alpha,
            beta_bits: request.operands.beta,
        }
    }
}

impl CacheKey for TmaPreparedKey {
    fn same(&self, other: &TmaPreparedKey) -> (equal: bool) {
        self.context.same(&other.context) && self.route == other.route && self.a == other.a
            && self.b == other.b && self.output == other.output && self.bias == other.bias
            && self.alpha_bits == other.alpha_bits && self.beta_bits == other.beta_bits
    }
}

/// Launches share a key only if they share the context, the route, every
/// pointer and the bits of both factors.
pub proof fn tma_key_seals_the_launch(
    left: (GemmRouteIdentity, TmaForcedRoute, TmaAutoRequest),
    right: (GemmRouteIdentity, TmaForcedRoute, TmaAutoRequest),
)
    requires
        TmaPreparedKey::new(left.0, left.1, left.2) == TmaPreparedKey::new(
            right.0,
            right.1,
            right.2,
        ),
    ensures
        left.0 == right.0,
        left.1 == right.1,
        left.2.a_ptr == right.2.a_ptr,
        left.2.b_ptr == right.2.b_ptr,
        left.2.operands == right.2.operands,
{
}

/// The key of an SM90a launch.
pub type Sm90aPreparedKey = TmaPreparedKey;

/// The key of an SM100 launch.
pub type Sm100PreparedKey = TmaPreparedKey;

/// The key of an SM120 launch.
pub type Sm120PreparedKey = TmaPreparedKey;

/// How many f32 launches are kept: enough for dozens of layers with their
/// own forward and backward resources.
pub const F32_PREPARED_CACHE_LIMIT: usize = 1024;

/// How many tensor-map launches of one family are kept.
pub const TMA_PREPARED_CACHE_LIMIT: usize = 1024;

/// Whether the allocations behind a cached launch are still those that it
/// was prepared on.
#[derive(Clone, Copy, Debug, PartialEq, Eq, Structural)]
pub enum Sm120ManagedEpochState {
    Missing,
    Current,
    Stale,
    Untracked,
}

/// What to do with a request for a prepared launch.
#[derive(Clone, Copy, Debug, PartialEq, Eq, Structural)]
pub enum Sm120CacheAction {
    UsePrepared,
    Validate,
    Prepare,
    CaptureMissing,
    CaptureStale,
    CaptureUntracked,
}

/// What to do with a request. Outside a capture a cached launch is
/// validated and a missing one is prepared; a capture may only replay a
/// cached launch whose allocations are known to be current.
#[verifier::allow_in_spec]
pub fn sm120_cache_action(
    capturing: bool,
    hit: bool,
    epoch: Sm120ManagedEpochState,
) -> Sm120CacheAction
    returns
        (if !hit {
            if capturing {
                Sm120CacheAction::CaptureMissing
            } else {
                Sm120CacheAction::Prepare
            }
        } else if !capturing {
            Sm120CacheAction::Validate
        } else {
            match epoch {
                Sm120ManagedEpochState::Current => Sm120CacheAction::UsePrepared,
                Sm120ManagedEpochState::Stale => Sm120CacheAction::CaptureStale,
                Sm120ManagedEpochState::Untracked | Sm120ManagedEpochState::Missing =>
                    Sm120CacheAction::CaptureUntracked,
            }
        }),
{
    if !hit {
        return if capturing {
            Sm120CacheAction::CaptureMissing
        } else {
            Sm120CacheAction::Prepare
        };
    }
    if !capturing {
        return Sm120CacheAction::Validate;
    }
    match epoch {
        Sm120ManagedEpochState::Current => Sm120CacheAction::UsePrepared,
        Sm120ManagedEpochState::Stale => Sm120CacheAction::CaptureStale,
        Sm120ManagedEpochState::Untracked | Sm120ManagedEpochState::Missing =>
            Sm120CacheAction::CaptureUntracked,
    }
}

/// A capture never validates or prepares, and uses a cached launch exactly
/// when its allocations are current.
pub proof fn capture_fails_closed(hit: bool, epoch: Sm120ManagedEpochState)
    ensures
        sm120_cache_action(true, hit, epoch) != Sm120CacheAction::Prepare,
        sm120_cache_action(true, hit, epoch) != Sm120CacheAction::Validate,
        sm120_cache_action(true, hit, epoch) == Sm120CacheAction::UsePrepared <==> hit && epoch
            == Sm120ManagedEpochState::Current,
{
}

/// What a capture that may not use the cache answers.
#[verifier::allow_in_spec]
pub fn tma_capture_cache_error(family: TmaFamily, action: Sm120CacheAction) -> &'static str
    returns
        (match (family, action) {
            (TmaFamily::Sm90a, Sm120CacheAction::CaptureMissing) =>
                "prepared SM90a Triad cache entry is missing during graph capture; run eager warmup again",
            (TmaFamily::Sm90a, Sm120CacheAction::CaptureStale) =>
                "prepared SM90a Triad allocation epoch changed during graph capture; run eager warmup again",
            (TmaFamily::Sm90a, Sm120CacheAction::CaptureUntracked) =>
                "prepared SM90a Triad automatic capture requires managed allocations; run eager warmup again",
            (TmaFamily::Sm90a, _) => "SM90a cache action is not a capture error",
            (TmaFamily::Sm100, Sm120CacheAction::CaptureMissing) =>
                "prepared SM100 Triad cache entry is missing during graph capture; run eager warmup again",
            (TmaFamily::Sm100, Sm120CacheAction::CaptureStale) =>
                "prepared SM100 Triad allocation epoch changed during graph capture; run eager warmup again",
            (TmaFamily::Sm100, Sm120CacheAction::CaptureUntracked) =>
                "prepared SM100 Triad automatic capture requires managed allocations; run eager warmup again",
            (TmaFamily::Sm100, _) => "SM100 cache action is not a capture error",
            (TmaFamily::Sm120, Sm120CacheAction::CaptureMissing) =>
                "prepared SM120 Triad cache entry is missing during graph capture; run eager warmup again",
            (TmaFamily::Sm120, Sm120CacheAction::CaptureStale) =>
                "prepared SM120 Triad allocation epoch changed during graph capture; run eager warmup again",
            (TmaFamily::Sm120, Sm120CacheAction::CaptureUntracked) =>
                "prepared SM120 Triad automatic capture requires managed allocations; run eager warmup again",
            (TmaFamily::Sm120, _) => "SM120 cache action is not a capture error",
        }),
{
    match (family, action) {
        (TmaFamily::Sm90a, Sm120CacheAction::CaptureMissing) =>
            "prepared SM90a Triad cache entry is missing during graph capture; run eager warmup again",
        (TmaFamily::Sm90a, Sm120CacheAction::CaptureStale) =>
            "prepared SM90a Triad allocation epoch changed during graph capture; run eager warmup again",
        (TmaFamily::Sm90a, Sm120CacheAction::CaptureUntracked) =>
            "prepared SM90a Triad automatic capture requires managed allocations; run eager warmup again",
        (TmaFamily::Sm90a, _) => "SM90a cache action is not a capture error",
        (TmaFamily::Sm100, Sm120CacheAction::CaptureMissing) =>
            "prepared SM100 Triad cache entry is missing during graph capture; run eager warmup again",
        (TmaFamily::Sm100, Sm120CacheAction::CaptureStale) =>
            "prepared SM100 Triad allocation epoch changed during graph capture; run eager warmup again",
        (TmaFamily::Sm100, Sm120CacheAction::CaptureUntracked) =>
            "prepared SM100 Triad automatic capture requires managed allocations; run eager warmup again",
        (TmaFamily::Sm100, _) => "SM100 cache action is not a capture error",
        (TmaFamily::Sm120, Sm120CacheAction::CaptureMissing) =>
            "prepared SM120 Triad cache entry is missing during graph capture; run eager warmup again",
        (TmaFamily::Sm120, Sm120CacheAction::CaptureStale) =>
            "prepared SM120 Triad allocation epoch changed during graph capture; run eager warmup again",
        (TmaFamily::Sm120, Sm120CacheAction::CaptureUntracked) =>
            "prepared SM120 Triad automatic capture requires managed allocations; run eager warmup again",
        (TmaFamily::Sm120, _) => "SM120 cache action is not a capture error",
    }
}

/// What an SM90a capture that may not use the cache answers.
pub fn sm90a_capture_cache_error(action: Sm120CacheAction) -> (text: &'static str)
    ensures
        text == tma_capture_cache_error(TmaFamily::Sm90a, action),
{
    tma_capture_cache_error(TmaFamily::Sm90a, action)
}

/// What an SM100 capture that may not use the cache answers.
pub fn sm100_capture_cache_error(action: Sm120CacheAction) -> (text: &'static str)
    ensures
        text == tma_capture_cache_error(TmaFamily::Sm100, action),
{
    tma_capture_cache_error(TmaFamily::Sm100, action)
}

/// What an SM120 capture that may not use the cache answers.
pub fn sm120_capture_cache_error(action: Sm120CacheAction) -> (text: &'static str)
    ensures
        text == tma_capture_cache_error(TmaFamily::Sm120, action),
{
    tma_capture_cache_error(TmaFamily::Sm120, action)
}

/// A cached launch with the stamp of the allocations that it was prepared
/// on, where those are managed.
pub struct CachedLaunch<L, E> {
    pub prepared: L,
    pub managed_epoch: Option<E>,
}

/// What a query says of a stamp: there is none, or it is current or not.
pub open spec fn epoch_state<L, E, Current: Fn(&E) -> bool>(
    entry: Option<CachedLaunch<L, E>>,
    is_current: Current,
    state: Sm120ManagedEpochState,
) -> bool {
    match entry {
        None => state == Sm120ManagedEpochState::Missing,
        Some(entry) => match entry.managed_epoch {
            None => state == Sm120ManagedEpochState::Untracked,
            Some(epoch) => {
                ||| state == Sm120ManagedEpochState::Current && call_ensures(
                    is_current,
                    (&epoch,),
                    true,
                )
                ||| state == Sm120ManagedEpochState::Stale && call_ensures(
                    is_current,
                    (&epoch,),
                    false,
                )
            },
        },
    }
}

/// The stamp of a cached launch, where it has one, may be asked about.
pub open spec fn asks_of_stamp<L, E, Current: Fn(&E) -> bool>(
    entry: CachedLaunch<L, E>,
    is_current: &Current,
) -> bool {
    entry.managed_epoch matches Some(epoch) ==> call_requires(*is_current, (&epoch,))
}

/// Every stamp of a cache may be asked about.
pub open spec fn asks_of_stamps<K, L, E, Current: Fn(&E) -> bool>(
    held: Map<K, CachedLaunch<L, E>>,
    is_current: &Current,
) -> bool {
    forall|key: K| #[trigger] held.contains_key(key) ==> asks_of_stamp(held[key], is_current)
}

/// The state of a cached launch's allocations. A launch without a stamp is
/// not asked about.
pub fn managed_epoch_state<L, E, Current: Fn(&E) -> bool>(
    entry: Option<&CachedLaunch<L, E>>,
    is_current: &Current,
) -> (state: Sm120ManagedEpochState)
    requires
        entry matches Some(entry) ==> asks_of_stamp(*entry, is_current),
    ensures
        match entry {
            None => state == Sm120ManagedEpochState::Missing,
            Some(entry) => epoch_state(Some(*entry), *is_current, state),
        },
{
    match entry {
        None => Sm120ManagedEpochState::Missing,
        Some(entry) => match &entry.managed_epoch {
            None => Sm120ManagedEpochState::Untracked,
            Some(epoch) => {
                if is_current(epoch) {
                    Sm120ManagedEpochState::Current
                } else {
                    Sm120ManagedEpochState::Stale
                }
            },
        },
    }
}

/// A cached launch survives a sweep unless its stamp is known to be stale.
pub open spec fn survives<L, E, Current: Fn(&E) -> bool>(
    entry: CachedLaunch<L, E>,
    is_current: &Current,
    kept: bool,
) -> bool {
    match entry.managed_epoch {
        None => kept,
        Some(epoch) => call_ensures(*is_current, (&epoch,), kept),
    }
}

/// What a cache holds after it made room for a key: every launch that is
/// left was there before and survived, every launch that is gone was stale,
/// or else nothing is left because there was no room.
pub open spec fn made_room<K, L, E, Current: Fn(&E) -> bool>(
    before: Map<K, CachedLaunch<L, E>>,
    is_current: &Current,
    key: K,
    limit: usize,
    after: Map<K, CachedLaunch<L, E>>,
) -> bool {
    exists|swept: Map<K, CachedLaunch<L, E>>|
        {
            &&& #[trigger] swept_stale(before, is_current, swept)
            &&& after == cache::room_for(swept, key, limit)
        }
}

/// The stale launches are swept out and no others.
pub open spec fn swept_stale<K, L, E, Current: Fn(&E) -> bool>(
    before: Map<K, CachedLaunch<L, E>>,
    is_current: &Current,
    after: Map<K, CachedLaunch<L, E>>,
) -> bool {
    &&& forall|key: K| #[trigger]
        after.contains_key(key) ==> before.contains_key(key) && after[key] == before[key]
            && survives(before[key], is_current, true)
    &&& forall|key: K| #[trigger]
        before.contains_key(key) && !after.contains_key(key) ==> survives(
            before[key],
            is_current,
            false,
        )
}

/// Sweeps the stale launches out of a cache, makes room and inserts a
/// prepared launch.
pub fn admit_prepared<K: CacheKey, L, E, Current: Fn(&E) -> bool>(
    cache: &mut PreparedCache<K, CachedLaunch<L, E>>,
    key: K,
    entry: CachedLaunch<L, E>,
    limit: usize,
    is_current: &Current,
)
    requires
        asks_of_stamps(old(cache)@, is_current),
    ensures
        exists|roomed: Map<K, CachedLaunch<L, E>>| #[trigger]
            made_room(old(cache)@, is_current, key, limit, roomed) && final(cache)@
                == roomed.insert(key, entry),
{
    let ghost before = cache@;
    let keep = |cached: &CachedLaunch<L, E>| -> (kept: bool)
        requires
            asks_of_stamp(*cached, is_current),
        ensures
            survives(*cached, is_current, kept),
        {
            match &cached.managed_epoch {
                None => true,
                Some(epoch) => is_current(epoch),
            }
        };
    assert forall|other: K| #[trigger] before.contains_key(other) implies call_requires(
        keep,
        (&before[other],),
    ) by {
        assert(asks_of_stamp(before[other], is_current));
    }
    make_room_in_bounded_cache(cache, &key, limit, keep);
    let ghost roomed = cache@;
    proof {
        let swept = choose|swept: Map<K, CachedLaunch<L, E>>| #[trigger]
            cache::sweeps(before, keep, swept) && roomed == cache::room_for(swept, key, limit);
        assert(cache::sweeps(before, keep, swept));
        assert forall|other: K| #[trigger] swept.contains_key(other) implies before.contains_key(
            other,
        ) && swept[other] == before[other] && survives(before[other], is_current, true) by {
            assert(call_ensures(keep, (&before[other],), true));
        }
        assert forall|other: K| #[trigger]
            before.contains_key(other) && !swept.contains_key(other) implies survives(
            before[other],
            is_current,
            false,
        ) by {
            assert(call_ensures(keep, (&before[other],), false));
        }
        assert(swept_stale(before, is_current, swept));
        assert(made_room(before, is_current, key, limit, roomed));
    }
    cache.insert(key, entry);
}

} // verus!
