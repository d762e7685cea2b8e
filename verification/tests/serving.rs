use gemm_bi_triad::cache::PreparedCache;
use gemm_bi_triad::error::LaunchError;
use gemm_bi_triad::prepared::{
    tma_capture_cache_error, CachedLaunch, Sm120CacheAction, F32_PREPARED_CACHE_LIMIT,
    TMA_PREPARED_CACHE_LIMIT,
};
use gemm_bi_triad::prepared_use::{ensure_f32_prepared, ensure_tma_prepared, f32_capture_refusal};
use gemm_bi_triad::tma::TmaFamily;
use std::cell::Cell;

type Launches = PreparedCache<u32, CachedLaunch<u64, u64>>;

fn stamped(prepared: u64, epoch: u64) -> CachedLaunch<u64, u64> {
    CachedLaunch {
        prepared,
        managed_epoch: Some(epoch),
    }
}

fn untracked(prepared: u64) -> CachedLaunch<u64, u64> {
    CachedLaunch {
        prepared,
        managed_epoch: None,
    }
}

fn held(cache: &Launches, key: u32) -> Option<(u64, Option<u64>)> {
    cache.get(&key).map(|entry| (entry.prepared, entry.managed_epoch))
}

const CURRENT: u64 = 7;

fn is_current(epoch: &u64) -> bool {
    *epoch == CURRENT
}

#[test]
fn tensor_map_requests_prepare_once_and_then_use_the_cache() {
    let mut cache: Launches = PreparedCache::new();
    let prepared = Cell::new(0);
    for _ in 0..3 {
        let served = ensure_tma_prepared(
            &mut cache,
            1,
            TmaFamily::Sm120,
            false,
            &is_current,
            |launch: &u64| *launch == 40,
            || {
                assert_eq!(prepared.get(), 0, "a launch that validates is not prepared");
                prepared.set(prepared.get() + 1);
                Ok(stamped(40, CURRENT))
            },
        );
        assert_eq!(served, Ok(()));
    }
    assert_eq!(prepared.get(), 1);
    assert_eq!(held(&cache, 1), Some((40, Some(CURRENT))));

    let served = ensure_tma_prepared(
        &mut cache,
        1,
        TmaFamily::Sm120,
        false,
        &is_current,
        |_: &u64| false,
        || Ok(stamped(41, CURRENT)),
    );
    assert_eq!(served, Ok(()));
    assert_eq!(held(&cache, 1), Some((41, Some(CURRENT))));

    let refused = LaunchError::Rejected("no tensor maps");
    let served = ensure_tma_prepared(
        &mut cache,
        1,
        TmaFamily::Sm120,
        false,
        &is_current,
        |_: &u64| false,
        || Err(refused),
    );
    assert_eq!(served, Err(refused));
    assert_eq!(held(&cache, 1), None);
}

#[test]
fn captures_use_current_tensor_map_launches_and_refuse_the_rest() {
    let mut cache: Launches = PreparedCache::new();
    cache.insert(1, stamped(10, CURRENT));
    cache.insert(2, stamped(20, CURRENT - 1));
    cache.insert(3, untracked(30));
    for (key, action) in [
        (2, Sm120CacheAction::CaptureStale),
        (3, Sm120CacheAction::CaptureUntracked),
        (4, Sm120CacheAction::CaptureMissing),
    ] {
        let served = ensure_tma_prepared(
            &mut cache,
            key,
            TmaFamily::Sm100,
            true,
            &is_current,
            |_: &u64| panic!("a capture validates nothing"),
            || panic!("a capture prepares nothing"),
        );
        assert_eq!(
            served,
            Err(LaunchError::Rejected(tma_capture_cache_error(
                TmaFamily::Sm100,
                action
            )))
        );
    }
    let served = ensure_tma_prepared(
        &mut cache,
        1,
        TmaFamily::Sm100,
        true,
        &is_current,
        |_: &u64| panic!("a capture validates nothing"),
        || panic!("a capture prepares nothing"),
    );
    assert_eq!(served, Ok(()));
    assert_eq!(cache.len(), 3);
}

#[test]
fn preparing_sweeps_stale_launches_out() {
    let mut cache: Launches = PreparedCache::new();
    cache.insert(1, stamped(10, CURRENT - 1));
    cache.insert(2, stamped(20, CURRENT));
    let served = ensure_tma_prepared(
        &mut cache,
        3,
        TmaFamily::Sm90a,
        false,
        &is_current,
        |_: &u64| true,
        || Ok(stamped(30, CURRENT)),
    );
    assert_eq!(served, Ok(()));
    assert_eq!(held(&cache, 1), None);
    assert_eq!(held(&cache, 2), Some((20, Some(CURRENT))));
    assert_eq!(held(&cache, 3), Some((30, Some(CURRENT))));
    assert!(cache.len() <= TMA_PREPARED_CACHE_LIMIT);
}

#[test]
fn f32_requests_restamp_valid_launches() {
    let mut cache: Launches = PreparedCache::new();
    cache.insert(1, stamped(10, CURRENT));
    let served = ensure_f32_prepared(
        &mut cache,
        1,
        &is_current,
        &|| panic!("a current stamp does not ask for the capture"),
        |_: &u64| panic!("a current stamp is enough"),
        || panic!("nothing is to prepare"),
    );
    assert_eq!(served, Ok(()));

    cache.insert(1, stamped(10, CURRENT - 1));
    let served = ensure_f32_prepared(
        &mut cache,
        1,
        &is_current,
        &|| Ok(false),
        |launch: &u64| {
            assert_eq!(*launch, 10);
            Ok(Some(CURRENT))
        },
        || panic!("nothing is to prepare"),
    );
    assert_eq!(served, Ok(()));
    assert_eq!(held(&cache, 1), Some((10, Some(CURRENT))));
}

#[test]
fn f32_requests_are_refused_while_a_graph_is_captured() {
    let mut cache: Launches = PreparedCache::new();
    let served = ensure_f32_prepared(
        &mut cache,
        1,
        &is_current,
        &|| Ok(true),
        |_: &u64| panic!("there is nothing to validate"),
        || panic!("a capture prepares nothing"),
    );
    assert_eq!(served, Err(f32_capture_refusal(false)));
    assert_eq!(
        f32_capture_refusal(false).message(),
        "prepared f32 Triad cache entry is missing during graph capture; run eager warmup again"
    );

    cache.insert(1, stamped(10, CURRENT - 1));
    let served = ensure_f32_prepared(
        &mut cache,
        1,
        &is_current,
        &|| Ok(true),
        |_: &u64| panic!("a capture validates nothing"),
        || panic!("a capture prepares nothing"),
    );
    assert_eq!(served, Err(f32_capture_refusal(true)));
    assert_eq!(held(&cache, 1), Some((10, Some(CURRENT - 1))));

    let unknown = LaunchError::Rejected("query CUDA capture status");
    let served = ensure_f32_prepared(
        &mut cache,
        2,
        &is_current,
        &|| Err(unknown),
        |_: &u64| panic!("there is nothing to validate"),
        || panic!("nothing is prepared under an unknown status"),
    );
    assert_eq!(served, Err(unknown));
}

#[test]
fn f32_requests_prepare_invalid_launches_anew() {
    let mut cache: Launches = PreparedCache::new();
    cache.insert(1, stamped(10, CURRENT - 1));
    let served = ensure_f32_prepared(
        &mut cache,
        1,
        &is_current,
        &|| Ok(false),
        |_: &u64| Err(LaunchError::Rejected("another module")),
        || Ok(stamped(11, CURRENT)),
    );
    assert_eq!(served, Ok(()));
    assert_eq!(held(&cache, 1), Some((11, Some(CURRENT))));
}

#[test]
fn untracked_f32_launches_are_validated_without_the_capture() {
    let mut cache: Launches = PreparedCache::new();
    cache.insert(1, untracked(10));
    let validations = Cell::new(0);
    let served = ensure_f32_prepared(
        &mut cache,
        1,
        &|_: &u64| panic!("an untracked launch has no stamp"),
        &|| panic!("an untracked launch does not ask for the capture"),
        |launch: &u64| {
            assert_eq!(*launch, 10);
            validations.set(validations.get() + 1);
            Ok(None)
        },
        || panic!("nothing is to prepare"),
    );
    assert_eq!(served, Ok(()));
    assert_eq!(validations.get(), 1);
    assert_eq!(held(&cache, 1), Some((10, None)));
}

#[test]
fn serving_keeps_the_limit_of_a_cache() {
    let mut cache: Launches = PreparedCache::new();
    for key in 0..F32_PREPARED_CACHE_LIMIT as u32 + 1 {
        let served = ensure_f32_prepared(
            &mut cache,
            key,
            &is_current,
            &|| Ok(false),
            |_: &u64| panic!("there is nothing to validate"),
            || Ok(stamped(u64::from(key), CURRENT)),
        );
        assert_eq!(served, Ok(()));
        assert!(cache.len() <= F32_PREPARED_CACHE_LIMIT);
        assert_eq!(held(&cache, key), Some((u64::from(key), Some(CURRENT))));
    }
    assert_eq!(cache.len(), 1);

    let mut cache: Launches = PreparedCache::new();
    for key in 0..TMA_PREPARED_CACHE_LIMIT as u32 + 1 {
        let served = ensure_tma_prepared(
            &mut cache,
            key,
            TmaFamily::Sm120,
            false,
            &is_current,
            |_: &u64| panic!("there is nothing to validate"),
            || Ok(stamped(u64::from(key), CURRENT)),
        );
        assert_eq!(served, Ok(()));
        assert!(cache.len() <= TMA_PREPARED_CACHE_LIMIT);
    }
    assert_eq!(cache.len(), 1);
}
