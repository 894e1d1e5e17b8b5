use peeps_core::cache::AssetCache;
use peeps_core::cache::GetOutcome;
use peeps_core::cache::Texture;

fn tex(h: u64) -> Texture {
    Texture { handle: h }
}

#[test]
fn scenario_fetch_decode_then_hit() {
    // get on an empty cache misses and claims the fetch; after the job's
    // success is applied, the same id hits with the same handle and no new
    // job starts.
    let mut c = AssetCache::new();
    let id = "avatar-42".to_string();
    assert_eq!(c.get(&id), GetOutcome::StartFetch);
    assert!(c.peek(&id).is_none());
    assert!(c.is_in_flight(&id));

    c.complete(&id, Some(tex(7)));
    assert!(!c.is_in_flight(&id));
    assert_eq!(c.get(&id), GetOutcome::Ready { texture: tex(7) });
    assert_eq!(c.peek(&id), Some(tex(7)));
}

#[test]
fn scenario_single_flight_two_rapid_gets() {
    // Two rapid gets in the same frame: only the first spawns a fetch.
    let mut c = AssetCache::new();
    let id = "thumb-7".to_string();
    assert_eq!(c.get(&id), GetOutcome::StartFetch);
    assert_eq!(c.get(&id), GetOutcome::AlreadyPending);
    assert_eq!(c.get(&id), GetOutcome::AlreadyPending);
}

#[test]
fn scenario_failure_retries_from_scratch() {
    // A failed fetch leaves no trace: the very next get spawns anew.
    let mut c = AssetCache::new();
    let id = "broken-9".to_string();
    assert_eq!(c.get(&id), GetOutcome::StartFetch);
    c.complete(&id, None);
    assert!(!c.is_in_flight(&id));
    assert!(c.peek(&id).is_none());
    assert_eq!(c.get(&id), GetOutcome::StartFetch);
}

#[test]
fn scenario_sweep_keeps_used_evicts_rest() {
    // Ready map {a: Ta, b: Tb}, used set {a}: after the sweep only a stays.
    let mut c = AssetCache::new();
    let a = "a".to_string();
    let b = "b".to_string();
    assert_eq!(c.get(&a), GetOutcome::StartFetch);
    assert_eq!(c.get(&b), GetOutcome::StartFetch);
    c.complete(&a, Some(tex(1)));
    c.complete(&b, Some(tex(2)));
    // Start a fresh use period, then touch only a.
    c.sweep();
    assert_eq!(c.get(&a), GetOutcome::Ready { texture: tex(1) });
    c.sweep();
    assert_eq!(c.peek(&a), Some(tex(1)));
    assert!(c.peek(&b).is_none());
}

#[test]
fn sweep_of_untouched_cache_clears_everything_ready() {
    let mut c = AssetCache::new();
    let a = "x".to_string();
    assert_eq!(c.get(&a), GetOutcome::StartFetch);
    c.complete(&a, Some(tex(9)));
    // The get above marked x used, so it survives the first sweep...
    c.sweep();
    assert_eq!(c.peek(&a), Some(tex(9)));
    // ...but nothing touched it since, so the next sweep drops it.
    c.sweep();
    assert!(c.peek(&a).is_none());
}

#[test]
fn sweep_leaves_in_flight_alone() {
    let mut c = AssetCache::new();
    let a = "pending".to_string();
    assert_eq!(c.get(&a), GetOutcome::StartFetch);
    c.sweep();
    assert!(c.is_in_flight(&a));
    assert_eq!(c.get(&a), GetOutcome::AlreadyPending);
}

#[test]
fn completion_overwrites_stale_texture() {
    let mut c = AssetCache::new();
    let a = "re".to_string();
    assert_eq!(c.get(&a), GetOutcome::StartFetch);
    c.complete(&a, Some(tex(1)));
    c.complete(&a, Some(tex(2)));
    assert_eq!(c.peek(&a), Some(tex(2)));
}
