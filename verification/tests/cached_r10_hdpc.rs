use std::sync::{Arc, OnceLock};

use fountain_raptor_10::cached_R10HDPC::{CachedR10HDPC, LuEntry, LuParams};

fn params(k: usize, a: usize, l: usize, h: usize) -> LuParams {
    LuParams { k, a, l, h }
}

#[test]
fn test_lookup_lu_hit_and_miss() {
    let key = params(100, 90, 17, 10);
    let entry: LuEntry = (key, vec![2, 0, 1], vec![vec![1, 0], vec![0, 1]]);
    assert_eq!(
        CachedR10HDPC::lookup_lu(Some(&entry), &key),
        Some((vec![2, 0, 1], vec![vec![1, 0], vec![0, 1]]))
    );
    // Any of k, a, l, h differing is a miss.
    assert_eq!(CachedR10HDPC::lookup_lu(Some(&entry), &params(101, 90, 17, 10)), None);
    assert_eq!(CachedR10HDPC::lookup_lu(Some(&entry), &params(100, 91, 17, 10)), None);
    assert_eq!(CachedR10HDPC::lookup_lu(Some(&entry), &params(100, 90, 18, 10)), None);
    assert_eq!(CachedR10HDPC::lookup_lu(Some(&entry), &params(100, 90, 17, 11)), None);
    assert_eq!(CachedR10HDPC::lookup_lu(None, &key), None);
}

#[test]
fn test_cache_store_then_read() {
    let cache: Arc<OnceLock<LuEntry>> = Arc::new(OnceLock::new());
    let hdpc = CachedR10HDPC::new(cache.clone());
    let key = params(8, 8, 5, 4);
    assert_eq!(hdpc.cached_lu(&key), None);

    let p = vec![0, 1, 2, 3];
    let m = vec![vec![1, 0, 0, 0], vec![0, 1, 0, 0], vec![0, 0, 1, 0], vec![1, 1, 0, 1]];
    assert!(hdpc.store_lu(&key, &p, &m).is_ok());
    assert_eq!(hdpc.cached_lu(&key), Some((p.clone(), m.clone())));
    assert_eq!(hdpc.cached_lu(&params(8, 8, 5, 5)), None);

    // The cache keeps the first factorisation it was given.
    assert_eq!(
        hdpc.store_lu(&key, &vec![3, 2, 1, 0], &m),
        Err((key, vec![3, 2, 1, 0], m.clone()))
    );
    assert_eq!(hdpc.cached_lu(&key), Some((p.clone(), m.clone())));

    // A second precode on the same cache sees the same entry.
    let other = CachedR10HDPC::new(cache);
    assert_eq!(other.cached_lu(&key), Some((p, m)));
}

#[test]
fn test_lu_entry() {
    let key = params(4, 3, 2, 1);
    let e = CachedR10HDPC::lu_entry(&key, &vec![1, 0], &vec![vec![1, 1], vec![0, 1]]);
    assert_eq!(e, (key, vec![1, 0], vec![vec![1, 1], vec![0, 1]]));
}
