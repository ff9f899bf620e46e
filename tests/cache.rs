use registry_client::cache::{Begin, RegistryCache};
use registry_client::resource::RegistryResource;

fn name(s: &str) -> String {
    s.to_string()
}

#[test]
fn first_caller_fetches_second_waits() {
    let mut cache = RegistryCache::new();
    let p = name("foo");
    assert!(matches!(cache.begin(&p), Begin::Fetch { cache_key: None }));
    assert!(matches!(cache.begin(&p), Begin::Wait));
    assert!(matches!(cache.begin(&p), Begin::Wait));
    // another identity is not held up
    assert!(matches!(cache.begin(&name("bar")), Begin::Fetch { cache_key: None }));
}

#[test]
fn download_is_visible_to_waiters() {
    let mut cache = RegistryCache::new();
    let p = name("foo");
    assert!(matches!(cache.begin(&p), Begin::Fetch { .. }));
    assert!(matches!(cache.begin(&p), Begin::Wait));
    assert!(cache.cached(&p).is_none());
    let res = RegistryResource::Download { resource: vec![1u8, 2, 3], cache_key: Some(name("etag-1")) };
    assert!(cache.finish(&p, res));
    assert_eq!(cache.cached(&p), Some(&vec![1u8, 2, 3]));
    // the fetch is over: the next caller fetches again, replaying the key
    match cache.begin(&p) {
        Begin::Fetch { cache_key } => assert_eq!(cache_key, Some(name("etag-1"))),
        Begin::Wait => panic!("fetch still marked under way"),
    }
}

#[test]
fn abandoned_fetch_leaves_cache_unchanged() {
    let mut cache = RegistryCache::new();
    let p = name("foo");
    cache.begin(&p);
    cache.finish(&p, RegistryResource::Download { resource: vec![7u8], cache_key: Some(name("k1")) });
    assert!(matches!(cache.begin(&p), Begin::Fetch { .. }));
    cache.abandon(&p);
    assert_eq!(cache.cached(&p), Some(&vec![7u8]));
    match cache.begin(&p) {
        Begin::Fetch { cache_key } => assert_eq!(cache_key, Some(name("k1"))),
        Begin::Wait => panic!("abandoned fetch still holds the identity"),
    }
}

#[test]
fn abandon_of_unknown_identity_is_harmless() {
    let mut cache = RegistryCache::new();
    let p = name("foo");
    cache.abandon(&p);
    assert!(cache.cached(&p).is_none());
    assert!(matches!(cache.begin(&p), Begin::Fetch { cache_key: None }));
}

#[test]
fn in_cache_returns_stored_payload() {
    let mut cache = RegistryCache::new();
    let p = name("foo");
    cache.begin(&p);
    cache.finish(&p, RegistryResource::Download { resource: vec![9u8, 9], cache_key: Some(name("v2")) });
    cache.begin(&p);
    assert!(cache.finish(&p, RegistryResource::InCache));
    assert_eq!(cache.cached(&p), Some(&vec![9u8, 9]));
}

#[test]
fn not_found_is_not_a_stored_entry() {
    let mut cache = RegistryCache::new();
    let p = name("missing");
    cache.begin(&p);
    assert!(!cache.finish(&p, RegistryResource::NotFound));
    assert!(cache.cached(&p).is_none());
    assert!(matches!(cache.begin(&p), Begin::Fetch { cache_key: None }));
}

#[test]
fn uncacheable_download_keeps_no_key() {
    let mut cache = RegistryCache::new();
    let p = name("foo");
    cache.begin(&p);
    cache.finish(&p, RegistryResource::Download { resource: vec![1u8], cache_key: Some(name("old")) });
    cache.begin(&p);
    assert!(cache.finish(&p, RegistryResource::Download { resource: vec![2u8], cache_key: None }));
    assert_eq!(cache.cached(&p), Some(&vec![2u8]));
    assert!(matches!(cache.begin(&p), Begin::Fetch { cache_key: None }));
}

#[test]
fn same_download_twice_gives_same_contents() {
    let mut cache = RegistryCache::new();
    let p = name("foo");
    for _ in 0..2 {
        cache.begin(&p);
        cache.finish(&p, RegistryResource::Download { resource: vec![4u8, 5, 6], cache_key: Some(name("t")) });
        assert_eq!(cache.cached(&p), Some(&vec![4u8, 5, 6]));
    }
    match cache.begin(&p) {
        Begin::Fetch { cache_key } => assert_eq!(cache_key, Some(name("t"))),
        Begin::Wait => panic!("unexpected wait"),
    }
}

#[test]
fn identities_are_kept_apart() {
    let mut cache = RegistryCache::new();
    let a = name("a");
    let b = name("b");
    cache.begin(&a);
    cache.begin(&b);
    cache.finish(&a, RegistryResource::Download { resource: vec![1u8], cache_key: Some(name("ka")) });
    assert!(cache.cached(&b).is_none());
    assert!(matches!(cache.begin(&b), Begin::Wait));
    cache.finish(&b, RegistryResource::Download { resource: vec![2u8], cache_key: None });
    assert_eq!(cache.cached(&a), Some(&vec![1u8]));
    assert_eq!(cache.cached(&b), Some(&vec![2u8]));
}

#[test]
fn complete_returns_callers_result() {
    let mut cache = RegistryCache::new();
    let p = name("foo");
    cache.begin(&p);
    assert_eq!(cache.complete(&p, RegistryResource::NotFound), None);
    cache.begin(&p);
    let fresh = RegistryResource::Download { resource: vec![3u8, 1, 4], cache_key: Some(name("k")) };
    assert_eq!(cache.complete(&p, fresh), Some(vec![3u8, 1, 4]));
    match cache.begin(&p) {
        Begin::Fetch { cache_key } => assert_eq!(cache_key, Some(name("k"))),
        Begin::Wait => panic!("fetch still marked under way"),
    }
    assert_eq!(cache.complete(&p, RegistryResource::InCache), Some(vec![3u8, 1, 4]));
    // a missing package afterwards returns nothing but keeps the stored copy
    cache.begin(&p);
    assert_eq!(cache.complete(&p, RegistryResource::NotFound), None);
    assert_eq!(cache.cached(&p), Some(&vec![3u8, 1, 4]));
}

#[test]
fn complete_uncacheable_download() {
    let mut cache = RegistryCache::new();
    let p = name("foo");
    cache.begin(&p);
    let fresh = RegistryResource::Download { resource: vec![8u8], cache_key: None };
    assert_eq!(cache.complete(&p, fresh), Some(vec![8u8]));
    assert!(matches!(cache.begin(&p), Begin::Fetch { cache_key: None }));
}
