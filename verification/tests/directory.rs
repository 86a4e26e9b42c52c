use circles::cache::DirectoryCache;
use circles::errors::DirectoryError;
use circles::schema::Circle;
use circles::service::{DirectoryService, GatewayFault};

fn circle(id: &str, name: &str) -> Circle {
    Circle {
        id: id.to_string(),
        name: name.to_string(),
        description: format!("The {} circle", name),
        image_url: String::new(),
        emoji: "\u{265f}\u{fe0f}".to_string(),
        created_on: 1_650_000_000_000,
        channel: "9000".to_string(),
        owner: "4242".to_string(),
        sub_channels: Vec::new(),
    }
}

#[test]
fn get_absent_is_none() {
    let cache = DirectoryCache::new();
    assert!(cache.get("r1").is_none());
}

#[test]
fn upsert_then_get() {
    let mut cache = DirectoryCache::new();
    cache.upsert(circle("r1", "Chess Club"));
    let got = cache.get("r1").unwrap();
    assert_eq!(got, circle("r1", "Chess Club"));
}

#[test]
fn upsert_twice_is_idempotent() {
    let mut cache = DirectoryCache::new();
    let c = circle("r1", "Chess Club");
    cache.upsert(c.clone());
    let once = cache.get("r1").unwrap();
    cache.upsert(c);
    let twice = cache.get("r1").unwrap();
    assert_eq!(once, twice);
}

#[test]
fn upsert_overwrites_same_key() {
    let mut cache = DirectoryCache::new();
    cache.upsert(circle("r1", "Chess Club"));
    cache.upsert(circle("r1", "Go Club"));
    assert_eq!(cache.get("r1").unwrap().name, "Go Club");
    assert_eq!(cache.list().len(), 1);
}

#[test]
fn remove_present_and_absent() {
    let mut cache = DirectoryCache::new();
    cache.upsert(circle("r1", "Chess Club"));
    cache.remove("r1");
    assert!(cache.get("r1").is_none());
    cache.remove("r1");
    assert!(cache.get("r1").is_none());
}

#[test]
fn merge_keeps_entries_missing_from_snapshot() {
    let mut cache = DirectoryCache::new();
    cache.upsert(circle("a", "Alpha"));
    cache.upsert(circle("b", "Beta"));
    let updated = circle("a", "Alpha Prime");
    let count = cache.merge_snapshot(&vec![updated.clone()]);
    assert_eq!(count, 1);
    assert_eq!(cache.get("a").unwrap(), updated);
    assert_eq!(cache.get("b").unwrap(), circle("b", "Beta"));
    assert_eq!(cache.list().len(), 2);
}

#[test]
fn merge_last_writer_wins() {
    let mut cache = DirectoryCache::new();
    let count = cache.merge_snapshot(&vec![circle("a", "First"), circle("a", "Second")]);
    assert_eq!(count, 2);
    assert_eq!(cache.get("a").unwrap().name, "Second");
    assert_eq!(cache.list().len(), 1);
}

#[test]
fn list_snapshots_every_record() {
    let mut cache = DirectoryCache::new();
    cache.upsert(circle("a", "Alpha"));
    cache.upsert(circle("b", "Beta"));
    let listed = cache.list();
    assert_eq!(listed.len(), 2);
    assert!(listed.contains(&circle("a", "Alpha")));
    assert!(listed.contains(&circle("b", "Beta")));
}

#[test]
fn service_lists_cached_records() {
    let mut service = DirectoryService::new();
    service.create(Ok(circle("a", "Alpha"))).unwrap();
    service.create(Ok(circle("b", "Beta"))).unwrap();
    let listed = service.list();
    assert_eq!(listed.len(), 2);
    assert!(listed.contains(&circle("a", "Alpha")));
    assert!(listed.contains(&circle("b", "Beta")));
}

#[test]
fn resolve_miss_is_not_found() {
    let service = DirectoryService::new();
    assert_eq!(service.resolve("nonexistent-id"), Err(DirectoryError::NotFound));
}

#[test]
fn recache_three_records() {
    let mut service = DirectoryService::new();
    let fetched = vec![circle("a", "Alpha"), circle("b", "Beta"), circle("c", "Gamma")];
    assert_eq!(service.recache(Ok(fetched)), Ok(3));
    assert_eq!(service.resolve("b").unwrap(), circle("b", "Beta"));
}

#[test]
fn recache_scenario() {
    let mut service = DirectoryService::new();
    let fetched = vec![circle("r1", "Chess Club")];
    let count = service.recache(Ok(fetched)).unwrap();
    assert_eq!(count, 1);
    assert_eq!(service.resolve("r1").unwrap(), circle("r1", "Chess Club"));
}

#[test]
fn recache_upstream_failure_leaves_cache_intact() {
    let mut service = DirectoryService::new();
    service.recache(Ok(vec![circle("r1", "Chess Club")])).unwrap();
    let r = service.recache(Err(GatewayFault));
    assert_eq!(r, Err(DirectoryError::UpstreamFailure));
    assert_eq!(service.resolve("r1").unwrap(), circle("r1", "Chess Club"));
}

#[test]
fn create_applies_gateway_success_to_cache() {
    let mut service = DirectoryService::new();
    assert_eq!(service.create(Ok(circle("r1", "Chess Club"))), Ok(()));
    assert_eq!(service.resolve("r1").unwrap(), circle("r1", "Chess Club"));
}

#[test]
fn create_gateway_failure_leaves_cache_untouched() {
    let mut service = DirectoryService::new();
    let r = service.create(Err(GatewayFault));
    assert_eq!(r, Err(DirectoryError::UpstreamFailure));
    assert_eq!(service.resolve("r1"), Err(DirectoryError::NotFound));
}

#[test]
fn update_overwrites_cached_record() {
    let mut service = DirectoryService::new();
    service.create(Ok(circle("r1", "Chess Club"))).unwrap();
    assert_eq!(service.update(Ok(circle("r1", "Chess Society"))), Ok(()));
    assert_eq!(service.resolve("r1").unwrap().name, "Chess Society");
}

#[test]
fn delete_follows_gateway_outcome() {
    let mut service = DirectoryService::new();
    service.create(Ok(circle("r1", "Chess Club"))).unwrap();
    assert_eq!(service.delete("r1", Err(GatewayFault)), Err(DirectoryError::UpstreamFailure));
    assert!(service.resolve("r1").is_ok());
    assert_eq!(service.delete("r1", Ok(())), Ok(()));
    assert_eq!(service.resolve("r1"), Err(DirectoryError::NotFound));
}
