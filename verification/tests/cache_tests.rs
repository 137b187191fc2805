use cliverge::cache::{CacheEntry, CacheManager, ToolCache, HELP_TTL_SECONDS, STATUS_TTL_SECONDS};
use cliverge::strmap::StringMap;
use cliverge::tool::ToolStatus;

#[test]
fn cache_entry_ttl_is_a_pure_function_of_read_time() {
    let t: u64 = 1_000_000;
    let entry = CacheEntry::new_at("hello".to_string(), 1, t);
    assert!(!entry.is_expired_at(t));
    assert!(!entry.is_expired_at(t + 1));
    assert!(entry.is_expired_at(t + 2));
}

#[test]
fn cache_entry_new_stamps_real_time() {
    let entry = CacheEntry::new(7u64, 3600);
    assert_eq!(entry.data, 7);
    assert_eq!(entry.ttl_seconds, 3600);
    // stamped with the real clock, so a one-hour TTL cannot be expired yet
    assert!(!entry.is_expired());
}

#[test]
fn status_cache_set_then_get_round_trips() {
    let mut mgr = CacheManager::new();
    let t: u64 = 500_000;
    mgr.set_tool_status_at("alpha", ToolStatus::Installed { version: "1.0.0".into() }, t);
    assert_eq!(
        mgr.get_tool_status_at("alpha", t + 10),
        Some(ToolStatus::Installed { version: "1.0.0".into() })
    );
    // one second past the status TTL the entry reads as absent
    assert_eq!(mgr.get_tool_status_at("alpha", t + STATUS_TTL_SECONDS + 1), None);
    assert_eq!(mgr.get_tool_status_at("unknown", t), None);
}

#[test]
fn help_cache_uses_its_own_longer_ttl() {
    let mut mgr = CacheManager::new();
    let t: u64 = 100;
    mgr.set_tool_help_at("alpha", "usage: alpha".to_string(), t);
    assert_eq!(
        mgr.get_tool_help_at("alpha", t + STATUS_TTL_SECONDS + 1),
        Some("usage: alpha".to_string())
    );
    assert_eq!(mgr.get_tool_help_at("alpha", t + HELP_TTL_SECONDS + 1), None);
}

#[test]
fn invalidate_drops_both_kinds_of_entries() {
    let mut mgr = CacheManager::new();
    let t: u64 = 100;
    mgr.set_tool_status_at("alpha", ToolStatus::NotInstalled, t);
    mgr.set_tool_help_at("alpha", "help".to_string(), t);
    mgr.set_tool_status_at("beta", ToolStatus::NotInstalled, t);
    mgr.invalidate_tool("alpha");
    assert_eq!(mgr.get_tool_status_at("alpha", t), None);
    assert_eq!(mgr.get_tool_help_at("alpha", t), None);
    assert_eq!(mgr.get_tool_status_at("beta", t), Some(ToolStatus::NotInstalled));
    assert_eq!(mgr.get_cache_stats(), (1, 0));
    mgr.clear_all();
    assert_eq!(mgr.get_cache_stats(), (0, 0));
}

#[test]
fn adopting_a_cache_prunes_entries_already_expired() {
    let t: u64 = 1_000_000;
    let mut status_cache = StringMap::new();
    status_cache.insert(
        "fresh".to_string(),
        CacheEntry::new_at(ToolStatus::NotInstalled, 1000, t),
    );
    status_cache.insert(
        "stale".to_string(),
        CacheEntry::new_at(ToolStatus::NotInstalled, 10, t - 100),
    );
    let mut help_cache = StringMap::new();
    help_cache.insert(
        "stale".to_string(),
        CacheEntry::new_at("old help".to_string(), 10, t - 100),
    );
    let image = ToolCache { status_cache, help_cache };

    let mut mgr = CacheManager::new();
    mgr.adopt_at(image, t);
    assert_eq!(mgr.get_cache_stats(), (1, 0));
    assert_eq!(mgr.get_tool_status_at("fresh", t), Some(ToolStatus::NotInstalled));
    assert_eq!(mgr.get_tool_status_at("stale", t), None);
}

#[test]
fn string_map_behaves_like_a_map() {
    let mut m: StringMap<u32> = StringMap::new();
    assert_eq!(m.len(), 0);
    m.insert("a".to_string(), 1);
    m.insert("b".to_string(), 2);
    m.insert("a".to_string(), 3);
    assert_eq!(m.len(), 2);
    assert_eq!(m.get("a"), Some(&3));
    assert_eq!(m.get("b"), Some(&2));
    assert_eq!(m.get("c"), None);
    assert!(m.contains_key("a"));
    m.remove("a");
    assert_eq!(m.get("a"), None);
    assert_eq!(m.len(), 1);
    m.clear();
    assert_eq!(m.len(), 0);
}
