use worker_core::workflow::workflow_tasks::cache_manager::{
    WorkflowCacheManager, WorkflowCachingPolicy,
};

fn id(s: &str) -> String {
    s.to_string()
}

fn sticky(n: usize) -> WorkflowCacheManager {
    WorkflowCacheManager::new(WorkflowCachingPolicy::Sticky { max_cached_workflows: n })
}

#[test]
fn policy_capacity() {
    assert_eq!(WorkflowCachingPolicy::Sticky { max_cached_workflows: 7 }.capacity(), 7);
    assert_eq!(WorkflowCachingPolicy::NonSticky.capacity(), 0);
}

#[test]
fn new_cache_is_empty() {
    let cache = sticky(3);
    assert_eq!(cache.len(), 0);
    assert_eq!(cache.capacity(), 3);
}

#[test]
fn insert_below_capacity_evicts_nothing() {
    let mut cache = sticky(2);
    assert_eq!(cache.insert(&id("a")), None);
    assert_eq!(cache.insert(&id("b")), None);
    assert_eq!(cache.len(), 2);
}

#[test]
fn insert_at_capacity_evicts_least_recently_used() {
    let mut cache = sticky(2);
    cache.insert(&id("a"));
    cache.insert(&id("b"));
    assert_eq!(cache.insert(&id("c")), Some(id("a")));
    assert_eq!(cache.len(), 2);
    assert_eq!(cache.insert(&id("d")), Some(id("b")));
    assert_eq!(cache.insert(&id("e")), Some(id("c")));
}

#[test]
fn insert_of_cached_run_touches_it() {
    let mut cache = sticky(2);
    cache.insert(&id("a"));
    cache.insert(&id("b"));
    assert_eq!(cache.insert(&id("a")), None);
    assert_eq!(cache.len(), 2);
    // "b" is now the least recently used.
    assert_eq!(cache.insert(&id("c")), Some(id("b")));
    assert_eq!(cache.insert(&id("d")), Some(id("a")));
}

#[test]
fn touch_promotes_to_most_recent() {
    let mut cache = sticky(3);
    cache.insert(&id("a"));
    cache.insert(&id("b"));
    cache.insert(&id("c"));
    cache.touch(&id("a"));
    assert_eq!(cache.insert(&id("d")), Some(id("b")));
    assert_eq!(cache.insert(&id("e")), Some(id("c")));
    assert_eq!(cache.insert(&id("f")), Some(id("a")));
}

#[test]
fn touch_of_absent_run_is_a_no_op() {
    let mut cache = sticky(2);
    cache.insert(&id("a"));
    cache.touch(&id("zzz"));
    assert_eq!(cache.len(), 1);
    cache.insert(&id("b"));
    assert_eq!(cache.insert(&id("c")), Some(id("a")));
}

#[test]
fn remove_drops_entry_and_reports_it() {
    let mut cache = sticky(2);
    cache.insert(&id("a"));
    cache.insert(&id("b"));
    assert!(cache.remove(&id("a")));
    assert_eq!(cache.len(), 1);
    assert!(!cache.remove(&id("a")));
    // There is room again: nothing is evicted.
    assert_eq!(cache.insert(&id("c")), None);
    assert_eq!(cache.insert(&id("d")), Some(id("b")));
}

#[test]
fn size_never_exceeds_capacity() {
    let mut cache = sticky(3);
    for i in 0..20 {
        cache.insert(&format!("run-{}", i % 7));
        assert!(cache.len() <= 3);
    }
    assert_eq!(cache.len(), 3);
}

#[test]
fn non_sticky_insert_always_returns_the_run() {
    let mut cache = WorkflowCacheManager::new(WorkflowCachingPolicy::NonSticky);
    for i in 0..5 {
        let run = format!("run-{}", i);
        assert_eq!(cache.insert(&run), Some(run.clone()));
        assert_eq!(cache.len(), 0);
    }
    assert_eq!(cache.insert(&id("run-0")), Some(id("run-0")));
}

#[test]
fn sticky_with_zero_capacity_behaves_as_non_sticky() {
    let mut cache = sticky(0);
    assert_eq!(cache.insert(&id("a")), Some(id("a")));
    assert_eq!(cache.len(), 0);
}

#[test]
fn wait_for_capacity_only_when_full_and_predicate_false() {
    let mut cache = sticky(1);
    assert!(!cache.wait_for_capacity(false));
    cache.insert(&id("a"));
    assert!(cache.wait_for_capacity(false));
    assert!(!cache.wait_for_capacity(true));
    cache.remove(&id("a"));
    assert!(!cache.wait_for_capacity(false));
}
