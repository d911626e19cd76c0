use worker_core::workflow::workflow_tasks::OutstandingActivation;

#[test]
fn eviction_alone_is_only_eviction() {
    let act = OutstandingActivation::Normal { contains_eviction: true, num_jobs: 1 };
    assert!(act.has_only_eviction());
    assert!(act.has_eviction());
}

#[test]
fn eviction_among_other_jobs_is_not_only_eviction() {
    let act = OutstandingActivation::Normal { contains_eviction: true, num_jobs: 3 };
    assert!(!act.has_only_eviction());
    assert!(act.has_eviction());
}

#[test]
fn legacy_query_has_no_eviction() {
    assert!(!OutstandingActivation::LegacyQuery.has_only_eviction());
    assert!(!OutstandingActivation::LegacyQuery.has_eviction());
}
