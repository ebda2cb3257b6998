use lemmy_ui_core::errors::ErrorInfo;
use lemmy_ui_core::resource::{Phase, Resource};

#[test]
fn starts_idle_with_no_value() {
    let r: Resource<u32> = Resource::new();
    assert_eq!(r.phase, Phase::Idle);
    assert!(r.ready_value().is_none());
    assert!(r.latest_value().is_none());
    assert_eq!(r.issued, 0);
    assert_eq!(r.committed, 0);
}

#[test]
fn first_fetch_commits_and_becomes_ready() {
    let mut r: Resource<u32> = Resource::new();
    let id = r.refetch();
    assert_eq!(id, 1);
    assert_eq!(r.phase, Phase::Loading);
    assert!(r.latest_value().is_none());
    assert!(r.complete_ok(id, 7));
    assert_eq!(r.phase, Phase::Ready);
    assert_eq!(r.ready_value(), Some(&7));
}

#[test]
fn refetch_keeps_last_ready_value_visible() {
    let mut r: Resource<u32> = Resource::new();
    let id = r.refetch();
    r.complete_ok(id, 7);
    let _id2 = r.refetch();
    assert_eq!(r.phase, Phase::Loading);
    // Strict consumers see pending; staleness-tolerant ones the old value.
    assert!(r.ready_value().is_none());
    assert_eq!(r.latest_value(), Some(&7));
}

#[test]
fn last_issued_wins_when_responses_cross() {
    let mut r: Resource<u32> = Resource::new();
    let id1 = r.refetch();
    let id2 = r.refetch();
    // The newer fetch's response arrives first and commits.
    assert!(r.complete_ok(id2, 20));
    assert_eq!(r.ready_value(), Some(&20));
    // The older response trails in afterwards and is discarded.
    assert!(!r.complete_ok(id1, 10));
    assert_eq!(r.ready_value(), Some(&20));
    assert_eq!(r.committed, id2);
}

#[test]
fn superseded_response_is_discarded_even_in_issuance_order() {
    let mut r: Resource<u32> = Resource::new();
    let id1 = r.refetch();
    let id2 = r.refetch();
    assert!(!r.complete_ok(id1, 10));
    assert_eq!(r.phase, Phase::Loading);
    assert!(r.latest_value().is_none());
    assert!(r.complete_ok(id2, 20));
    assert_eq!(r.ready_value(), Some(&20));
}

#[test]
fn error_is_retained_but_does_not_clear_stale_value() {
    let mut r: Resource<u32> = Resource::new();
    let id = r.refetch();
    r.complete_ok(id, 7);
    let id2 = r.refetch();
    assert!(r.complete_err(id2, ErrorInfo::TransportError));
    assert_eq!(r.phase, Phase::Error(ErrorInfo::TransportError));
    // "Failed to refresh" still shows the previous data where tolerated.
    assert!(r.ready_value().is_none());
    assert_eq!(r.latest_value(), Some(&7));
}

#[test]
fn stale_error_response_is_discarded_too() {
    let mut r: Resource<u32> = Resource::new();
    let id1 = r.refetch();
    let id2 = r.refetch();
    assert!(!r.complete_err(id1, ErrorInfo::TransportError));
    assert_eq!(r.phase, Phase::Loading);
    assert!(r.complete_ok(id2, 20));
    assert_eq!(r.ready_value(), Some(&20));
}

#[test]
fn a_committed_fetch_cannot_commit_twice() {
    let mut r: Resource<u32> = Resource::new();
    let id = r.refetch();
    assert!(r.complete_ok(id, 7));
    assert!(!r.complete_ok(id, 8));
    assert_eq!(r.ready_value(), Some(&7));
}
