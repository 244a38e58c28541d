use brioche_merge_manager::models::{
    CheckRollupState, Color, FileStatus, MergeQueueEntry, MergeQueueState, MergeableState,
    PrStatus, PullRequest, QueueRemoval, QueueRemovalReason, ReviewDecision,
};
use brioche_merge_manager::time::Timestamp;

fn entry(state: MergeQueueState, position: u32) -> Option<MergeQueueEntry> {
    Some(MergeQueueEntry { id: "MQE_1".to_string(), state, position })
}

fn removal(reason: QueueRemovalReason) -> Option<QueueRemoval> {
    Some(QueueRemoval { at: Timestamp { secs: 1_700_000_000, nanos: 0 }, reason })
}

#[test]
fn status_in_queue_for_every_live_entry() {
    for state in [
        MergeQueueState::Queued,
        MergeQueueState::Awaiting,
        MergeQueueState::Mergeable,
        MergeQueueState::Locked,
    ] {
        let s = PullRequest::compute_status(&MergeableState::Blocked, &entry(state, 3), false, &None);
        assert_eq!(s, PrStatus::InQueue);
    }
}

#[test]
fn status_unmergeable_entry_is_failed() {
    let s = PullRequest::compute_status(
        &MergeableState::Clean,
        &entry(MergeQueueState::Unmergeable, 1),
        false,
        &None,
    );
    assert_eq!(s, PrStatus::FailedMerge);
}

#[test]
fn status_failure_removal_is_failed() {
    for reason in [
        QueueRemovalReason::FailedChecks,
        QueueRemovalReason::MergeConflict,
        QueueRemovalReason::RejectedByRule,
    ] {
        let s = PullRequest::compute_status(&MergeableState::Clean, &None, false, &removal(reason));
        assert_eq!(s, PrStatus::FailedMerge);
    }
}

#[test]
fn status_other_removal_falls_back_to_merge_state() {
    let s = PullRequest::compute_status(
        &MergeableState::Clean,
        &None,
        false,
        &removal(QueueRemovalReason::Other),
    );
    assert_eq!(s, PrStatus::ReadyToMerge);
    let s = PullRequest::compute_status(
        &MergeableState::Blocked,
        &None,
        false,
        &removal(QueueRemovalReason::Other),
    );
    assert_eq!(s, PrStatus::FailedMerge);
}

#[test]
fn status_from_merge_state() {
    let cases = [
        (MergeableState::Clean, PrStatus::ReadyToMerge),
        (MergeableState::Blocked, PrStatus::FailedMerge),
        (MergeableState::Dirty, PrStatus::FailedMerge),
        (MergeableState::Behind, PrStatus::FailedMerge),
        (MergeableState::Unstable, PrStatus::FailedMerge),
        (MergeableState::Unknown, PrStatus::FailedMerge),
    ];
    for (ms, expected) in cases {
        assert_eq!(PullRequest::compute_status(&ms, &None, true, &None), expected);
        assert_eq!(PullRequest::compute_status(&ms, &None, false, &None), expected);
    }
}

#[test]
fn merge_queue_state_names() {
    assert_eq!(MergeQueueState::from("QUEUED"), MergeQueueState::Queued);
    assert_eq!(MergeQueueState::from("AWAITING_CHECKS"), MergeQueueState::Awaiting);
    assert_eq!(MergeQueueState::from("MERGEABLE"), MergeQueueState::Mergeable);
    assert_eq!(MergeQueueState::from("UNMERGEABLE"), MergeQueueState::Unmergeable);
    assert_eq!(MergeQueueState::from("LOCKED"), MergeQueueState::Locked);
    assert_eq!(MergeQueueState::from("queued"), MergeQueueState::Queued);
    assert_eq!(MergeQueueState::from(""), MergeQueueState::Queued);
}

#[test]
fn check_rollup_names_and_looks() {
    let cases = [
        ("SUCCESS", CheckRollupState::Success, "✓", Color::Green, "success"),
        ("FAILURE", CheckRollupState::Failure, "✗", Color::Red, "failure"),
        ("PENDING", CheckRollupState::Pending, "…", Color::Yellow, "pending"),
        ("ERROR", CheckRollupState::Error, "✗", Color::Red, "error"),
        ("EXPECTED", CheckRollupState::Expected, "—", Color::DarkGray, "no checks"),
        ("whatever", CheckRollupState::Expected, "—", Color::DarkGray, "no checks"),
    ];
    for (name, state, symbol, color, label) in cases {
        let s = CheckRollupState::from_graphql(name);
        assert_eq!(s, state);
        assert_eq!(s.symbol(), symbol);
        assert_eq!(s.color(), color);
        assert_eq!(s.label(), label);
    }
}

#[test]
fn review_decision_names_and_looks() {
    let r = ReviewDecision::from_graphql("APPROVED").unwrap();
    assert_eq!((r.symbol(), r.color(), r.label()), ("✓", Color::Green, "approved"));
    let r = ReviewDecision::from_graphql("CHANGES_REQUESTED").unwrap();
    assert_eq!((r.symbol(), r.color(), r.label()), ("✗", Color::Red, "changes requested"));
    let r = ReviewDecision::from_graphql("REVIEW_REQUIRED").unwrap();
    assert_eq!((r.symbol(), r.color(), r.label()), ("○", Color::Yellow, "review required"));
    assert_eq!(ReviewDecision::from_graphql("DISMISSED"), None);
    assert_eq!(ReviewDecision::from_graphql(""), None);
}

#[test]
fn file_status_names_and_looks() {
    let cases = [
        ("added", FileStatus::Added, "+", Color::Green),
        ("modified", FileStatus::Modified, "~", Color::Yellow),
        ("deleted", FileStatus::Deleted, "-", Color::Red),
        ("renamed", FileStatus::Renamed, "→", Color::Cyan),
        ("copied", FileStatus::Copied, "⎘", Color::Cyan),
        ("changed", FileStatus::Unknown, "?", Color::Reset),
    ];
    for (name, status, symbol, color) in cases {
        let s = FileStatus::from(name);
        assert_eq!(s, status);
        assert_eq!(s.symbol(), symbol);
        assert_eq!(s.color(), color);
    }
}

#[test]
fn removal_reasons() {
    let cases = [
        ("FAILED_CHECKS", QueueRemovalReason::FailedChecks, "failed status checks", true),
        ("MERGE_CONFLICT", QueueRemovalReason::MergeConflict, "merge conflict", true),
        (
            "REJECTED_BY_MERGE_QUEUE_RULE",
            QueueRemovalReason::RejectedByRule,
            "rejected by merge queue rule",
            true,
        ),
        ("MANUAL", QueueRemovalReason::Other, "removed", false),
        ("", QueueRemovalReason::Other, "removed", false),
    ];
    for (name, reason, label, failure) in cases {
        let r = QueueRemovalReason::from(name);
        assert_eq!(r, reason);
        assert_eq!(r.label(), label);
        assert_eq!(r.is_failure(), failure);
    }
}

#[test]
fn status_table_holds_where_it_can() {
    // Ready to merge: clean and not in the queue.
    let s = PullRequest::compute_status(&MergeableState::Clean, &None, false, &None);
    assert_eq!(s, PrStatus::ReadyToMerge);
    // Not clean, not ready.
    let s = PullRequest::compute_status(&MergeableState::Behind, &None, false, &None);
    assert_ne!(s, PrStatus::ReadyToMerge);
    // In queue: any entry short of unmergeable.
    let s = PullRequest::compute_status(
        &MergeableState::Dirty,
        &entry(MergeQueueState::Awaiting, 7),
        false,
        &removal(QueueRemovalReason::FailedChecks),
    );
    assert_eq!(s, PrStatus::InQueue);
    // The one entry that does not show the PR in the queue.
    let s = PullRequest::compute_status(
        &MergeableState::Clean,
        &entry(MergeQueueState::Unmergeable, 7),
        false,
        &None,
    );
    assert_ne!(s, PrStatus::InQueue);
}
