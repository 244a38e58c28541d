use brioche_merge_manager::config::{Config, ConfigError, GitHubClient};
use brioche_merge_manager::models::{
    MergeQueueEntry, MergeQueueState, MergeableState, PrStatus, PullRequest, QueueRemoval,
    QueueRemovalReason,
};
use brioche_merge_manager::rest::build_pull_requests;
use brioche_merge_manager::time::Timestamp;

fn make_pr(number: u64, status: PrStatus, title: &str) -> PullRequest {
    let (state, queue, removal) = match status {
        PrStatus::ReadyToMerge => (MergeableState::Clean, None, None),
        PrStatus::FailedMerge => (
            MergeableState::Clean,
            None,
            Some(QueueRemoval {
                at: Timestamp { secs: 1, nanos: 0 },
                reason: QueueRemovalReason::FailedChecks,
            }),
        ),
        PrStatus::InQueue => (
            MergeableState::Clean,
            Some(MergeQueueEntry { id: "MQE".to_string(), state: MergeQueueState::Queued, position: 1 }),
            None,
        ),
    };
    let computed = PullRequest::compute_status(&state, &queue, false, &removal);
    assert_eq!(computed, status);
    PullRequest {
        number,
        node_id: String::new(),
        title: title.to_string(),
        author: String::new(),
        html_url: String::new(),
        mergeable_state: state,
        merge_queue: queue,
        check_rollup: None,
        review_decision: None,
        is_draft: false,
        status,
        last_queue_removal: removal,
    }
}

#[test]
fn config_needs_a_token() {
    let r = Config::from_env(None, Some("me".to_string()), None);
    assert_eq!(r.unwrap_err(), ConfigError::MissingToken);
    assert_eq!(ConfigError::MissingToken.message(), "GITHUB_TOKEN environment variable is required");
}

#[test]
fn config_defaults_and_overrides() {
    let c = Config::from_env(Some("ghp_x".to_string()), None, None).unwrap();
    assert_eq!(c.github_token, "ghp_x");
    assert_eq!(c.owner, "brioche-dev");
    assert_eq!(c.repo, "brioche-packages");
    let c = Config::from_env(Some("t".to_string()), Some("me".to_string()), Some("mine".to_string()))
        .unwrap();
    assert_eq!((c.owner.as_str(), c.repo.as_str()), ("me", "mine"));
    let g = GitHubClient::new(&c);
    assert_eq!((g.token.as_str(), g.owner.as_str(), g.repo.as_str()), ("t", "me", "mine"));
}

#[test]
fn pull_requests_sorted_by_status_then_number() {
    let prs = vec![
        make_pr(5, PrStatus::InQueue, "a"),
        make_pr(9, PrStatus::ReadyToMerge, "b"),
        make_pr(3, PrStatus::FailedMerge, "c"),
        make_pr(12, PrStatus::ReadyToMerge, "d"),
        make_pr(8, PrStatus::InQueue, "e"),
        make_pr(1, PrStatus::FailedMerge, "f"),
    ];
    let sorted = build_pull_requests(prs);
    let got: Vec<(u64, PrStatus)> = sorted.iter().map(|p| (p.number, p.status)).collect();
    assert_eq!(
        got,
        vec![
            (3, PrStatus::FailedMerge),
            (1, PrStatus::FailedMerge),
            (12, PrStatus::ReadyToMerge),
            (9, PrStatus::ReadyToMerge),
            (8, PrStatus::InQueue),
            (5, PrStatus::InQueue),
        ]
    );
    assert!(build_pull_requests(Vec::new()).is_empty());
}

#[test]
fn pull_request_sort_is_stable() {
    let prs = vec![
        make_pr(4, PrStatus::ReadyToMerge, "first"),
        make_pr(2, PrStatus::FailedMerge, "x"),
        make_pr(4, PrStatus::ReadyToMerge, "second"),
        make_pr(4, PrStatus::ReadyToMerge, "third"),
    ];
    let sorted = build_pull_requests(prs);
    let titles: Vec<&str> = sorted.iter().map(|p| p.title.as_str()).collect();
    assert_eq!(titles, vec!["x", "first", "second", "third"]);
}
