use brioche_merge_manager::graphql::{
    after_attempt, assemble_pages, batch_enqueue_mutation, check_reply, format_graphql_errors,
    reply_result,
    merge_state_status_to_state, parse_merge_queue_entry, parse_pr_node, parse_pr_page,
    parse_queue_removal, read_batch_results, read_cursor_page, read_enqueue_result, CursorCollector,
    CursorPage, PostDecision, PostOutcome, MAX_ATTEMPTS,
};
use brioche_merge_manager::json::{JsonNumber, JsonValue};
use brioche_merge_manager::models::{
    CheckRollupState, MergeQueueState, MergeableState, PrStatus, PullRequest, QueueRemovalReason,
    ReviewDecision,
};

fn s(text: &str) -> JsonValue {
    JsonValue::String(text.to_string())
}

fn n(v: u64) -> JsonValue {
    JsonValue::Number(JsonNumber::PosInt(v))
}

fn obj(members: Vec<(&str, JsonValue)>) -> JsonValue {
    JsonValue::Object(members.into_iter().map(|(k, v)| (k.to_string(), v)).collect())
}

fn arr(items: Vec<JsonValue>) -> JsonValue {
    JsonValue::Array(items)
}

fn full_node() -> JsonValue {
    obj(vec![
        ("number", n(3712)),
        ("id", s("PR_kwDOabc")),
        ("title", s("feat: add python package")),
        ("url", s("https://github.com/brioche-dev/brioche-packages/pull/3712")),
        ("author", obj(vec![("login", s("alice"))])),
        ("isDraft", JsonValue::Bool(false)),
        ("mergeable", s("MERGEABLE")),
        ("mergeStateStatus", s("CLEAN")),
        ("reviewDecision", s("APPROVED")),
        ("mergeQueueEntry", JsonValue::Null),
        (
            "commits",
            obj(vec![(
                "nodes",
                arr(vec![obj(vec![(
                    "commit",
                    obj(vec![("statusCheckRollup", obj(vec![("state", s("SUCCESS"))]))]),
                )])]),
            )]),
        ),
        ("timelineItems", obj(vec![("nodes", arr(vec![]))])),
    ])
}

fn page_reply(nodes: Vec<JsonValue>) -> JsonValue {
    obj(vec![(
        "data",
        obj(vec![("repository", obj(vec![("pullRequests", obj(vec![("nodes", arr(nodes))]))]))]),
    )])
}

fn pr(number: u64) -> PullRequest {
    parse_pr_node(&obj(vec![("number", n(number)), ("mergeStateStatus", s("CLEAN"))]))
}

#[test]
fn parse_full_pr_node() {
    let p = parse_pr_node(&full_node());
    assert_eq!(p.number, 3712);
    assert_eq!(p.node_id, "PR_kwDOabc");
    assert_eq!(p.title, "feat: add python package");
    assert_eq!(p.author, "alice");
    assert_eq!(p.html_url, "https://github.com/brioche-dev/brioche-packages/pull/3712");
    assert!(!p.is_draft);
    assert_eq!(p.mergeable_state, MergeableState::Clean);
    assert!(p.merge_queue.is_none());
    assert_eq!(p.check_rollup, Some(CheckRollupState::Success));
    assert_eq!(p.review_decision, Some(ReviewDecision::Approved));
    assert!(p.last_queue_removal.is_none());
    assert_eq!(p.status, PrStatus::ReadyToMerge);
}

#[test]
fn parse_empty_pr_node_defaults() {
    let p = parse_pr_node(&obj(vec![]));
    assert_eq!(p.number, 0);
    assert_eq!(p.node_id, "");
    assert_eq!(p.title, "");
    assert_eq!(p.author, "");
    assert_eq!(p.html_url, "");
    assert!(!p.is_draft);
    assert_eq!(p.mergeable_state, MergeableState::Unknown);
    assert_eq!(p.check_rollup, None);
    assert_eq!(p.review_decision, None);
    assert_eq!(p.status, PrStatus::FailedMerge);
}

#[test]
fn parse_mergeable_fallback() {
    let p = parse_pr_node(&obj(vec![("mergeable", s("CONFLICTING"))]));
    assert_eq!(p.mergeable_state, MergeableState::Dirty);
    let p = parse_pr_node(&obj(vec![("mergeable", s("MERGEABLE"))]));
    assert_eq!(p.mergeable_state, MergeableState::Clean);
    let p = parse_pr_node(&obj(vec![("mergeable", s("UNKNOWN")), ("mergeStateStatus", s("BEHIND"))]));
    assert_eq!(p.mergeable_state, MergeableState::Behind);
}

#[test]
fn merge_state_names() {
    assert_eq!(merge_state_status_to_state("CLEAN"), MergeableState::Clean);
    assert_eq!(merge_state_status_to_state("DIRTY"), MergeableState::Dirty);
    assert_eq!(merge_state_status_to_state("BLOCKED"), MergeableState::Blocked);
    assert_eq!(merge_state_status_to_state("BEHIND"), MergeableState::Behind);
    assert_eq!(merge_state_status_to_state("UNSTABLE"), MergeableState::Unstable);
    assert_eq!(merge_state_status_to_state("HAS_HOOKS"), MergeableState::Unknown);
}

#[test]
fn merge_queue_entry_reading() {
    assert!(parse_merge_queue_entry(None).is_none());
    assert!(parse_merge_queue_entry(Some(&JsonValue::Null)).is_none());
    assert!(parse_merge_queue_entry(Some(&obj(vec![("id", s(""))]))).is_none());
    assert!(parse_merge_queue_entry(Some(&obj(vec![("state", s("QUEUED"))]))).is_none());
    let e = parse_merge_queue_entry(Some(&obj(vec![("id", s("MQE_9"))]))).unwrap();
    assert_eq!(e.id, "MQE_9");
    assert_eq!(e.state, MergeQueueState::Queued);
    assert_eq!(e.position, 0);
    let v = obj(vec![("id", s("MQE_1")), ("state", s("UNMERGEABLE")), ("position", n(4))]);
    let e = parse_merge_queue_entry(Some(&v)).unwrap();
    assert_eq!(e.state, MergeQueueState::Unmergeable);
    assert_eq!(e.position, 4);
    // Positions are kept to their low 32 bits.
    let v = obj(vec![("id", s("MQE_2")), ("position", n((1u64 << 32) + 5))]);
    assert_eq!(parse_merge_queue_entry(Some(&v)).unwrap().position, 5);
}

#[test]
fn queue_removal_takes_last_dated_event() {
    let timeline = obj(vec![(
        "nodes",
        arr(vec![
            obj(vec![("createdAt", s("2025-03-01T10:00:00Z")), ("reason", s("MERGE_CONFLICT"))]),
            obj(vec![("createdAt", s("2025-03-19T14:22:01Z")), ("reason", s("FAILED_CHECKS"))]),
            obj(vec![]),
        ]),
    )]);
    let r = parse_queue_removal(Some(&timeline)).unwrap();
    assert_eq!(r.reason, QueueRemovalReason::FailedChecks);
    // 2025-03-19T14:22:01Z is 1742394121 seconds after the epoch.
    assert_eq!(r.at.secs, 1_742_394_121);
    assert_eq!(r.at.nanos, 0);
}

#[test]
fn queue_removal_reads_offsets_and_fractions() {
    let timeline = obj(vec![(
        "nodes",
        arr(vec![obj(vec![("createdAt", s("2025-03-19T16:22:01.5+02:00"))])]),
    )]);
    let r = parse_queue_removal(Some(&timeline)).unwrap();
    assert_eq!(r.at.secs, 1_742_394_121);
    assert_eq!(r.at.nanos, 500_000_000);
    assert_eq!(r.reason, QueueRemovalReason::Other);
}

#[test]
fn queue_removal_absent_or_unreadable() {
    assert!(parse_queue_removal(None).is_none());
    assert!(parse_queue_removal(Some(&obj(vec![]))).is_none());
    assert!(parse_queue_removal(Some(&obj(vec![("nodes", arr(vec![]))]))).is_none());
    let only_null = obj(vec![("nodes", arr(vec![obj(vec![("createdAt", JsonValue::Null)])]))]);
    assert!(parse_queue_removal(Some(&only_null)).is_none());
    let bad_date = obj(vec![("nodes", arr(vec![obj(vec![("createdAt", s("yesterday"))])]))]);
    assert!(parse_queue_removal(Some(&bad_date)).is_none());
}

#[test]
fn parse_node_with_removal_and_queue() {
    let mut node = full_node();
    if let JsonValue::Object(members) = &mut node {
        for (k, v) in members.iter_mut() {
            if k == "timelineItems" {
                *v = obj(vec![(
                    "nodes",
                    arr(vec![obj(vec![
                        ("createdAt", s("2025-03-19T14:22:01Z")),
                        ("reason", s("FAILED_CHECKS")),
                    ])]),
                )]);
            }
        }
    }
    let p = parse_pr_node(&node);
    assert_eq!(p.status, PrStatus::FailedMerge);
    assert_eq!(p.last_queue_removal.unwrap().reason, QueueRemovalReason::FailedChecks);

    let queued = obj(vec![
        ("number", n(5)),
        ("mergeStateStatus", s("BLOCKED")),
        ("mergeQueueEntry", obj(vec![("id", s("MQE")), ("state", s("AWAITING_CHECKS")), ("position", n(2))])),
    ]);
    let p = parse_pr_node(&queued);
    assert_eq!(p.status, PrStatus::InQueue);
    assert_eq!(p.merge_queue.unwrap().position, 2);
}

#[test]
fn parse_page_of_nodes() {
    let prs = parse_pr_page(&page_reply(vec![full_node(), obj(vec![("number", n(7))])]));
    assert_eq!(prs.len(), 2);
    assert_eq!(prs[0].number, 3712);
    assert_eq!(prs[1].number, 7);
    assert!(parse_pr_page(&obj(vec![])).is_empty());
}

#[test]
fn cursor_pages_are_collected() {
    let reply = |total: u64, next: bool, cursor: &str| {
        obj(vec![(
            "data",
            obj(vec![(
                "repository",
                obj(vec![(
                    "pullRequests",
                    obj(vec![
                        ("totalCount", n(total)),
                        (
                            "pageInfo",
                            obj(vec![("hasNextPage", JsonValue::Bool(next)), ("endCursor", s(cursor))]),
                        ),
                    ]),
                )]),
            )]),
        )])
    };
    let mut c = CursorCollector::new();
    assert_eq!(c.start_cursors, vec![None]);
    assert_eq!(c.next_cursor(), None);
    let p = read_cursor_page(&reply(120, true, "Y1"));
    assert_eq!(p.total_count, Some(120));
    assert!(p.has_next);
    assert_eq!(p.end_cursor.as_deref(), Some("Y1"));
    assert!(c.absorb(p));
    assert_eq!(c.next_cursor().as_deref(), Some("Y1"));
    assert!(c.absorb(read_cursor_page(&reply(121, true, "Y2"))));
    assert!(!c.absorb(read_cursor_page(&reply(121, false, "Y3"))));
    assert_eq!(
        c.start_cursors,
        vec![None, Some("Y1".to_string()), Some("Y2".to_string())]
    );
    assert_eq!(c.total_count, 121);
    // A reply without page info ends the walk and keeps the count.
    let empty = read_cursor_page(&obj(vec![]));
    assert_eq!(empty.total_count, None);
    assert!(!empty.has_next);
    assert!(!c.absorb(empty));
    assert_eq!(c.total_count, 121);
    assert!(!c.absorb(CursorPage { total_count: None, has_next: false, end_cursor: None }));
}

#[test]
fn pages_reassemble_in_index_order() {
    let pages = vec![
        (2usize, vec![pr(5), pr(4)]),
        (0usize, vec![pr(9), pr(8)]),
        (1usize, vec![pr(7), pr(6)]),
    ];
    let all = assemble_pages(pages);
    let numbers: Vec<u64> = all.iter().map(|p| p.number).collect();
    assert_eq!(numbers, vec![9, 8, 7, 6, 5, 4]);
    assert!(assemble_pages(Vec::new()).is_empty());
}

#[test]
fn batch_mutation_text() {
    let targets = vec![(12u64, "PR_a".to_string()), (34u64, "PR_b".to_string())];
    assert_eq!(
        batch_enqueue_mutation(&targets),
        "mutation BulkEnqueue {\n  pr0: enqueuePullRequest(input: { pullRequestId: \"PR_a\" }) { mergeQueueEntry { id state position } }\n  pr1: enqueuePullRequest(input: { pullRequestId: \"PR_b\" }) { mergeQueueEntry { id state position } }\n}"
    );
    assert_eq!(batch_enqueue_mutation(&Vec::new()), "mutation BulkEnqueue {\n}");
}

#[test]
fn batch_results_per_alias() {
    let targets = vec![(12u64, "PR_a".to_string()), (34u64, "PR_b".to_string()), (56u64, "PR_c".to_string())];
    let reply = obj(vec![(
        "data",
        obj(vec![
            (
                "pr0",
                obj(vec![(
                    "mergeQueueEntry",
                    obj(vec![("id", s("MQE_a")), ("state", s("QUEUED")), ("position", n(3))]),
                )]),
            ),
            ("pr1", obj(vec![("mergeQueueEntry", JsonValue::Null)])),
            ("pr2", obj(vec![("mergeQueueEntry", obj(vec![("id", s(""))]))])),
        ]),
    )]);
    let results = read_batch_results(&reply, &targets);
    assert_eq!(results.len(), 3);
    assert_eq!(results[0].0, 12);
    let e = results[0].1.as_ref().unwrap();
    assert_eq!((e.id.as_str(), e.state, e.position), ("MQE_a", MergeQueueState::Queued, 3));
    assert_eq!(results[1].0, 34);
    assert_eq!(
        results[1].1.as_ref().unwrap_err(),
        "no mergeQueueEntry returned for PR #34 — already queued or ineligible"
    );
    assert_eq!(
        results[2].1.as_ref().unwrap_err(),
        "no mergeQueueEntry returned for PR #56 — already queued or ineligible"
    );
    let none = read_batch_results(&obj(vec![]), &targets);
    assert!(none.iter().all(|(_, r)| r.is_err()));
}

#[test]
fn single_enqueue_result() {
    let ok = obj(vec![(
        "data",
        obj(vec![(
            "enqueuePullRequest",
            obj(vec![(
                "mergeQueueEntry",
                obj(vec![("id", s("MQE_x")), ("state", s("LOCKED")), ("position", n(1))]),
            )]),
        )]),
    )]);
    let e = read_enqueue_result(&ok).unwrap();
    assert_eq!((e.id.as_str(), e.state, e.position), ("MQE_x", MergeQueueState::Locked, 1));
    assert_eq!(
        read_enqueue_result(&obj(vec![])).unwrap_err(),
        "enqueuePullRequest returned no mergeQueueEntry — the PR may already be queued or ineligible"
    );
}

#[test]
fn retries_back_off_then_fail() {
    assert_eq!(MAX_ATTEMPTS, 4);
    let net = PostOutcome::NetworkError("connection reset".to_string());
    for (attempt, delay) in [(1u32, 1u64), (2, 2), (3, 4)] {
        match after_attempt(attempt, &net) {
            PostDecision::Retry { delay_secs } => assert_eq!(delay_secs, delay),
            other => panic!("expected a retry, got {other:?}"),
        }
    }
    match after_attempt(4, &net) {
        PostDecision::Fail(m) => {
            assert_eq!(m, "GitHub GraphQL network error after 4 attempts: connection reset")
        }
        other => panic!("expected a failure, got {other:?}"),
    }
    let server = PostOutcome::Response { status: 502, body: "x".repeat(250) };
    match after_attempt(2, &server) {
        PostDecision::Retry { delay_secs } => assert_eq!(delay_secs, 2),
        other => panic!("expected a retry, got {other:?}"),
    }
    match after_attempt(4, &server) {
        PostDecision::Fail(m) => assert_eq!(
            m,
            format!("GitHub GraphQL returned HTTP 502 after 4 attempts.\nBody: {}", "x".repeat(200))
        ),
        other => panic!("expected a failure, got {other:?}"),
    }
}

#[test]
fn replies_that_are_decoded_or_refused() {
    let empty = PostOutcome::Response { status: 401, body: String::new() };
    match after_attempt(1, &empty) {
        PostDecision::Fail(m) => assert_eq!(
            m,
            "GitHub GraphQL returned HTTP 401 with an empty body. Check that your GITHUB_TOKEN is valid and has the `repo` scope."
        ),
        other => panic!("expected a failure, got {other:?}"),
    }
    let ok = PostOutcome::Response { status: 200, body: "{}".to_string() };
    assert!(matches!(after_attempt(1, &ok), PostDecision::Decode));
    let client_error = PostOutcome::Response { status: 404, body: "{}".to_string() };
    assert!(matches!(after_attempt(4, &client_error), PostDecision::Decode));
}

#[test]
fn graphql_error_text() {
    let errors = arr(vec![
        obj(vec![("message", s("Bad credentials"))]),
        obj(vec![("type", s("X"))]),
        obj(vec![("message", s("Try again"))]),
    ]);
    assert_eq!(format_graphql_errors(&errors, "RAW"), "Bad credentials; Try again");
    assert_eq!(format_graphql_errors(&arr(vec![obj(vec![])]), "RAW"), "RAW");
    assert_eq!(format_graphql_errors(&s("oops"), "\"oops\""), "\"oops\"");
}

#[test]
fn reply_results() {
    match reply_result(200, "not json", Err("expected value at line 1 column 1".to_string())) {
        Err(m) => assert_eq!(
            m,
            "GitHub GraphQL response is not JSON (HTTP 200): expected value at line 1 column 1\nBody preview: not json"
        ),
        Ok(_) => panic!("expected an error"),
    }
    let with_errors = obj(vec![("errors", arr(vec![obj(vec![("message", s("Not Found"))])]))]);
    match reply_result(200, "", Ok((with_errors, "[]".to_string()))) {
        Err(m) => assert_eq!(m, "GitHub GraphQL error: Not Found"),
        Ok(_) => panic!("expected an error"),
    }
    let fine = obj(vec![("data", obj(vec![]))]);
    assert!(reply_result(200, "", Ok((fine, String::new()))).is_ok());
}

#[test]
fn reply_texts_are_decoded() {
    match check_reply(502, "not json") {
        Err(m) => {
            assert!(m.starts_with("GitHub GraphQL response is not JSON (HTTP 502): "), "{m}");
            assert!(m.ends_with("\nBody preview: not json"), "{m}");
        }
        Ok(_) => panic!("expected an error"),
    }
    match check_reply(200, r#"{"errors":[{"message":"Bad credentials"},{"message":"Try again"}]}"#) {
        Err(m) => assert_eq!(m, "GitHub GraphQL error: Bad credentials; Try again"),
        Ok(_) => panic!("expected an error"),
    }
    // Without any message the error shows the errors member as JSON.
    match check_reply(200, r#"{"errors": {"code" : 7}}"#) {
        Err(m) => assert_eq!(m, r#"GitHub GraphQL error: {"code":7}"#),
        Ok(_) => panic!("expected an error"),
    }
    let reply = check_reply(
        200,
        r#"{"data":{"repository":{"pullRequests":{"nodes":[{"number":12,"title":"t","isDraft":true,"x":-3,"y":1.5}]}}}}"#,
    )
    .unwrap();
    let prs = parse_pr_page(&reply);
    assert_eq!(prs.len(), 1);
    assert_eq!(prs[0].number, 12);
    assert_eq!(prs[0].title, "t");
    assert!(prs[0].is_draft);
    let node = reply.get("data").unwrap().get("repository").unwrap().get("pullRequests").unwrap()
        .get("nodes").unwrap().as_array().unwrap()[0].get("x").unwrap();
    assert!(matches!(node, JsonValue::Number(JsonNumber::NegInt(-3))));
}

