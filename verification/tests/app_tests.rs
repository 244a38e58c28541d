use brioche_merge_manager::app::{
    browser_error_message, browser_opened_message, bulk_enqueue_message, enqueue_error_message,
    enqueued_pr_message, visible_indices, Action, App, Command, DiffState, Filter, LoadState, Rect,
};
use brioche_merge_manager::view::filter_tab_rects;
use brioche_merge_manager::config::Config;
use brioche_merge_manager::event::{Event, KeyCode, KeyModifiers};
use brioche_merge_manager::models::{
    FileDiff, FileStatus, MergeQueueEntry, MergeQueueState, MergeableState, PrStatus, PullRequest,
    QueueRemoval, QueueRemovalReason,
};
use brioche_merge_manager::time::Timestamp;

fn config() -> Config {
    Config {
        github_token: "t".to_string(),
        owner: "brioche-dev".to_string(),
        repo: "brioche-packages".to_string(),
    }
}

fn make_pr(
    number: u64,
    state: MergeableState,
    queue: Option<(MergeQueueState, u32)>,
    removal: Option<QueueRemovalReason>,
    draft: bool,
) -> PullRequest {
    let merge_queue =
        queue.map(|(s, p)| MergeQueueEntry { id: format!("MQE_{number}"), state: s, position: p });
    let last_queue_removal =
        removal.map(|reason| QueueRemoval { at: Timestamp { secs: 1_700_000_000, nanos: 0 }, reason });
    let status = PullRequest::compute_status(&state, &merge_queue, draft, &last_queue_removal);
    PullRequest {
        number,
        node_id: format!("PR_{number}"),
        title: format!("PR number {number}"),
        author: "alice".to_string(),
        html_url: format!("https://github.com/brioche-dev/brioche-packages/pull/{number}"),
        mergeable_state: state,
        merge_queue,
        check_rollup: None,
        review_decision: None,
        is_draft: draft,
        status,
        last_queue_removal,
    }
}

/// Five PRs: two ready (one a draft), one removed for failed checks, two
/// queued at positions 2 and 1.
fn sample() -> Vec<PullRequest> {
    vec![
        make_pr(10, MergeableState::Clean, None, None, false),
        make_pr(9, MergeableState::Clean, None, None, true),
        make_pr(8, MergeableState::Clean, None, Some(QueueRemovalReason::FailedChecks), false),
        make_pr(7, MergeableState::Blocked, Some((MergeQueueState::Queued, 2)), None, false),
        make_pr(6, MergeableState::Clean, Some((MergeQueueState::Awaiting, 1)), None, false),
    ]
}

fn loaded_app() -> App {
    let mut app = App::new(config(), false);
    assert!(app.update(Action::DataLoaded(sample()), 0).is_none());
    app
}

fn numbers(app: &App) -> Vec<u64> {
    app.visible_prs().iter().map(|p| p.number).collect()
}

fn key(code: KeyCode) -> Event {
    Event::Key(code, KeyModifiers { control: false })
}

#[test]
fn new_app_defaults() {
    let app = App::new(config(), true);
    assert!(app.prs.is_empty());
    assert_eq!(app.selected, 0);
    assert_eq!(app.list_state.selected, Some(0));
    assert!(matches!(app.load_state, LoadState::Idle));
    assert_eq!(app.list_height, 10);
    assert_eq!(app.diff_height, 10);
    assert_eq!(app.active_filter, Filter::Active);
    assert!(app.show_diff);
    assert!(!app.diff_focused);
    assert!(app.diff_cache.is_empty());
    assert!(app.selected_prs.is_empty());
    assert!(!app.enqueue_in_flight);
    assert!(!app.should_quit);
    assert!(app.selected_pr().is_none());
}

#[test]
fn filter_labels_and_cycle() {
    assert_eq!(Filter::all(), vec![Filter::Active, Filter::Ready, Filter::Removed, Filter::Queued]);
    assert_eq!(Filter::from_index(2), Some(Filter::Removed));
    assert_eq!(Filter::from_index(4), None);
    let filters = Filter::all();
    let labels: Vec<&str> = filters.iter().map(|f| f.label()).collect();
    assert_eq!(labels, vec!["Active", "Ready", "Removed", "Queued"]);
    for f in Filter::all() {
        assert_eq!(f.next().prev(), f);
        assert_eq!(f.prev().next(), f);
        assert_eq!(f.next().next().next().next(), f);
    }
    assert_eq!(Filter::Queued.next(), Filter::Active);
    assert_eq!(Filter::Active.prev(), Filter::Queued);
}

#[test]
fn filters_keep_their_prs() {
    let app = loaded_app();
    assert_eq!(app.count_for(&Filter::Active), 5);
    assert_eq!(app.count_for(&Filter::Ready), 2);
    assert_eq!(app.count_for(&Filter::Removed), 1);
    assert_eq!(app.count_for(&Filter::Queued), 2);
    let prs = sample();
    assert!(Filter::Ready.matches(&prs[0]));
    assert!(!Filter::Ready.matches(&prs[1]));
    // Clean, not a draft and not queued, though removed for a failure.
    assert!(Filter::Ready.matches(&prs[2]));
    assert!(!Filter::Ready.matches(&prs[3]));
    assert!(Filter::Removed.matches(&prs[2]));
    assert!(!Filter::Removed.matches(&prs[3]));
    assert!(Filter::Queued.matches(&prs[4]));
    for p in &prs {
        assert!(Filter::Active.matches(p));
        assert!(!(Filter::Queued.matches(p) && Filter::Removed.matches(p)));
    }
}

#[test]
fn queued_view_sorted_by_position() {
    let mut app = loaded_app();
    assert_eq!(numbers(&app), vec![10, 9, 8, 7, 6]);
    app.update(Action::SetFilter(Filter::Queued), 0);
    assert_eq!(numbers(&app), vec![6, 7]);
    for f in Filter::all() {
        app.update(Action::SetFilter(f), 0);
        assert_eq!(app.count_for(&f), app.visible_prs().len());
    }
    app.update(Action::SetFilter(Filter::Queued), 0);
    assert_eq!(visible_indices(&app.prs, Filter::Queued), vec![4, 3]);
    assert_eq!(visible_indices(&app.prs, Filter::Ready), vec![0, 2]);
}

#[test]
fn navigation_stays_in_range() {
    let mut app = loaded_app();
    app.update(Action::NavigateUp, 0);
    assert_eq!(app.selected, 0);
    app.update(Action::NavigateDown, 0);
    assert_eq!(app.selected, 1);
    assert_eq!(app.list_state.selected, Some(1));
    app.update(Action::NavigateEnd, 0);
    assert_eq!(app.selected, 4);
    app.update(Action::NavigateDown, 0);
    assert_eq!(app.selected, 4);
    app.update(Action::NavigateHome, 0);
    assert_eq!(app.selected, 0);
    app.list_height = 3;
    app.update(Action::NavigatePageDown, 0);
    assert_eq!(app.selected, 3);
    app.update(Action::NavigatePageDown, 0);
    assert_eq!(app.selected, 4);
    app.update(Action::NavigatePageUp, 0);
    assert_eq!(app.selected, 1);
    app.update(Action::NavigateTo(99), 0);
    assert_eq!(app.selected, 4);
    assert_eq!(app.selected_pr().unwrap().number, 6);
    app.update(Action::CycleFilterNext, 0);
    assert_eq!(app.active_filter, Filter::Ready);
    assert_eq!(app.selected, 0);
    app.update(Action::CycleFilterPrev, 0);
    app.update(Action::CycleFilterPrev, 0);
    assert_eq!(app.active_filter, Filter::Queued);
}

#[test]
fn empty_view_has_no_selection() {
    let mut app = App::new(config(), false);
    app.update(Action::DataLoaded(vec![make_pr(1, MergeableState::Blocked, None, None, false)]), 0);
    app.update(Action::SetFilter(Filter::Queued), 0);
    assert!(app.visible_prs().is_empty());
    assert_eq!(app.selected, 0);
    assert_eq!(app.list_state.selected, None);
    assert!(app.selected_pr().is_none());
}

#[test]
fn toggling_selection_twice_restores_it() {
    let mut app = loaded_app();
    app.update(Action::NavigateDown, 0);
    app.update(Action::ToggleSelectPr, 0);
    assert!(app.selected_prs.contains(&9));
    app.update(Action::ToggleSelectPr, 0);
    assert!(app.selected_prs.is_empty());
    app.update(Action::SelectAllVisible, 0);
    assert_eq!(app.selected_prs.len(), 5);
    app.update(Action::DeselectAll, 0);
    assert!(app.selected_prs.is_empty());
}

#[test]
fn batch_enqueue_skips_queued_prs() {
    let mut app = loaded_app();
    app.update(Action::SelectAllVisible, 0);
    match app.update(Action::EnqueueSelected, 0) {
        Some(Command::EnqueueBatch(targets)) => {
            let want: Vec<(u64, String)> = vec![
                (10, "PR_10".to_string()),
                (9, "PR_9".to_string()),
                (8, "PR_8".to_string()),
            ];
            assert_eq!(targets, want);
        }
        other => panic!("expected a batch, got {other:?}"),
    }
    assert!(app.selected_prs.is_empty());
    assert!(app.enqueue_in_flight);
    assert_eq!(app.enqueue_total, 3);
    // While a request is in flight nothing more is sent.
    app.update(Action::ToggleSelectPr, 0);
    assert!(app.update(Action::EnqueueSelected, 0).is_none());
    assert!(app.selected_prs.contains(&10));
}

#[test]
fn selection_of_only_queued_prs_sends_nothing() {
    let mut app = loaded_app();
    app.update(Action::NavigateEnd, 0);
    app.update(Action::ToggleSelectPr, 0);
    assert!(app.update(Action::EnqueueSelected, 0).is_none());
    assert!(app.selected_prs.is_empty());
    assert!(!app.enqueue_in_flight);
}

#[test]
fn single_enqueue_of_the_selected_pr() {
    let mut app = loaded_app();
    match app.update(Action::EnqueueSelected, 0) {
        Some(Command::EnqueuePr { number, node_id }) => {
            assert_eq!(number, 10);
            assert_eq!(node_id, "PR_10");
        }
        other => panic!("expected a single enqueue, got {other:?}"),
    }
    assert!(app.enqueue_in_flight);
    assert_eq!(app.enqueue_total, 1);
    app.update(Action::EnqueueFailed, 0);
    assert!(!app.enqueue_in_flight);
    // A queued PR is not sent again.
    app.update(Action::NavigateEnd, 0);
    assert!(app.update(Action::EnqueueSelected, 0).is_none());
    assert!(!app.enqueue_in_flight);
}

#[test]
fn enqueue_results_update_the_list() {
    let mut app = loaded_app();
    let entry = MergeQueueEntry { id: "MQE_new".to_string(), state: MergeQueueState::Queued, position: 3 };
    app.update(
        Action::BulkEnqueued(vec![(10, Ok(entry)), (8, Err("already queued".to_string()))]),
        500,
    );
    assert!(!app.enqueue_in_flight);
    let (msg, at) = app.status_msg.clone().unwrap();
    assert_eq!(msg, "1 PR added; 1 failed");
    assert_eq!(at, 500);
    let p10 = app.prs.iter().find(|p| p.number == 10).unwrap();
    assert_eq!(p10.status, PrStatus::InQueue);
    assert_eq!(p10.merge_queue.as_ref().unwrap().position, 3);
    assert_eq!(app.count_for(&Filter::Queued), 3);

    let entry = MergeQueueEntry { id: "MQE_8".to_string(), state: MergeQueueState::Queued, position: 4 };
    app.update(Action::PrEnqueued(8, entry), 700);
    assert_eq!(app.status_msg.clone().unwrap().0, "PR #8 added to merge queue");
    assert_eq!(app.prs.iter().find(|p| p.number == 8).unwrap().status, PrStatus::InQueue);
}

#[test]
fn status_message_expires_after_three_seconds() {
    let mut app = loaded_app();
    app.update(Action::StatusMessage("hello".to_string()), 1_000);
    app.update(Action::Tick, 3_999);
    assert!(app.status_msg.is_some());
    app.update(Action::Tick, 4_000);
    assert!(app.status_msg.is_none());
    assert_eq!(app.tick_count, 2);
}

#[test]
fn diff_panel_flow() {
    let mut app = loaded_app();
    match app.update(Action::ToggleDiff, 0) {
        Some(Command::FetchDiff(n)) => assert_eq!(n, 10),
        other => panic!("expected a diff fetch, got {other:?}"),
    }
    assert!(app.show_diff);
    let files = vec![FileDiff {
        filename: "project.bri".to_string(),
        status: FileStatus::Modified,
        additions: 2,
        deletions: 1,
        patch: None,
    }];
    app.update(Action::DiffLoaded(10, files), 0);
    assert!(matches!(app.diff_cache.get(&10), Some(DiffState::Loaded(_))));
    // Cached: toggling again fetches nothing.
    app.update(Action::ToggleDiff, 0);
    assert!(!app.show_diff);
    assert!(app.update(Action::ToggleDiff, 0).is_none());
    // Moving to another PR asks for its diff.
    match app.update(Action::NavigateDown, 0) {
        Some(Command::FetchDiff(n)) => assert_eq!(n, 9),
        other => panic!("expected a diff fetch, got {other:?}"),
    }
    app.update(Action::DiffError(9, "404".to_string()), 0);
    assert!(matches!(app.diff_cache.get(&9), Some(DiffState::Error(_))));
    app.update(Action::FocusDiff, 0);
    assert!(app.diff_focused);
    app.update(Action::DiffScrollDown(5), 0);
    app.update(Action::DiffScrollUp(2), 0);
    assert_eq!(app.diff_scroll, 3);
    app.update(Action::DiffScrollUp(usize::MAX), 0);
    assert_eq!(app.diff_scroll, 0);
    app.update(Action::DiffScrollDown(usize::MAX), 0);
    app.update(Action::DiffScrollDown(1), 0);
    assert_eq!(app.diff_scroll, usize::MAX);
    app.update(Action::UnfocusDiff, 0);
    assert!(!app.diff_focused);
}

#[test]
fn load_lifecycle() {
    let mut app = App::new(config(), false);
    assert!(matches!(app.update(Action::Refresh, 0), Some(Command::FetchPrs)));
    assert!(matches!(app.load_state, LoadState::Loading));
    app.update(Action::LoadProgress(50, 120), 0);
    assert_eq!(app.load_progress, Some((50, 120)));
    app.update(Action::LoadError("boom".to_string()), 0);
    assert!(matches!(&app.load_state, LoadState::Error(m) if m == "boom"));
    assert_eq!(app.load_progress, None);
    app.update(Action::DataLoaded(sample()), 0);
    assert!(matches!(app.load_state, LoadState::Idle));
    assert_eq!(app.prs.len(), 5);
}

#[test]
fn open_in_browser_and_quit() {
    let mut app = loaded_app();
    match app.update(Action::OpenInBrowser, 0) {
        Some(Command::OpenUrl { number, url }) => {
            assert_eq!(number, 10);
            assert_eq!(url, "https://github.com/brioche-dev/brioche-packages/pull/10");
        }
        other => panic!("expected a browser command, got {other:?}"),
    }
    app.update(Action::Quit, 0);
    assert!(app.should_quit);
}

#[test]
fn keys_map_to_actions() {
    let mut app = loaded_app();
    let ctrl_c = Event::Key(KeyCode::Char('c'), KeyModifiers { control: true });
    assert!(matches!(app.handle_event(ctrl_c), Some(Action::Quit)));
    assert!(matches!(app.handle_event(key(KeyCode::Char('c'))), None));
    assert!(matches!(app.handle_event(key(KeyCode::Char('j'))), Some(Action::NavigateDown)));
    assert!(matches!(app.handle_event(key(KeyCode::Up)), Some(Action::NavigateUp)));
    assert!(matches!(app.handle_event(key(KeyCode::Tab)), Some(Action::CycleFilterNext)));
    assert!(matches!(app.handle_event(key(KeyCode::BackTab)), Some(Action::CycleFilterPrev)));
    assert!(matches!(app.handle_event(key(KeyCode::Char(' '))), Some(Action::ToggleSelectPr)));
    assert!(matches!(app.handle_event(key(KeyCode::Char('r'))), Some(Action::EnqueueSelected)));
    assert!(matches!(app.handle_event(key(KeyCode::Char('R'))), Some(Action::Refresh)));
    assert!(matches!(app.handle_event(key(KeyCode::Enter)), Some(Action::ToggleDiff)));
    assert!(matches!(app.handle_event(key(KeyCode::Char('d'))), None));
    assert!(matches!(app.handle_event(Event::Tick), Some(Action::Tick)));
    app.show_diff = true;
    assert!(matches!(app.handle_event(key(KeyCode::Char('d'))), Some(Action::FocusDiff)));
    app.diff_focused = true;
    app.diff_height = 0;
    assert!(matches!(app.handle_event(key(KeyCode::Char('d'))), Some(Action::UnfocusDiff)));
    assert!(matches!(app.handle_event(key(KeyCode::Char('k'))), Some(Action::DiffScrollUp(1))));
    assert!(matches!(app.handle_event(key(KeyCode::PageDown)), Some(Action::DiffScrollDown(1))));
    assert!(matches!(app.handle_event(key(KeyCode::Home)), Some(Action::DiffScrollUp(usize::MAX))));
    assert!(matches!(app.handle_event(key(KeyCode::End)), Some(Action::DiffScrollDown(usize::MAX))));
    assert!(matches!(app.handle_event(key(KeyCode::Tab)), None));
}

#[test]
fn clicks_and_wheel() {
    let mut app = loaded_app();
    app.show_diff = true;
    app.diff_panel_rect = Rect { x: 40, y: 5, width: 40, height: 20 };
    app.pr_list_rect = Rect { x: 0, y: 5, width: 40, height: 10 };
    app.filter_tab_rects =
        vec![Rect { x: 0, y: 2, width: 10, height: 1 }, Rect { x: 10, y: 2, width: 10, height: 1 }];
    app.list_state.offset = 2;
    assert!(matches!(app.handle_event(Event::Mouse(50, 10)), Some(Action::FocusDiff)));
    assert!(matches!(app.handle_event(Event::Mouse(12, 2)), Some(Action::SetFilter(Filter::Ready))));
    assert!(matches!(app.handle_event(Event::Mouse(3, 8)), Some(Action::NavigateTo(5))));
    assert!(matches!(app.handle_event(Event::Mouse(3, 30)), None));
    assert!(matches!(app.handle_event(Event::ScrollDown(50, 10)), Some(Action::DiffScrollDown(3))));
    assert!(matches!(app.handle_event(Event::ScrollUp(3, 8)), Some(Action::NavigateUp)));
}

#[test]
fn frame_sizes_are_recorded() {
    let mut app = loaded_app();
    let list = Rect { x: 1, y: 4, width: 38, height: 17 };
    app.record_frame(Some(list), None, None);
    assert_eq!(app.list_height, 17);
    assert_eq!(app.pr_list_rect, list);
    assert_eq!(app.diff_height, 10);
    let area = Rect { x: 40, y: 3, width: 60, height: 30 };
    app.record_frame(None, Some(area), None);
    assert_eq!(app.list_height, 17);
    assert_eq!(app.diff_height, 28);
    assert_eq!(app.diff_panel_rect, area);
    app.record_frame(None, Some(Rect { x: 0, y: 0, width: 5, height: 1 }), None);
    assert_eq!(app.diff_height, 0);
    let tabs = vec![Rect { x: 1, y: 2, width: 3, height: 1 }];
    app.record_frame(None, None, Some(tabs.clone()));
    assert_eq!(app.filter_tab_rects, tabs);
    assert_eq!(app.pr_list_rect, list);
}

#[test]
fn clicks_on_recorded_tabs_and_rows() {
    let mut app = loaded_app();
    let tabs = filter_tab_rects(&app, Rect { x: 0, y: 2, width: 80, height: 1 });
    app.record_frame(Some(Rect { x: 1, y: 4, width: 38, height: 10 }), None, Some(tabs));
    // " ▶ Active (5)   Ready (2)   Removed (1)   Queued (2)  "
    assert!(matches!(app.handle_event(Event::Mouse(1, 2)), Some(Action::SetFilter(Filter::Active))));
    assert!(matches!(app.handle_event(Event::Mouse(13, 2)), Some(Action::SetFilter(Filter::Active))));
    assert!(matches!(app.handle_event(Event::Mouse(14, 2)), None));
    assert!(matches!(app.handle_event(Event::Mouse(15, 2)), Some(Action::SetFilter(Filter::Ready))));
    assert!(matches!(app.handle_event(Event::Mouse(25, 2)), Some(Action::SetFilter(Filter::Ready))));
    assert!(matches!(app.handle_event(Event::Mouse(6, 5)), Some(Action::NavigateTo(1))));
}

#[test]
fn enqueue_count_back_to_zero() {
    let mut app = loaded_app();
    app.update(Action::SelectAllVisible, 0);
    app.update(Action::EnqueueSelected, 0);
    assert_eq!(app.enqueue_total, 3);
    app.update(Action::EnqueueFailed, 0);
    assert!(!app.enqueue_in_flight);
    assert_eq!(app.enqueue_total, 0);
    app.update(Action::EnqueueSelected, 0);
    assert_eq!(app.enqueue_total, 1);
    app.update(Action::BulkEnqueued(Vec::new()), 0);
    assert_eq!(app.enqueue_total, 0);
    app.update(Action::EnqueueSelected, 0);
    let entry = MergeQueueEntry { id: "M".to_string(), state: MergeQueueState::Queued, position: 1 };
    app.update(Action::PrEnqueued(10, entry), 0);
    assert_eq!((app.enqueue_in_flight, app.enqueue_total), (false, 0));
}

#[test]
fn keys_need_no_fitting_rectangles() {
    let mut app = loaded_app();
    app.diff_panel_rect = Rect { x: 65_000, y: 0, width: 1_000, height: 1 };
    app.filter_tab_rects = vec![Rect { x: 65_535, y: 65_535, width: 9, height: 9 }];
    let ctrl_c = Event::Key(KeyCode::Char('c'), KeyModifiers { control: true });
    assert!(matches!(app.handle_event(ctrl_c), Some(Action::Quit)));
    assert!(matches!(app.handle_event(key(KeyCode::Down)), Some(Action::NavigateDown)));
    assert!(matches!(app.handle_event(Event::Tick), Some(Action::Tick)));
    // The wheel tests the diff panel only while it is shown.
    assert!(matches!(app.handle_event(Event::ScrollUp(3, 3)), Some(Action::NavigateUp)));
}

#[test]
fn emptied_view_scrolls_back_to_top() {
    let mut app = loaded_app();
    app.list_state.offset = 3;
    app.update(Action::DataLoaded(Vec::new()), 0);
    assert_eq!(app.list_state.selected, None);
    assert_eq!(app.list_state.offset, 0);
    let mut app = loaded_app();
    app.list_state.offset = 2;
    app.update(Action::SetFilter(Filter::Ready), 0);
    assert_eq!(app.list_state.offset, 2);
}

#[test]
fn clicks_need_no_fitting_rectangles() {
    let mut app = loaded_app();
    app.show_diff = true;
    app.diff_panel_rect = Rect { x: 65_000, y: 0, width: 1_000, height: 10 };
    app.filter_tab_rects = vec![Rect { x: 65_535, y: 65_535, width: 9, height: 9 }];
    assert!(matches!(app.handle_event(Event::Mouse(65_535, 5)), Some(Action::FocusDiff)));
    assert!(matches!(app.handle_event(Event::ScrollDown(65_100, 5)), Some(Action::DiffScrollDown(3))));
    assert!(matches!(app.handle_event(Event::Mouse(65_535, 65_535)), Some(Action::SetFilter(Filter::Active))));
    assert!(Rect { x: 65_535, y: 0, width: 65_535, height: 1 }.contains(65_535, 0));
    assert!(!Rect { x: 10, y: 0, width: 0, height: 1 }.contains(10, 0));
}

#[test]
fn status_messages() {
    assert_eq!(bulk_enqueue_message(1, 0), "1 PR added to merge queue");
    assert_eq!(bulk_enqueue_message(3, 0), "3 PRs added to merge queue");
    assert_eq!(bulk_enqueue_message(0, 2), "0 PRs added; 2 failed");
    assert_eq!(enqueued_pr_message(3712), "PR #3712 added to merge queue");
    assert_eq!(enqueue_error_message(5, "nope"), "Error queuing PR #5: nope");
    assert_eq!(browser_opened_message(42), "Opened PR #42 in browser");
    assert_eq!(browser_error_message("no browser"), "Failed to open browser: no browser");
}
