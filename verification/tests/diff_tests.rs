use brioche_merge_manager::app::{Action, App};
use brioche_merge_manager::config::Config;
use brioche_merge_manager::diff::pr_diff_panel;
use brioche_merge_manager::models::{Color, FileDiff, FileStatus, MergeableState, PullRequest};
use brioche_merge_manager::view::Span;

fn config() -> Config {
    Config {
        github_token: "t".to_string(),
        owner: "o".to_string(),
        repo: "r".to_string(),
    }
}

fn joined(line: &[Span]) -> String {
    line.iter().map(|s| s.text.as_str()).collect()
}

fn make_pr(number: u64) -> PullRequest {
    PullRequest {
        number,
        node_id: String::new(),
        title: String::new(),
        author: String::new(),
        html_url: String::new(),
        mergeable_state: MergeableState::Clean,
        merge_queue: None,
        check_rollup: None,
        review_decision: None,
        is_draft: false,
        status: PullRequest::compute_status(&MergeableState::Clean, &None, false, &None),
        last_queue_removal: None,
    }
}

fn file(name: &str, status: FileStatus, add: u32, del: u32, patch: Option<&str>) -> FileDiff {
    FileDiff {
        filename: name.to_string(),
        status,
        additions: add,
        deletions: del,
        patch: patch.map(|p| p.to_string()),
    }
}

fn app_with_diff() -> App {
    let mut app = App::new(config(), true);
    app.update(Action::DataLoaded(vec![make_pr(7)]), 0);
    app
}

#[test]
fn diff_without_selection_or_data() {
    let app = App::new(config(), true);
    let (panel, scroll) = pr_diff_panel(&app, 80, 20);
    assert!(panel.lines.is_empty());
    assert_eq!(scroll, 0);
    assert_eq!(panel.border, Color::DarkGray);
    assert_eq!(joined(&panel.title), " Diff  d to focus ");

    let app = app_with_diff();
    let (panel, _) = pr_diff_panel(&app, 80, 20);
    let lines: Vec<String> = panel.lines.iter().map(|l| joined(l)).collect();
    assert_eq!(lines, vec!["", "  Loading…"]);
}

#[test]
fn diff_error() {
    let mut app = app_with_diff();
    app.update(Action::DiffError(7, "HTTP 404".to_string()), 0);
    app.update(Action::FocusDiff, 0);
    let (panel, scroll) = pr_diff_panel(&app, 80, 20);
    assert_eq!(panel.border, Color::Cyan);
    assert_eq!(joined(&panel.title), " Diff  ↑↓/jk scroll  d unfocus  Enter close ");
    assert_eq!(joined(&panel.lines[1]), "  Error: HTTP 404");
    assert_eq!(panel.lines[1][0].style.fg, Some(Color::Red));
    assert_eq!(scroll, 0);
}

#[test]
fn diff_files_project_first() {
    let mut app = app_with_diff();
    let files = vec![
        file("README.md", FileStatus::Modified, 3, 1, Some("@@ -1 +1 @@\n-old\n+new\n same")),
        file("packages/python/project.bri", FileStatus::Added, 40, 0, None),
        file("logo.png", FileStatus::Deleted, 0, 0, None),
        file("project.bri", FileStatus::Modified, 4, 11, Some("+x")),
        file("notproject.bri", FileStatus::Renamed, 0, 0, None),
    ];
    app.update(Action::DiffLoaded(7, files), 0);
    let (panel, scroll) = pr_diff_panel(&app, 80, 100);
    let lines: Vec<String> = panel.lines.iter().map(|l| joined(l)).collect();
    assert_eq!(
        lines,
        vec![
            "",
            "  5 files  +47  -12",
            "  ──────────────────────────────────────",
            "",
            " + packages/python/project.bri  +40 -0",
            "  binary",
            "",
            " ~ project.bri  +4 -11",
            "+x",
            "",
            " ~ README.md  +3 -1",
            "@@ -1 +1 @@",
            "-old",
            "+new",
            " same",
            "",
            " - logo.png  +0 -0",
            "  binary",
            "",
            " → notproject.bri  +0 -0",
            "  binary",
        ]
    );
    assert_eq!(scroll, 0);
    // Styles of the summary and of patch lines.
    assert_eq!(panel.lines[1][3].style.fg, Some(Color::Green));
    assert!(panel.lines[1][3].style.bold);
    assert_eq!(panel.lines[11][0].style.fg, Some(Color::Cyan));
    assert!(panel.lines[11][0].style.dim);
    assert_eq!(panel.lines[12][0].style.fg, Some(Color::Red));
    assert_eq!(panel.lines[13][0].style.fg, Some(Color::Green));
    assert_eq!(panel.lines[14][0].style.fg, None);
    assert!(panel.lines[14][0].style.dim);
    assert_eq!(panel.lines[4][1].style.fg, Some(Color::Green));
}

#[test]
fn diff_narrow_panel_cuts_names_and_lines() {
    let mut app = app_with_diff();
    let files = vec![file(
        "src/packages/python.bri",
        FileStatus::Modified,
        1,
        1,
        Some("+version = \"3.12.0\""),
    )];
    app.update(Action::DiffLoaded(7, files), 0);
    let (panel, _) = pr_diff_panel(&app, 26, 100);
    assert_eq!(panel.lines[4][3].text, "…ython.bri");
    assert_eq!(panel.lines[5][0].text, "+version = \"3.12.0\"");
    let (panel, _) = pr_diff_panel(&app, 11, 100);
    assert_eq!(panel.lines[4][3].text, "src/packages/python.bri");
    assert_eq!(panel.lines[5][0].text, "+version =");
}

#[test]
fn diff_scroll_is_clamped() {
    let mut app = app_with_diff();
    let patch: String = (0..30).map(|i| format!("+line {i}\n")).collect();
    app.update(Action::DiffLoaded(7, vec![file("a", FileStatus::Added, 30, 0, Some(&patch))]), 0);
    // 3 summary lines, 2 header lines, 30 patch lines.
    app.update(Action::FocusDiff, 0);
    app.update(Action::DiffScrollDown(10), 0);
    let (panel, scroll) = pr_diff_panel(&app, 80, 22);
    assert_eq!(panel.lines.len(), 35);
    assert_eq!(scroll, 10);
    app.update(Action::DiffScrollDown(usize::MAX), 0);
    let (_, scroll) = pr_diff_panel(&app, 80, 22);
    assert_eq!(scroll, 15);
    let (_, scroll) = pr_diff_panel(&app, 80, 1);
    assert_eq!(scroll, 35);
}
