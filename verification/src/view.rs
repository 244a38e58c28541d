//! What the panels show, as styled text: the header, the legend, the tab
//! bar, the list and the detail panel. Drawing it on the
//! terminal is left to the caller.
use vstd::prelude::*;
use crate::app::{filter_at, matching_indices, App, Filter, LoadState, Rect};
use crate::config::Config;
use crate::models::{
    CheckRollupState, Color, MergeQueueEntry, MergeQueueState, PrStatus, PullRequest, QueueRemoval,
    QueueRemovalReason, ReviewDecision,
};
use crate::time::{
    chrono_seconds_between, plain_instant, seconds_between, whole_seconds_between, Timestamp,
};
use crate::text::{ago_text, format_ago};
use crate::text::push_char;
use crate::text::{append_decimal, append_str, decimal, decimal_string};

verus! {

/// How a piece of text is drawn.
#[derive(Debug, Clone, Copy, PartialEq, Eq, Structural)]
pub struct Style {
    pub fg: Option<Color>,
    pub bg: Option<Color>,
    pub bold: bool,
    pub dim: bool,
    pub italic: bool,
}

/// A piece of text with its style.
#[derive(Debug, Clone)]
pub struct Span {
    pub text: String,
    pub style: Style,
}

/// The text and style of a span.
pub open spec fn span_view(s: Span) -> (Seq<char>, Style) {
    (s.text@, s.style)
}

/// The texts and styles of a line of spans.
pub open spec fn line_view(l: Seq<Span>) -> Seq<(Seq<char>, Style)> {
    l.map_values(|s: Span| span_view(s))
}

/// No styling.
pub open spec fn plain() -> Style {
    Style { fg: None, bg: None, bold: false, dim: false, italic: false }
}

/// A foreground colour.
pub open spec fn fg(c: Color) -> Style {
    Style { fg: Some(c), ..plain() }
}

/// A bold foreground colour.
pub open spec fn fg_bold(c: Color) -> Style {
    Style { fg: Some(c), bold: true, ..plain() }
}

/// Dimmed text.
pub open spec fn dimmed() -> Style {
    Style { dim: true, ..plain() }
}

/// Bold text.
pub open spec fn bolded() -> Style {
    Style { bold: true, ..plain() }
}

/// Black bold text on cyan: the highlight of the active item.
pub open spec fn highlight() -> Style {
    Style { fg: Some(Color::Black), bg: Some(Color::Cyan), bold: true, ..plain() }
}

pub fn plain_style() -> (r: Style)
    ensures
        r == plain(),
{
    Style { fg: None, bg: None, bold: false, dim: false, italic: false }
}

pub fn fg_style(c: Color) -> (r: Style)
    ensures
        r == fg(c),
{
    Style { fg: Some(c), bg: None, bold: false, dim: false, italic: false }
}

pub fn fg_bold_style(c: Color) -> (r: Style)
    ensures
        r == fg_bold(c),
{
    Style { fg: Some(c), bg: None, bold: true, dim: false, italic: false }
}

pub fn dim_style() -> (r: Style)
    ensures
        r == dimmed(),
{
    Style { fg: None, bg: None, bold: false, dim: true, italic: false }
}

pub fn bold_style() -> (r: Style)
    ensures
        r == bolded(),
{
    Style { fg: None, bg: None, bold: true, dim: false, italic: false }
}

pub fn highlight_style() -> (r: Style)
    ensures
        r == highlight(),
{
    Style { fg: Some(Color::Black), bg: Some(Color::Cyan), bold: true, dim: false, italic: false }
}

/// A span with a copy of the text.
pub fn span(text: &str, style: Style) -> (r: Span)
    ensures
        span_view(r) == (text@, style),
{
    Span { text: text.to_string(), style }
}

/// Appends a span to a line.
pub(crate) fn push_span(line: &mut Vec<Span>, text: &str, style: Style)
    ensures
        line_view(final(line)@) == line_view(old(line)@).push((text@, style)),
{
    let ghost before = line@;
    line.push(span(text, style));
    proof {
        assert(line_view(line@) =~= line_view(before).push((text@, style)));
    }
}

/// Appends a span that takes the string.
pub(crate) fn push_owned(line: &mut Vec<Span>, text: String, style: Style)
    ensures
        line_view(final(line)@) == line_view(old(line)@).push((text@, style)),
{
    let ghost before = line@;
    let ghost t = text@;
    line.push(Span { text, style });
    proof {
        assert(line_view(line@) =~= line_view(before).push((t, style)));
    }
}

// ---------------------------------------------------------------------------
// Header
// ---------------------------------------------------------------------------

/// The header line: the title, the repository with the PR count once PRs
/// are loaded, and a badge when debug logging is on.
pub open spec fn header_view(config: Config, pr_count: nat, debug_enabled: bool) -> Seq<
    (Seq<char>, Style),
> {
    let count = if pr_count == 0 {
        ""@
    } else {
        "  ·  "@ + decimal(pr_count) + " PRs"@
    };
    seq![
        (" 🍞 Brioche Merge Manager "@, highlight()),
        ("  "@ + config.owner@ + "/"@ + config.repo@ + count, dimmed()),
        (if debug_enabled { " [DBG]"@ } else { ""@ }, fg_bold(Color::Red)),
    ]
}

pub fn header_line(app: &App, debug_enabled: bool) -> (r: Vec<Span>)
    ensures
        line_view(r@) == header_view(app.config, app.prs@.len(), debug_enabled),
{
    let mut line: Vec<Span> = Vec::new();
    push_span(&mut line, " 🍞 Brioche Merge Manager ", highlight_style());
    let mut repo = String::new();
    append_str(&mut repo, "  ");
    append_str(&mut repo, app.config.owner.as_str());
    append_str(&mut repo, "/");
    append_str(&mut repo, app.config.repo.as_str());
    if app.prs.len() > 0 {
        append_str(&mut repo, "  ·  ");
        append_decimal(&mut repo, app.prs.len() as u64);
        append_str(&mut repo, " PRs");
    } else {
        proof {
            reveal_strlit("");
            assert(repo@ + ""@ =~= repo@);
        }
    }
    proof {
        let count = if app.prs@.len() == 0 {
            ""@
        } else {
            "  ·  "@ + decimal(app.prs@.len()) + " PRs"@
        };
        assert(repo@ =~= "  "@ + app.config.owner@ + "/"@ + app.config.repo@ + count);
    }
    push_owned(&mut line, repo, dim_style());
    let badge = if debug_enabled { " [DBG]" } else { "" };
    push_span(&mut line, badge, fg_bold_style(Color::Red));
    proof {
        assert(line_view(line@) =~= header_view(app.config, app.prs@.len(), debug_enabled));
    }
    line
}

} // verus!

verus! {

// ---------------------------------------------------------------------------
// Legend
// ---------------------------------------------------------------------------

/// Frame `i` of the spinner shown while an enqueue is in flight.
pub open spec fn spinner_frame(i: nat) -> Seq<char> {
    if i == 0 {
        "⠋"@
    } else if i == 1 {
        "⠙"@
    } else if i == 2 {
        "⠹"@
    } else if i == 3 {
        "⠸"@
    } else if i == 4 {
        "⠼"@
    } else if i == 5 {
        "⠴"@
    } else if i == 6 {
        "⠦"@
    } else if i == 7 {
        "⠧"@
    } else if i == 8 {
        "⠇"@
    } else {
        "⠏"@
    }
}

fn spinner(i: usize) -> (r: &'static str)
    requires
        i < 10,
    ensures
        r@ == spinner_frame(i as nat),
{
    match i {
        0 => "⠋",
        1 => "⠙",
        2 => "⠹",
        3 => "⠸",
        4 => "⠼",
        5 => "⠴",
        6 => "⠦",
        7 => "⠧",
        8 => "⠇",
        _ => "⠏",
    }
}

/// The status row of the legend: a spinner and the size of the batch while
/// an enqueue is in flight, else the status message, else nothing.
pub open spec fn status_line_view(app: App) -> Seq<(Seq<char>, Style)> {
    if app.enqueue_in_flight {
        let msg = if app.enqueue_total == 1 {
            "  Adding PR to merge queue…"@
        } else {
            "  Adding "@ + decimal(app.enqueue_total as nat) + " PRs to merge queue…"@
        };
        seq![
            (" "@, plain()),
            (spinner_frame((app.tick_count % 10) as nat), fg_bold(Color::Yellow)),
            (msg, fg_bold(Color::Yellow)),
        ]
    } else {
        match app.status_msg {
            Some((m, _)) => seq![
                (" "@, plain()),
                ("▶ "@, fg(Color::Yellow)),
                (m@, fg_bold(Color::Yellow)),
            ],
            None => Seq::empty(),
        }
    }
}

/// A key name in the legend.
pub open spec fn key_view(k: Seq<char>) -> (Seq<char>, Style) {
    (k, fg_bold(Color::Cyan))
}

/// A separator or a description in the legend.
pub open spec fn note_view(d: Seq<char>) -> (Seq<char>, Style) {
    (d, dimmed())
}

/// The navigation row of the legend.
pub open spec fn nav_line_view(diff_focused: bool) -> Seq<(Seq<char>, Style)> {
    if diff_focused {
        seq![
            (" "@, plain()),
            key_view("↑↓"@),
            note_view(" / "@),
            key_view("jk"@),
            note_view(" Scroll diff  "@),
            key_view("PgUp"@),
            note_view("/"@),
            key_view("PgDn"@),
            note_view(" Page  "@),
            key_view("Home"@),
            note_view("/"@),
            key_view("End"@),
            note_view(" Top/Bottom"@),
        ]
    } else {
        seq![
            (" "@, plain()),
            key_view("↑↓"@),
            note_view(" / "@),
            key_view("jk"@),
            note_view(" Navigate  "@),
            key_view("Tab"@),
            note_view(" / "@),
            key_view("⇧Tab"@),
            note_view(" Cycle filter  "@),
            key_view("R"@),
            note_view(" Refresh"@),
        ]
    }
}

/// The action row of the legend.
pub open spec fn action_line_view(diff_focused: bool) -> Seq<(Seq<char>, Style)> {
    if diff_focused {
        seq![
            (" "@, plain()),
            key_view("d"@),
            note_view(" Unfocus diff  "@),
            key_view("Enter"@),
            note_view(" Close diff  "@),
            key_view("o"@),
            note_view(" Open in browser  "@),
            key_view("R"@),
            note_view(" Refresh  "@),
            key_view("Ctrl+C"@),
            note_view(" Quit"@),
        ]
    } else {
        seq![
            (" "@, plain()),
            key_view("Space"@),
            note_view(" Select  "@),
            key_view("a"@),
            note_view(" Select all  "@),
            key_view("A"@),
            note_view(" Deselect all  "@),
            key_view("r"@),
            note_view(" Add to queue  "@),
            key_view("o"@),
            note_view(" Open  "@),
            key_view("Enter"@),
            note_view(" Toggle diff  "@),
            key_view("Ctrl+C"@),
            note_view(" Quit"@),
        ]
    }
}

fn status_line(app: &App) -> (r: Vec<Span>)
    ensures
        line_view(r@) == status_line_view(*app),
{
    let mut line: Vec<Span> = Vec::new();
    if app.enqueue_in_flight {
        let frame = spinner(app.tick_count % 10);
        let mut msg = String::new();
        if app.enqueue_total == 1 {
            append_str(&mut msg, "  Adding PR to merge queue…");
        } else {
            append_str(&mut msg, "  Adding ");
            append_decimal(&mut msg, app.enqueue_total as u64);
            append_str(&mut msg, " PRs to merge queue…");
        }
        push_span(&mut line, " ", plain_style());
        push_span(&mut line, frame, fg_bold_style(Color::Yellow));
        push_owned(&mut line, msg, fg_bold_style(Color::Yellow));
        proof {
            assert(line_view(line@) =~= status_line_view(*app));
        }
    } else if let Some((m, _)) = &app.status_msg {
        push_span(&mut line, " ", plain_style());
        push_span(&mut line, "▶ ", fg_style(Color::Yellow));
        push_span(&mut line, m.as_str(), fg_bold_style(Color::Yellow));
        proof {
            assert(line_view(line@) =~= status_line_view(*app));
        }
    } else {
        proof {
            assert(line_view(line@) =~= status_line_view(*app));
        }
    }
    line
}

fn push_key(line: &mut Vec<Span>, k: &str)
    ensures
        line_view(final(line)@) == line_view(old(line)@).push(key_view(k@)),
{
    push_span(line, k, fg_bold_style(Color::Cyan));
}

fn push_note(line: &mut Vec<Span>, d: &str)
    ensures
        line_view(final(line)@) == line_view(old(line)@).push(note_view(d@)),
{
    push_span(line, d, dim_style());
}

fn nav_line(diff_focused: bool) -> (r: Vec<Span>)
    ensures
        line_view(r@) == nav_line_view(diff_focused),
{
    let mut l: Vec<Span> = Vec::new();
    push_span(&mut l, " ", plain_style());
    if diff_focused {
        push_key(&mut l, "↑↓");
        push_note(&mut l, " / ");
        push_key(&mut l, "jk");
        push_note(&mut l, " Scroll diff  ");
        push_key(&mut l, "PgUp");
        push_note(&mut l, "/");
        push_key(&mut l, "PgDn");
        push_note(&mut l, " Page  ");
        push_key(&mut l, "Home");
        push_note(&mut l, "/");
        push_key(&mut l, "End");
        push_note(&mut l, " Top/Bottom");
    } else {
        push_key(&mut l, "↑↓");
        push_note(&mut l, " / ");
        push_key(&mut l, "jk");
        push_note(&mut l, " Navigate  ");
        push_key(&mut l, "Tab");
        push_note(&mut l, " / ");
        push_key(&mut l, "⇧Tab");
        push_note(&mut l, " Cycle filter  ");
        push_key(&mut l, "R");
        push_note(&mut l, " Refresh");
    }
    proof {
        assert(line_view(l@) =~= nav_line_view(diff_focused));
    }
    l
}

fn action_line(diff_focused: bool) -> (r: Vec<Span>)
    ensures
        line_view(r@) == action_line_view(diff_focused),
{
    let mut l: Vec<Span> = Vec::new();
    push_span(&mut l, " ", plain_style());
    if diff_focused {
        push_key(&mut l, "d");
        push_note(&mut l, " Unfocus diff  ");
        push_key(&mut l, "Enter");
        push_note(&mut l, " Close diff  ");
        push_key(&mut l, "o");
        push_note(&mut l, " Open in browser  ");
        push_key(&mut l, "R");
        push_note(&mut l, " Refresh  ");
        push_key(&mut l, "Ctrl+C");
        push_note(&mut l, " Quit");
    } else {
        push_key(&mut l, "Space");
        push_note(&mut l, " Select  ");
        push_key(&mut l, "a");
        push_note(&mut l, " Select all  ");
        push_key(&mut l, "A");
        push_note(&mut l, " Deselect all  ");
        push_key(&mut l, "r");
        push_note(&mut l, " Add to queue  ");
        push_key(&mut l, "o");
        push_note(&mut l, " Open  ");
        push_key(&mut l, "Enter");
        push_note(&mut l, " Toggle diff  ");
        push_key(&mut l, "Ctrl+C");
        push_note(&mut l, " Quit");
    }
    proof {
        assert(line_view(l@) =~= action_line_view(diff_focused));
    }
    l
}

/// The three rows of the legend: status, navigation keys, action keys.
pub fn legend_lines(app: &App) -> (r: Vec<Vec<Span>>)
    ensures
        r@.len() == 3,
        line_view(r@[0]@) == status_line_view(*app),
        line_view(r@[1]@) == nav_line_view(app.diff_focused),
        line_view(r@[2]@) == action_line_view(app.diff_focused),
{
    let mut lines: Vec<Vec<Span>> = Vec::new();
    lines.push(status_line(app));
    lines.push(nav_line(app.diff_focused));
    lines.push(action_line(app.diff_focused));
    lines
}

} // verus!

verus! {

// ---------------------------------------------------------------------------
// Tab bar
// ---------------------------------------------------------------------------

/// Cyan on cyan: the marker of the active tab.
pub open spec fn marker() -> Style {
    Style { fg: Some(Color::Cyan), bg: Some(Color::Cyan), ..plain() }
}

/// The spans of one tab: its label with the count of PRs it keeps,
/// highlighted behind a marker when it is the active filter, dimmed
/// otherwise; then a space.
pub open spec fn tab_view(app: App, f: Filter) -> Seq<(Seq<char>, Style)> {
    let count = matching_indices(app.prs@, f, app.prs@.len() as int).len();
    let label = " "@ + f.label_spec() + " ("@ + decimal(count) + ") "@;
    if f == app.active_filter {
        seq![("▶"@, marker()), (label, highlight()), (" "@, plain())]
    } else {
        seq![(label, dimmed()), (" "@, plain())]
    }
}

/// The tab bar: a leading space and the four tabs in order.
pub open spec fn tabs_view(app: App) -> Seq<(Seq<char>, Style)> {
    seq![(" "@, plain())] + tab_view(app, Filter::Active) + tab_view(app, Filter::Ready) + tab_view(
        app,
        Filter::Removed,
    ) + tab_view(app, Filter::Queued)
}

fn push_tab(line: &mut Vec<Span>, app: &App, f: Filter)
    ensures
        line_view(final(line)@) == line_view(old(line)@) + tab_view(*app, f),
{
    let ghost before = line_view(line@);
    let count = app.count_for(&f);
    let mut label = String::new();
    append_str(&mut label, " ");
    append_str(&mut label, f.label());
    append_str(&mut label, " (");
    append_decimal(&mut label, count as u64);
    append_str(&mut label, ") ");
    if f == app.active_filter {
        push_span(line, "▶", Style { fg: Some(Color::Cyan), bg: Some(Color::Cyan), bold: false, dim: false, italic: false });
        push_owned(line, label, highlight_style());
    } else {
        push_owned(line, label, dim_style());
    }
    push_span(line, " ", plain_style());
    proof {
        assert(line_view(line@) =~= before + tab_view(*app, f));
    }
}

pub fn filter_tabs_line(app: &App) -> (r: Vec<Span>)
    ensures
        line_view(r@) == tabs_view(*app),
{
    let mut line: Vec<Span> = Vec::new();
    push_span(&mut line, " ", plain_style());
    push_tab(&mut line, app, Filter::Active);
    push_tab(&mut line, app, Filter::Ready);
    push_tab(&mut line, app, Filter::Removed);
    push_tab(&mut line, app, Filter::Queued);
    line
}

/// The width in cells of a run of spans; every character of the tab bar
/// takes one cell.
pub open spec fn spans_width(l: Seq<(Seq<char>, Style)>) -> nat
    decreases l.len(),
{
    if l.len() == 0 {
        0
    } else {
        spans_width(l.drop_last()) + l.last().0.len()
    }
}

/// The cell, from the start of the tab bar, at which tab `i` starts: after
/// the leading space and the tabs before it.
pub open spec fn tab_offset(app: App, i: int) -> nat
    decreases i,
{
    if i <= 0 {
        1
    } else {
        tab_offset(app, i - 1) + spans_width(tab_view(app, filter_at(i - 1)->0))
    }
}

/// The smaller of two numbers.
pub open spec fn clip(a: nat, b: nat) -> nat {
    if a <= b {
        a
    } else {
        b
    }
}

/// Where tab `i` lies in a tab bar drawn at `area`: the cells of its marker
/// and label (not the space after them), on the first row, cut to the area.
pub open spec fn tab_rect(app: App, area: Rect, i: int) -> Rect {
    let x0 = clip(tab_offset(app, i), area.width as nat);
    let w = clip(
        (spans_width(tab_view(app, filter_at(i)->0)) - 1) as nat,
        (area.width - x0) as nat,
    );
    Rect {
        x: (area.x + x0) as u16,
        y: area.y,
        width: w as u16,
        height: clip(1, area.height as nat) as u16,
    }
}

/// The width of a run of spans, capped at 65536 cells.
fn spans_width_capped(line: &Vec<Span>) -> (w: usize)
    ensures
        w == clip(spans_width(line_view(line@)), 65536),
{
    let ghost l = line_view(line@);
    let mut acc: usize = 0;
    let mut k: usize = 0;
    while k < line.len()
        invariant
            k <= line@.len(),
            l == line_view(line@),
            acc == clip(spans_width(l.take(k as int)), 65536),
        decreases line.len() - k,
    {
        let n = line[k].text.as_str().unicode_len();
        proof {
            assert(l.take(k + 1).drop_last() =~= l.take(k as int));
            assert(l.take(k + 1).last() == l[k as int]);
        }
        acc = if n >= 65536 || acc + n >= 65536 {
            65536
        } else {
            acc + n
        };
        k = k + 1;
    }
    proof {
        assert(l.take(k as int) =~= l);
    }
    acc
}

/// Where each filter tab lies in a tab bar drawn at `area`, in tab order,
/// for the clicks that select a filter.
pub fn filter_tab_rects(app: &App, area: Rect) -> (r: Vec<Rect>)
    requires
        area.fits(),
    ensures
        r@.len() == 4,
        forall|i: int| 0 <= i < 4 ==> #[trigger] r@[i] == tab_rect(*app, area, i),
        forall|i: int| 0 <= i < 4 ==> (#[trigger] r@[i]).fits(),
{
    let filters = Filter::all();
    let mut rects: Vec<Rect> = Vec::new();
    let mut off: usize = 1;
    let mut i: usize = 0;
    while i < 4
        invariant
            i <= 4,
            area.fits(),
            filters@.len() == 4,
            forall|j: int| 0 <= j < 4 ==> filter_at(j) == Some(#[trigger] filters@[j]),
            off == clip(tab_offset(*app, i as int), 65536),
            rects@.len() == i,
            forall|j: int| 0 <= j < i ==> #[trigger] rects@[j] == tab_rect(*app, area, j),
            forall|j: int| 0 <= j < i ==> (#[trigger] rects@[j]).fits(),
        decreases 4 - i,
    {
        let f = filters[i];
        let mut line: Vec<Span> = Vec::new();
        proof {
            assert(line_view(line@) =~= Seq::<(Seq<char>, Style)>::empty());
        }
        push_tab(&mut line, app, f);
        proof {
            assert(line_view(line@) =~= tab_view(*app, f));
            reveal_strlit(" ");
            let t = tab_view(*app, f);
            assert(t.last() == (" "@, plain()));
            assert(spans_width(t) >= 1);
        }
        let w = spans_width_capped(&line);
        let aw = area.width as usize;
        let x0: usize = if off <= aw {
            off
        } else {
            aw
        };
        let tw: usize = w - 1;
        let ww: usize = if tw <= aw - x0 {
            tw
        } else {
            aw - x0
        };
        let h: u16 = if area.height >= 1 {
            1
        } else {
            0
        };
        let rect = Rect { x: area.x + x0 as u16, y: area.y, width: ww as u16, height: h };
        proof {
            assert(rect == tab_rect(*app, area, i as int));
        }
        rects.push(rect);
        off = if off + w >= 65536 {
            65536
        } else {
            off + w
        };
        i = i + 1;
    }
    rects
}

// ---------------------------------------------------------------------------
// PR list
// ---------------------------------------------------------------------------

/// `n` spaces.
pub open spec fn spaces(n: nat) -> Seq<char> {
    Seq::new(n, |i: int| ' ')
}

/// The text padded with spaces on the right to at least `w` characters.
pub open spec fn pad_right(s: Seq<char>, w: nat) -> Seq<char> {
    if s.len() >= w {
        s
    } else {
        s + spaces((w - s.len()) as nat)
    }
}

/// The colour and short hint of a status in the list.
pub open spec fn status_hint(s: PrStatus) -> (Color, Seq<char>) {
    match s {
        PrStatus::ReadyToMerge => (Color::Green, "ready "@),
        PrStatus::FailedMerge => (Color::Red, "failed"@),
        PrStatus::InQueue => (Color::Yellow, "queue "@),
    }
}

/// The checks cell of a list row: the rollup symbol in its colour, or a
/// dimmed dash without checks.
pub open spec fn rollup_cell(r: Option<CheckRollupState>) -> (Seq<char>, Style) {
    match r {
        Some(r) => (r.symbol_spec(), fg(r.color_spec())),
        None => ("—"@, dimmed()),
    }
}

/// Dimmed italic text.
pub open spec fn dim_italic() -> Style {
    Style { dim: true, italic: true, ..plain() }
}

/// One row of the PR list: status dot, number, status hint, checks, draft
/// marker, title and author.
pub open spec fn list_item_view(pr: PullRequest) -> Seq<(Seq<char>, Style)> {
    let (dot, hint) = status_hint(pr.status);
    seq![
        (" "@, plain()),
        ("●"@, fg(dot)),
        (" #"@ + pad_right(decimal(pr.number as nat), 5), dimmed()),
        (" "@ + hint + " "@, fg(dot)),
        rollup_cell(pr.check_rollup),
        ("  "@, plain()),
        if pr.is_draft {
            (" draft"@, dim_italic())
        } else {
            (""@, plain())
        },
        (pr.title@, plain()),
        ("  @"@ + pr.author@, dimmed()),
    ]
}

/// Appends spaces until the text has at least `w` characters.
fn pad_to(s: &mut String, w: usize)
    ensures
        final(s)@ == pad_right(old(s)@, w as nat),
{
    let ghost body = s@;
    let mut n = s.as_str().unicode_len();
    proof {
        assert(s@ =~= body + spaces(0));
    }
    while n < w
        invariant
            n == s@.len(),
            s@.len() >= body.len(),
            body.len() >= w ==> n == body.len(),
            body.len() < w ==> n <= w,
            s@ == body + spaces((s@.len() - body.len()) as nat),
        decreases w - n,
    {
        push_char(s, ' ');
        n = n + 1;
        proof {
            assert(s@ =~= body + spaces((s@.len() - body.len()) as nat));
        }
    }
    proof {
        if body.len() >= w {
            assert(s@ =~= body);
        } else {
            assert(s@ =~= body + spaces((w - body.len()) as nat));
        }
    }
}

fn status_hint_exec(s: &PrStatus) -> (r: (Color, &'static str))
    ensures
        r.0 == status_hint(*s).0,
        r.1@ == status_hint(*s).1,
{
    match s {
        PrStatus::ReadyToMerge => (Color::Green, "ready "),
        PrStatus::FailedMerge => (Color::Red, "failed"),
        PrStatus::InQueue => (Color::Yellow, "queue "),
    }
}

pub fn list_item(pr: &PullRequest) -> (r: Vec<Span>)
    ensures
        line_view(r@) == list_item_view(*pr),
{
    let (dot, hint) = status_hint_exec(&pr.status);
    let mut line: Vec<Span> = Vec::new();
    push_span(&mut line, " ", plain_style());
    push_span(&mut line, "●", fg_style(dot));
    let mut digits = decimal_string(pr.number);
    pad_to(&mut digits, 5);
    let mut number = String::new();
    append_str(&mut number, " #");
    append_str(&mut number, digits.as_str());
    push_owned(&mut line, number, dim_style());
    let mut hint_text = String::new();
    append_str(&mut hint_text, " ");
    append_str(&mut hint_text, hint);
    append_str(&mut hint_text, " ");
    push_owned(&mut line, hint_text, fg_style(dot));
    match &pr.check_rollup {
        Some(r) => push_span(&mut line, r.symbol(), fg_style(r.color())),
        None => push_span(&mut line, "—", dim_style()),
    }
    push_span(&mut line, "  ", plain_style());
    if pr.is_draft {
        push_span(&mut line, " draft", Style { fg: None, bg: None, bold: false, dim: true, italic: true });
    } else {
        push_span(&mut line, "", plain_style());
    }
    push_span(&mut line, pr.title.as_str(), plain_style());
    let mut author = String::new();
    append_str(&mut author, "  @");
    append_str(&mut author, pr.author.as_str());
    push_owned(&mut line, author, dim_style());
    proof {
        assert(line_view(line@) =~= list_item_view(*pr));
    }
    line
}

/// The rows of the PR list: one per visible PR, in view order.
pub fn list_items(app: &App) -> (r: Vec<Vec<Span>>)
    ensures
        r@.len() == app.visible().len(),
        forall|k: int|
            0 <= k < r@.len() ==> line_view((#[trigger] r@[k])@) == list_item_view(
                app.prs@[app.visible()[k] as int],
            ),
{
    let visible = app.visible_prs();
    let mut items: Vec<Vec<Span>> = Vec::new();
    let mut k: usize = 0;
    while k < visible.len()
        invariant
            k <= visible@.len(),
            visible@.len() == app.visible().len(),
            forall|j: int| 0 <= j < visible@.len() ==> *(#[trigger] visible@[j]) == app.prs@[app.visible()[j] as int],
            items@.len() == k,
            forall|j: int|
                0 <= j < k ==> line_view((#[trigger] items@[j])@) == list_item_view(
                    app.prs@[app.visible()[j] as int],
                ),
        decreases visible.len() - k,
    {
        items.push(list_item(visible[k]));
        k = k + 1;
    }
    items
}

} // verus!

verus! {

// ---------------------------------------------------------------------------
// Panels
// ---------------------------------------------------------------------------

/// A bordered panel: its title, the colour of its border and its lines.
pub struct Panel {
    pub title: Vec<Span>,
    pub border: Color,
    pub lines: Vec<Vec<Span>>,
}

/// The texts and styles of several lines.
pub open spec fn lines_view(ls: Seq<Vec<Span>>) -> Seq<Seq<(Seq<char>, Style)>> {
    ls.map_values(|l: Vec<Span>| line_view(l@))
}

pub(crate) fn push_line(lines: &mut Vec<Vec<Span>>, line: Vec<Span>)
    ensures
        lines_view(final(lines)@) == lines_view(old(lines)@).push(line_view(line@)),
{
    let ghost before = lines@;
    let ghost l = line@;
    lines.push(line);
    proof {
        assert(lines_view(lines@) =~= lines_view(before).push(line_view(l)));
    }
}

/// A line of one span.
pub(crate) fn single(text: &str, style: Style) -> (r: Vec<Span>)
    ensures
        line_view(r@) == seq![(text@, style)],
{
    let mut l: Vec<Span> = Vec::new();
    push_span(&mut l, text, style);
    proof {
        assert(line_view(l@) =~= seq![(text@, style)]);
    }
    l
}

pub(crate) fn empty_line() -> (r: Vec<Span>)
    ensures
        line_view(r@) == Seq::<(Seq<char>, Style)>::empty(),
{
    let l: Vec<Span> = Vec::new();
    proof {
        assert(line_view(l@) =~= Seq::<(Seq<char>, Style)>::empty());
    }
    l
}

// ---------------------------------------------------------------------------
// Detail panel
// ---------------------------------------------------------------------------

/// The long text and colour of a status in the detail panel.
pub open spec fn status_detail(s: PrStatus) -> (Seq<char>, Color) {
    match s {
        PrStatus::ReadyToMerge => ("Ready to merge"@, Color::Green),
        PrStatus::FailedMerge => ("Failed to merge"@, Color::Red),
        PrStatus::InQueue => ("In merge queue"@, Color::Yellow),
    }
}

/// A labelled row of the detail panel.
pub open spec fn row_view(label: Seq<char>, value: Seq<(Seq<char>, Style)>) -> Seq<(Seq<char>, Style)> {
    seq![(label, dimmed()), ("│"@, fg(Color::DarkGray)), ("  "@, plain())] + value
}

/// The checks cell: symbol and label in the rollup's colour, dimmed when
/// there are no checks.
pub open spec fn checks_view(r: Option<CheckRollupState>) -> (Seq<char>, Style) {
    match r {
        Some(r) => (r.symbol_spec() + "  "@ + r.label_spec(), fg(r.color_spec())),
        None => ("—"@ + "  "@ + "no checks"@, dimmed()),
    }
}

/// The words and colour of a merge queue state.
pub open spec fn queue_state_view(s: MergeQueueState) -> (Seq<char>, Color) {
    match s {
        MergeQueueState::Queued => ("queued"@, Color::Yellow),
        MergeQueueState::Awaiting => ("awaiting checks"@, Color::Yellow),
        MergeQueueState::Mergeable => ("mergeable"@, Color::Green),
        MergeQueueState::Unmergeable => ("unmergeable"@, Color::Red),
        MergeQueueState::Locked => ("locked"@, Color::Yellow),
    }
}

/// The colour of a removal reason.
pub open spec fn removal_color(r: QueueRemovalReason) -> Color {
    match r {
        QueueRemovalReason::FailedChecks => Color::Red,
        QueueRemovalReason::MergeConflict => Color::Red,
        QueueRemovalReason::RejectedByRule => Color::Yellow,
        QueueRemovalReason::Other => Color::Reset,
    }
}

/// The whole seconds from an instant to `now`, never negative: for plain
/// instants the difference truncated toward zero; otherwise what chrono
/// gives, and 0 where chrono cannot place one of the instants.
pub open spec fn elapsed_secs(at: Timestamp, now: Timestamp) -> nat {
    let a = (at.secs, at.nanos);
    let b = (now.secs, now.nanos);
    if plain_instant(a) && plain_instant(b) {
        if whole_seconds_between(a, b) > 0 {
            whole_seconds_between(a, b) as nat
        } else {
            0
        }
    } else {
        match chrono_seconds_between(a, b) {
            Some(s) => if s > 0 {
                s as nat
            } else {
                0
            },
            None => 0,
        }
    }
}

/// The bytes of a URL kept before the ellipsis in a panel `width` cells
/// wide, or `None` when the URL fits.
pub open spec fn url_cut(url: Seq<char>, width: u16) -> Option<int> {
    let url_max = if width >= 14 { width - 14 } else { 0 };
    if (vstd::utf8::encode_utf8(url).len() as usize) > url_max {
        Some(if url_max >= 1 { url_max - 1 } else { 0 })
    } else {
        None
    }
}

/// The URL as shown: cut to fit, with an ellipsis, where it is too long.
pub open spec fn url_display(url: Seq<char>, width: u16) -> Seq<char> {
    match url_cut(url, width) {
        Some(k) => vstd::utf8::decode_utf8(vstd::utf8::encode_utf8(url).subrange(0, k)) + "…"@,
        None => url,
    }
}

/// The title of the detail panel for a PR.
pub open spec fn detail_title_view(pr: PullRequest) -> Seq<(Seq<char>, Style)> {
    let (_, c) = status_detail(pr.status);
    seq![
        (" "@, plain()),
        ("●"@, fg(c)),
        (" PR #"@ + decimal(pr.number as nat), bolded()),
        if pr.is_draft {
            ("  draft"@, dim_italic())
        } else {
            (""@, plain())
        },
        (" "@, plain()),
    ]
}

/// An action hint: key and description highlighted when the action
/// applies, dimmed otherwise.
pub open spec fn hint_views(active: bool, key: Seq<char>, desc: Seq<char>) -> Seq<(Seq<char>, Style)> {
    if active {
        seq![key_view(key), (desc, plain())]
    } else {
        seq![(key, dimmed()), (desc, dimmed())]
    }
}

/// The first rows of the detail panel: a blank line, title, author,
/// status and checks.
pub open spec fn detail_head_view(pr: PullRequest) -> Seq<Seq<(Seq<char>, Style)>> {
    let (text, c) = status_detail(pr.status);
    seq![
        Seq::empty(),
        row_view("  Title   "@, seq![(pr.title@, bolded())]),
        row_view("  Author  "@, seq![("@"@ + pr.author@, fg(Color::Cyan))]),
        row_view("  Status  "@, seq![("●  "@, fg(c)), (text, fg_bold(c))]),
        row_view("  Checks  "@, seq![checks_view(pr.check_rollup)]),
    ]
}

/// The review row, when the PR has a review decision.
pub open spec fn detail_review_view(pr: PullRequest) -> Seq<Seq<(Seq<char>, Style)>> {
    match pr.review_decision {
        Some(r) => seq![
            row_view(
                "  Review  "@,
                seq![(r.symbol_spec() + "  "@ + r.label_spec(), fg(r.color_spec()))],
            ),
        ],
        None => Seq::empty(),
    }
}

/// The queue row, when the PR is in the merge queue.
pub open spec fn detail_queue_view(pr: PullRequest) -> Seq<Seq<(Seq<char>, Style)>> {
    match pr.merge_queue {
        Some(e) => seq![
            row_view(
                "  Queue   "@,
                seq![
                    ("position "@ + decimal(e.position as nat) + "  "@, plain()),
                    (queue_state_view(e.state).0, fg(queue_state_view(e.state).1)),
                ],
            ),
        ],
        None => Seq::empty(),
    }
}

/// The URL row.
pub open spec fn detail_url_view(pr: PullRequest, width: u16) -> Seq<Seq<(Seq<char>, Style)>> {
    seq![row_view("  URL     "@, seq![(url_display(pr.html_url@, width), dimmed())])]
}

/// The removal row, when the PR was removed from the queue.
pub open spec fn detail_removal_view(pr: PullRequest, now: Timestamp) -> Seq<
    Seq<(Seq<char>, Style)>,
> {
    match pr.last_queue_removal {
        Some(r) => seq![
            row_view(
                "  Removed "@,
                seq![
                    ("✗  "@, fg(removal_color(r.reason))),
                    (r.reason.label_spec(), fg(removal_color(r.reason))),
                    ("  "@ + ago_text(elapsed_secs(r.at, now)), dimmed()),
                ],
            ),
        ],
        None => Seq::empty(),
    }
}

/// The separator and the action hints: adding to the queue applies to a PR
/// that is not in it; opening in the browser always applies.
pub open spec fn detail_tail_view(pr: PullRequest) -> Seq<Seq<(Seq<char>, Style)>> {
    seq![
        Seq::empty(),
        seq![("  ─────────────────────────────────────────────────────"@, fg(Color::DarkGray))],
        Seq::empty(),
        seq![("  "@, plain())] + hint_views(pr.merge_queue is None, "r"@, "  Add to queue"@)
            + seq![("    "@, plain()), key_view("o"@), ("  Open in browser"@, plain())],
    ]
}

/// The lines of the detail panel for a PR: title, author, status, checks,
/// review decision and queue entry when present, URL, last removal when
/// present, and the action hints.
pub open spec fn detail_lines_view(pr: PullRequest, width: u16, now: Timestamp) -> Seq<
    Seq<(Seq<char>, Style)>,
> {
    detail_head_view(pr) + detail_review_view(pr) + detail_queue_view(pr) + detail_url_view(
        pr,
        width,
    ) + detail_removal_view(pr, now) + detail_tail_view(pr)
}

/// The URL of a PR cuts at a character boundary where it has to be cut.
pub open spec fn url_cut_ok(url: Seq<char>, width: u16) -> bool {
    match url_cut(url, width) {
        Some(k) => vstd::utf8::is_char_boundary(vstd::utf8::encode_utf8(url), k),
        None => true,
    }
}

} // verus!

verus! {

fn url_text(url: &str, width: u16) -> (r: String)
    requires
        url_cut_ok(url@, width),
    ensures
        r@ == url_display(url@, width),
{
    let url_max: usize = if width >= 14 { (width - 14) as usize } else { 0 };
    if url.len() > url_max {
        let cut = if url_max >= 1 { url_max - 1 } else { 0 };
        let (head, _) = url.split_at(cut);
        proof {
            vstd::utf8::encode_utf8_decode_utf8(head@);
        }
        let mut s = String::new();
        append_str(&mut s, head);
        append_str(&mut s, "…");
        proof {
            assert(s@ =~= url_display(url@, width));
        }
        s
    } else {
        url.to_string()
    }
}

fn row(label: &str, value: Vec<Span>) -> (r: Vec<Span>)
    ensures
        line_view(r@) == row_view(label@, line_view(value@)),
{
    let mut l: Vec<Span> = Vec::new();
    push_span(&mut l, label, dim_style());
    push_span(&mut l, "│", fg_style(Color::DarkGray));
    push_span(&mut l, "  ", plain_style());
    let mut k: usize = 0;
    let ghost start = line_view(l@);
    proof {
        assert(start + line_view(value@).take(0) =~= start);
    }
    while k < value.len()
        invariant
            k <= value@.len(),
            line_view(l@) == start + line_view(value@).take(k as int),
        decreases value.len() - k,
    {
        let sp = &value[k];
        push_span(&mut l, sp.text.as_str(), sp.style);
        k = k + 1;
        proof {
            assert(line_view(l@) =~= start + line_view(value@).take(k as int));
        }
    }
    proof {
        assert(line_view(value@).take(value@.len() as int) =~= line_view(value@));
        assert(start =~= seq![("  Title   "@, dimmed())].take(0) + seq![(label@, dimmed()), ("│"@, fg(Color::DarkGray)), ("  "@, plain())]);
    }
    l
}

fn status_detail_exec(s: &PrStatus) -> (r: (&'static str, Color))
    ensures
        r.0@ == status_detail(*s).0,
        r.1 == status_detail(*s).1,
{
    match s {
        PrStatus::ReadyToMerge => ("Ready to merge", Color::Green),
        PrStatus::FailedMerge => ("Failed to merge", Color::Red),
        PrStatus::InQueue => ("In merge queue", Color::Yellow),
    }
}

fn queue_state_exec(s: &MergeQueueState) -> (r: (&'static str, Color))
    ensures
        r.0@ == queue_state_view(*s).0,
        r.1 == queue_state_view(*s).1,
{
    match s {
        MergeQueueState::Queued => ("queued", Color::Yellow),
        MergeQueueState::Awaiting => ("awaiting checks", Color::Yellow),
        MergeQueueState::Mergeable => ("mergeable", Color::Green),
        MergeQueueState::Unmergeable => ("unmergeable", Color::Red),
        MergeQueueState::Locked => ("locked", Color::Yellow),
    }
}

fn removal_color_exec(r: &QueueRemovalReason) -> (c: Color)
    ensures
        c == removal_color(*r),
{
    match r {
        QueueRemovalReason::FailedChecks => Color::Red,
        QueueRemovalReason::MergeConflict => Color::Red,
        QueueRemovalReason::RejectedByRule => Color::Yellow,
        QueueRemovalReason::Other => Color::Reset,
    }
}

fn elapsed(at: Timestamp, now: Timestamp) -> (r: u64)
    ensures
        r == elapsed_secs(at, now),
{
    match seconds_between((at.secs, at.nanos), (now.secs, now.nanos)) {
        Some(s) => if s > 0 {
            s as u64
        } else {
            0
        },
        None => 0,
    }
}

fn push_hint(line: &mut Vec<Span>, active: bool, key: &str, desc: &str)
    ensures
        line_view(final(line)@) == line_view(old(line)@) + hint_views(active, key@, desc@),
{
    let ghost before = line_view(line@);
    if active {
        push_span(line, key, fg_bold_style(Color::Cyan));
        push_span(line, desc, plain_style());
    } else {
        push_span(line, key, dim_style());
        push_span(line, desc, dim_style());
    }
    proof {
        assert(line_view(line@) =~= before + hint_views(active, key@, desc@));
    }
}

fn detail_title(pr: &PullRequest) -> (r: Vec<Span>)
    ensures
        line_view(r@) == detail_title_view(*pr),
{
    let (_, c) = status_detail_exec(&pr.status);
    let mut title: Vec<Span> = Vec::new();
    push_span(&mut title, " ", plain_style());
    push_span(&mut title, "●", fg_style(c));
    let mut num = String::new();
    append_str(&mut num, " PR #");
    append_decimal(&mut num, pr.number);
    push_owned(&mut title, num, bold_style());
    if pr.is_draft {
        push_span(&mut title, "  draft", Style { fg: None, bg: None, bold: false, dim: true, italic: true });
    } else {
        push_span(&mut title, "", plain_style());
    }
    push_span(&mut title, " ", plain_style());
    proof {
        assert(line_view(title@) =~= detail_title_view(*pr));
    }
    title
}

pub(crate) fn extend_lines(lines: &mut Vec<Vec<Span>>, more: Vec<Vec<Span>>)
    ensures
        lines_view(final(lines)@) == lines_view(old(lines)@) + lines_view(more@),
{
    let ghost before = lines@;
    let ghost m = more@;
    let mut more = more;
    lines.append(&mut more);
    proof {
        assert(lines_view(lines@) =~= lines_view(before) + lines_view(m));
    }
}

fn detail_head(pr: &PullRequest) -> (r: Vec<Vec<Span>>)
    ensures
        lines_view(r@) == detail_head_view(*pr),
{
    let (text, c) = status_detail_exec(&pr.status);
    let mut lines: Vec<Vec<Span>> = Vec::new();
    push_line(&mut lines, empty_line());
    push_line(&mut lines, row("  Title   ", single(pr.title.as_str(), bold_style())));
    let mut author = String::new();
    append_str(&mut author, "@");
    append_str(&mut author, pr.author.as_str());
    let mut v: Vec<Span> = Vec::new();
    push_owned(&mut v, author, fg_style(Color::Cyan));
    push_line(&mut lines, row("  Author  ", v));
    let mut v: Vec<Span> = Vec::new();
    push_span(&mut v, "●  ", fg_style(c));
    push_span(&mut v, text, fg_bold_style(c));
    push_line(&mut lines, row("  Status  ", v));
    let mut checks = String::new();
    let checks_style = match &pr.check_rollup {
        Some(r) => {
            append_str(&mut checks, r.symbol());
            append_str(&mut checks, "  ");
            append_str(&mut checks, r.label());
            fg_style(r.color())
        },
        None => {
            append_str(&mut checks, "—");
            append_str(&mut checks, "  ");
            append_str(&mut checks, "no checks");
            dim_style()
        },
    };
    let mut v: Vec<Span> = Vec::new();
    push_owned(&mut v, checks, checks_style);
    push_line(&mut lines, row("  Checks  ", v));
    proof {
        assert(lines_view(lines@) =~~= detail_head_view(*pr));
    }
    lines
}

fn detail_review(pr: &PullRequest) -> (r: Vec<Vec<Span>>)
    ensures
        lines_view(r@) == detail_review_view(*pr),
{
    let mut lines: Vec<Vec<Span>> = Vec::new();
    if let Some(review) = &pr.review_decision {
        let mut t = String::new();
        append_str(&mut t, review.symbol());
        append_str(&mut t, "  ");
        append_str(&mut t, review.label());
        let mut v: Vec<Span> = Vec::new();
        push_owned(&mut v, t, fg_style(review.color()));
        push_line(&mut lines, row("  Review  ", v));
    }
    proof {
        assert(lines_view(lines@) =~~= detail_review_view(*pr));
    }
    lines
}

fn detail_queue(pr: &PullRequest) -> (r: Vec<Vec<Span>>)
    ensures
        lines_view(r@) == detail_queue_view(*pr),
{
    let mut lines: Vec<Vec<Span>> = Vec::new();
    if let Some(entry) = &pr.merge_queue {
        let (state_label, state_color) = queue_state_exec(&entry.state);
        let mut t = String::new();
        append_str(&mut t, "position ");
        append_decimal(&mut t, entry.position as u64);
        append_str(&mut t, "  ");
        let mut v: Vec<Span> = Vec::new();
        push_owned(&mut v, t, plain_style());
        push_span(&mut v, state_label, fg_style(state_color));
        push_line(&mut lines, row("  Queue   ", v));
    }
    proof {
        assert(lines_view(lines@) =~~= detail_queue_view(*pr));
    }
    lines
}

fn detail_url(pr: &PullRequest, width: u16) -> (r: Vec<Vec<Span>>)
    requires
        url_cut_ok(pr.html_url@, width),
    ensures
        lines_view(r@) == detail_url_view(*pr, width),
{
    let mut lines: Vec<Vec<Span>> = Vec::new();
    let mut v: Vec<Span> = Vec::new();
    push_owned(&mut v, url_text(pr.html_url.as_str(), width), dim_style());
    push_line(&mut lines, row("  URL     ", v));
    proof {
        assert(lines_view(lines@) =~~= detail_url_view(*pr, width));
    }
    lines
}

fn detail_removal(pr: &PullRequest, now: Timestamp) -> (r: Vec<Vec<Span>>)
    ensures
        lines_view(r@) == detail_removal_view(*pr, now),
{
    let mut lines: Vec<Vec<Span>> = Vec::new();
    if let Some(removal) = &pr.last_queue_removal {
        let rc = removal_color_exec(&removal.reason);
        let mut ago = String::new();
        append_str(&mut ago, "  ");
        let t = format_ago(elapsed(removal.at, now));
        append_str(&mut ago, t.as_str());
        let mut v: Vec<Span> = Vec::new();
        push_span(&mut v, "✗  ", fg_style(rc));
        push_span(&mut v, removal.reason.label(), fg_style(rc));
        push_owned(&mut v, ago, dim_style());
        push_line(&mut lines, row("  Removed ", v));
    }
    proof {
        assert(lines_view(lines@) =~~= detail_removal_view(*pr, now));
    }
    lines
}

fn detail_tail(pr: &PullRequest) -> (r: Vec<Vec<Span>>)
    ensures
        lines_view(r@) == detail_tail_view(*pr),
{
    let mut lines: Vec<Vec<Span>> = Vec::new();
    push_line(&mut lines, empty_line());
    push_line(
        &mut lines,
        single("  ─────────────────────────────────────────────────────", fg_style(Color::DarkGray)),
    );
    push_line(&mut lines, empty_line());
    let mut actions: Vec<Span> = Vec::new();
    push_span(&mut actions, "  ", plain_style());
    push_hint(&mut actions, pr.merge_queue.is_none(), "r", "  Add to queue");
    push_span(&mut actions, "    ", plain_style());
    push_span(&mut actions, "o", fg_bold_style(Color::Cyan));
    push_span(&mut actions, "  Open in browser", plain_style());
    push_line(&mut lines, actions);
    proof {
        assert(lines_view(lines@) =~~= detail_tail_view(*pr));
    }
    lines
}

fn detail_lines(pr: &PullRequest, width: u16, now: Timestamp) -> (r: Vec<Vec<Span>>)
    requires
        url_cut_ok(pr.html_url@, width),
    ensures
        lines_view(r@) == detail_lines_view(*pr, width, now),
{
    let mut lines = detail_head(pr);
    extend_lines(&mut lines, detail_review(pr));
    extend_lines(&mut lines, detail_queue(pr));
    extend_lines(&mut lines, detail_url(pr, width));
    extend_lines(&mut lines, detail_removal(pr, now));
    extend_lines(&mut lines, detail_tail(pr));
    lines
}

/// The title, border colour and lines of the detail panel for the selected
/// PR, `width` cells wide, at time `now`.
pub fn pr_detail_panel(app: &App, width: u16, now: Timestamp) -> (r: Panel)
    requires
        match app.selected_index() {
            Some(i) => url_cut_ok(app.prs@[i as int].html_url@, width),
            None => true,
        },
    ensures
        match app.selected_index() {
            None => {
                &&& line_view(r.title@) == seq![(" "@, plain()), ("PR Detail"@, dimmed()), (" "@, plain())]
                &&& r.border == Color::DarkGray
                &&& lines_view(r.lines@) == seq![seq![("  "@, plain()), ("No PR selected"@, dimmed())]]
            },
            Some(i) => {
                let pr = app.prs@[i as int];
                &&& line_view(r.title@) == detail_title_view(pr)
                &&& r.border == status_detail(pr.status).1
                &&& lines_view(r.lines@) == detail_lines_view(pr, width, now)
            },
        },
{
    match app.selected_pr() {
        None => {
            let mut title: Vec<Span> = Vec::new();
            push_span(&mut title, " ", plain_style());
            push_span(&mut title, "PR Detail", dim_style());
            push_span(&mut title, " ", plain_style());
            let mut line: Vec<Span> = Vec::new();
            push_span(&mut line, "  ", plain_style());
            push_span(&mut line, "No PR selected", dim_style());
            let mut lines: Vec<Vec<Span>> = Vec::new();
            push_line(&mut lines, line);
            proof {
                assert(line_view(title@) =~= seq![(" "@, plain()), ("PR Detail"@, dimmed()), (" "@, plain())]);
                assert(lines_view(lines@) =~~= seq![seq![("  "@, plain()), ("No PR selected"@, dimmed())]]);
            }
            Panel { title, border: Color::DarkGray, lines }
        },
        Some(pr) => {
            let (_, c) = status_detail_exec(&pr.status);
            Panel { title: detail_title(pr), border: c, lines: detail_lines(pr, width, now) }
        },
    }
}

} // verus!

verus! {

// ---------------------------------------------------------------------------
// PR list body
// ---------------------------------------------------------------------------

/// What the PR list panel shows inside its frame.
pub enum ListBody {
    /// PRs are loading: the label of the progress gauge.
    Loading(String),
    /// Loading failed: the text shown in red.
    Failed(String),
    /// The active filter keeps no PR: the line shown under the tab bar.
    Empty(Vec<Span>),
    /// One row per visible PR, under the tab bar.
    Rows(Vec<Vec<Span>>),
}

/// The label of the loading gauge: the count of PRs loaded out of the
/// total, once the total is known.
pub open spec fn loading_label(progress: Option<(usize, usize)>) -> Seq<char> {
    let (loaded, total) = match progress {
        Some(p) => p,
        None => (0usize, 0usize),
    };
    if total > 0 {
        "  Loading… "@ + decimal(loaded as nat) + " / "@ + decimal(total as nat) + " PRs"@
    } else {
        "  Loading…"@
    }
}

/// The label of a filter in lower case.
pub open spec fn lower_label(f: Filter) -> Seq<char> {
    match f {
        Filter::Active => "active"@,
        Filter::Ready => "ready"@,
        Filter::Removed => "removed"@,
        Filter::Queued => "queued"@,
    }
}

fn lower_label_exec(f: &Filter) -> (r: &'static str)
    ensures
        r@ == lower_label(*f),
{
    match f {
        Filter::Active => "active",
        Filter::Ready => "ready",
        Filter::Removed => "removed",
        Filter::Queued => "queued",
    }
}

/// The text shown when loading failed.
pub open spec fn load_error_text(msg: Seq<char>) -> Seq<char> {
    msg + "\n\nPress [R] to retry"@
}

/// The line shown when the active filter keeps no PR.
pub open spec fn empty_list_view(f: Filter) -> Seq<(Seq<char>, Style)> {
    seq![("  "@, plain()), ("No "@ + lower_label(f) + " PRs"@, dimmed())]
}

/// The body of the PR list panel: the gauge label while loading, the error
/// text after a failed load, else the rows of the visible PRs or, when
/// there are none, a line that says so.
pub fn pr_list_body(app: &App) -> (r: ListBody)
    ensures
        match app.load_state {
            LoadState::Loading => r matches ListBody::Loading(l) && l@ == loading_label(
                app.load_progress,
            ),
            LoadState::Error(m) => r matches ListBody::Failed(t) && t@ == load_error_text(m@),
            LoadState::Idle => if app.visible().len() == 0 {
                r matches ListBody::Empty(line) && line_view(line@) == empty_list_view(
                    app.active_filter,
                )
            } else {
                r matches ListBody::Rows(items) && items@.len() == app.visible().len() && forall|
                    k: int,
                |
                    0 <= k < items@.len() ==> line_view((#[trigger] items@[k])@)
                        == list_item_view(app.prs@[app.visible()[k] as int])
            },
        },
{
    match &app.load_state {
        LoadState::Loading => {
            let (loaded, total) = match app.load_progress {
                Some(p) => p,
                None => (0usize, 0usize),
            };
            let mut label = String::new();
            if total > 0 {
                append_str(&mut label, "  Loading… ");
                append_decimal(&mut label, loaded as u64);
                append_str(&mut label, " / ");
                append_decimal(&mut label, total as u64);
                append_str(&mut label, " PRs");
            } else {
                append_str(&mut label, "  Loading…");
            }
            proof {
                assert(label@ =~= loading_label(app.load_progress));
            }
            ListBody::Loading(label)
        },
        LoadState::Error(msg) => {
            let mut text = String::new();
            append_str(&mut text, msg.as_str());
            append_str(&mut text, "\n\nPress [R] to retry");
            proof {
                assert(text@ =~= load_error_text(msg@));
            }
            ListBody::Failed(text)
        },
        LoadState::Idle => {
            let items = list_items(app);
            if items.len() == 0 {
                let mut msg = String::new();
                append_str(&mut msg, "No ");
                append_str(&mut msg, lower_label_exec(&app.active_filter));
                append_str(&mut msg, " PRs");
                let mut line: Vec<Span> = Vec::new();
                push_span(&mut line, "  ", plain_style());
                push_owned(&mut line, msg, dim_style());
                proof {
                    assert(line_view(line@) =~= empty_list_view(app.active_filter));
                }
                ListBody::Empty(line)
            } else {
                ListBody::Rows(items)
            }
        },
    }
}

} // verus!

verus! {

// ---------------------------------------------------------------------------
// Laws of the status shown for a PR
// ---------------------------------------------------------------------------

/// The detail panel names a PR's status and colours it: "Ready to merge" in
/// green, "Failed to merge" in red, "In merge queue" in yellow, on the
/// status row, on the dot of the title and on the panel's border.
pub proof fn lemma_detail_status(pr: PullRequest, width: u16, now: Timestamp)
    ensures
        ({
            let row = detail_lines_view(pr, width, now)[3];
            let prefix = seq![
                ("  Status  "@, dimmed()),
                ("│"@, fg(Color::DarkGray)),
                ("  "@, plain()),
            ];
            &&& pr.status == PrStatus::ReadyToMerge ==> {
                &&& row == prefix + seq![
                    ("●  "@, fg(Color::Green)),
                    ("Ready to merge"@, fg_bold(Color::Green)),
                ]
                &&& status_detail(pr.status).1 == Color::Green
                &&& detail_title_view(pr)[1] == ("●"@, fg(Color::Green))
            }
            &&& pr.status == PrStatus::FailedMerge ==> {
                &&& row == prefix + seq![
                    ("●  "@, fg(Color::Red)),
                    ("Failed to merge"@, fg_bold(Color::Red)),
                ]
                &&& status_detail(pr.status).1 == Color::Red
                &&& detail_title_view(pr)[1] == ("●"@, fg(Color::Red))
            }
            &&& pr.status == PrStatus::InQueue ==> {
                &&& row == prefix + seq![
                    ("●  "@, fg(Color::Yellow)),
                    ("In merge queue"@, fg_bold(Color::Yellow)),
                ]
                &&& status_detail(pr.status).1 == Color::Yellow
                &&& detail_title_view(pr)[1] == ("●"@, fg(Color::Yellow))
            }
        }),
{
    let head = detail_head_view(pr);
    assert(head.len() == 5);
    let rest = detail_review_view(pr) + detail_queue_view(pr) + detail_url_view(pr, width)
        + detail_removal_view(pr, now) + detail_tail_view(pr);
    assert(detail_lines_view(pr, width, now) =~= head + rest);
    assert(detail_lines_view(pr, width, now)[3] == head[3]);
}

/// A row of the PR list shows the status as a coloured dot and a short
/// hint: "ready" in green, "failed" in red, "queue" in yellow.
pub proof fn lemma_list_row_status(pr: PullRequest)
    ensures
        ({
            let row = list_item_view(pr);
            &&& pr.status == PrStatus::ReadyToMerge ==> row[1] == ("●"@, fg(Color::Green)) && row[3]
                == (" "@ + "ready "@ + " "@, fg(Color::Green))
            &&& pr.status == PrStatus::FailedMerge ==> row[1] == ("●"@, fg(Color::Red)) && row[3]
                == (" "@ + "failed"@ + " "@, fg(Color::Red))
            &&& pr.status == PrStatus::InQueue ==> row[1] == ("●"@, fg(Color::Yellow)) && row[3]
                == (" "@ + "queue "@ + " "@, fg(Color::Yellow))
        }),
{
}

} // verus!
