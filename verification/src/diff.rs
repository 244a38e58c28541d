//! The diff panel: a summary of the changed files of the selected pull
//! request, then each file's header and patch, `project.bri` files first.
use vstd::prelude::*;
use crate::app::{App, DiffState};
use crate::models::{Color, FileDiff};
use crate::text::{
    append_decimal, append_str, decimal, lines_of, prefix_chars, split_lines, str_eq, string_views,
    truncate_left, truncate_str, truncated_left,
};
use crate::view::{
    bold_style, bolded, dim_style, dimmed, empty_line, extend_lines, fg, fg_bold, fg_bold_style,
    fg_style, highlight, highlight_style, line_view, lines_view, plain, plain_style, push_line,
    push_owned, push_span, single, Panel, Span, Style,
};

verus! {

// ---------------------------------------------------------------------------
// Files and their order
// ---------------------------------------------------------------------------

/// Whether a path names a `project.bri` file: the file itself or one in a
/// directory.
pub open spec fn is_project_file(name: Seq<char>) -> bool {
    name == "project.bri"@ || (name.len() >= 12 && name.subrange(
        name.len() - 12,
        name.len() as int,
    ) == "/project.bri"@)
}

/// Whether a file's path names a `project.bri` file exactly when `want`.
pub open spec fn project_is(want: bool) -> spec_fn(FileDiff) -> bool {
    |f: FileDiff| is_project_file(f.filename@) == want
}

/// The files in the order the panel shows them: `project.bri` files first,
/// each group in its original order.
pub open spec fn project_first(files: Seq<FileDiff>) -> Seq<FileDiff> {
    files.filter(project_is(true)) + files.filter(project_is(false))
}

fn is_project_path(name: &str) -> (r: bool)
    ensures
        r == is_project_file(name@),
{
    if str_eq(name, "project.bri") {
        return true;
    }
    let n = name.unicode_len();
    if n >= 12 {
        str_eq(name.substring_char(n - 12, n), "/project.bri")
    } else {
        false
    }
}

/// The lines added over all files.
pub open spec fn total_additions(fs: Seq<FileDiff>) -> nat
    decreases fs.len(),
{
    if fs.len() == 0 {
        0
    } else {
        total_additions(fs.drop_last()) + fs.last().additions as nat
    }
}

/// The lines deleted over all files.
pub open spec fn total_deletions(fs: Seq<FileDiff>) -> nat
    decreases fs.len(),
{
    if fs.len() == 0 {
        0
    } else {
        total_deletions(fs.drop_last()) + fs.last().deletions as nat
    }
}

proof fn lemma_totals_prefix(fs: Seq<FileDiff>, k: int)
    requires
        0 <= k <= fs.len(),
    ensures
        total_additions(fs.take(k)) <= total_additions(fs),
        total_deletions(fs.take(k)) <= total_deletions(fs),
    decreases fs.len(),
{
    if k < fs.len() {
        assert(fs.drop_last().take(k) =~= fs.take(k));
        lemma_totals_prefix(fs.drop_last(), k);
    } else {
        assert(fs.take(k) =~= fs);
    }
}

// ---------------------------------------------------------------------------
// Lines of a file
// ---------------------------------------------------------------------------

/// The style of a patch line: hunk headers cyan and dimmed, additions
/// green, deletions red, context dimmed.
pub open spec fn patch_style(d: Seq<char>) -> Style {
    if d.len() >= 2 && d[0] == '@' && d[1] == '@' {
        Style { fg: Some(Color::Cyan), dim: true, ..plain() }
    } else if d.len() >= 1 && d[0] == '+' {
        fg(Color::Green)
    } else if d.len() >= 1 && d[0] == '-' {
        fg(Color::Red)
    } else {
        dimmed()
    }
}

/// A patch line cut to one cell less than the panel is wide.
pub open spec fn patch_line_view(raw: Seq<char>, width: u16) -> Seq<(Seq<char>, Style)> {
    let max: nat = if width >= 1 {
        (width - 1) as nat
    } else {
        0
    };
    let d = prefix_chars(raw, max);
    seq![(d, patch_style(d))]
}

/// The header of a file: its status symbol, its path cut from the left to
/// fit, and its counts of added and deleted lines.
pub open spec fn file_header_view(file: FileDiff, width: u16) -> Seq<(Seq<char>, Style)> {
    let name_max: nat = if width >= 16 {
        (width - 16) as nat
    } else {
        0
    };
    seq![
        (" "@, plain()),
        (file.status.symbol_spec(), fg_bold(file.status.color_spec())),
        (" "@, plain()),
        (truncated_left(file.filename@, name_max), bolded()),
        ("  "@, plain()),
        ("+"@ + decimal(file.additions as nat), fg(Color::Green)),
        (" "@, plain()),
        ("-"@ + decimal(file.deletions as nat), fg(Color::Red)),
    ]
}

/// The lines of one file: a blank line, its header, then its patch line by
/// line, or a note that the file is binary when it has no patch.
pub open spec fn file_lines_view(file: FileDiff, width: u16) -> Seq<Seq<(Seq<char>, Style)>> {
    seq![Seq::empty(), file_header_view(file, width)] + match file.patch {
        Some(p) => lines_of(p@).map_values(|l: Seq<char>| patch_line_view(l, width)),
        None => seq![seq![("  binary"@, dimmed())]],
    }
}

/// The lines of several files, one after another.
pub open spec fn files_lines(fs: Seq<FileDiff>, width: u16) -> Seq<Seq<(Seq<char>, Style)>>
    decreases fs.len(),
{
    if fs.len() == 0 {
        Seq::empty()
    } else {
        files_lines(fs.drop_last(), width) + file_lines_view(fs.last(), width)
    }
}

proof fn lemma_files_lines_concat(a: Seq<FileDiff>, b: Seq<FileDiff>, width: u16)
    ensures
        files_lines(a + b, width) == files_lines(a, width) + files_lines(b, width),
    decreases b.len(),
{
    if b.len() == 0 {
        assert(a + b =~= a);
        assert(files_lines(a, width) + files_lines(b, width) =~= files_lines(a, width));
    } else {
        assert((a + b).drop_last() =~= a + b.drop_last());
        assert((a + b).last() == b.last());
        lemma_files_lines_concat(a, b.drop_last(), width);
        assert(files_lines(a + b, width) =~= files_lines(a, width) + files_lines(b, width));
    }
}

fn patch_line(raw: &str, width: u16) -> (r: Vec<Span>)
    ensures
        line_view(r@) == patch_line_view(raw@, width),
{
    let max: usize = if width >= 1 {
        (width - 1) as usize
    } else {
        0
    };
    let display = truncate_str(raw, max);
    let n = display.unicode_len();
    let style = if n >= 2 && display.get_char(0) == '@' && display.get_char(1) == '@' {
        Style { fg: Some(Color::Cyan), bg: None, bold: false, dim: true, italic: false }
    } else if n >= 1 && display.get_char(0) == '+' {
        fg_style(Color::Green)
    } else if n >= 1 && display.get_char(0) == '-' {
        fg_style(Color::Red)
    } else {
        dim_style()
    };
    single(display, style)
}

fn file_header(file: &FileDiff, width: u16) -> (r: Vec<Span>)
    ensures
        line_view(r@) == file_header_view(*file, width),
{
    let name_max: usize = if width >= 16 {
        (width - 16) as usize
    } else {
        0
    };
    let mut header: Vec<Span> = Vec::new();
    push_span(&mut header, " ", plain_style());
    push_span(&mut header, file.status.symbol(), fg_bold_style(file.status.color()));
    push_span(&mut header, " ", plain_style());
    push_owned(&mut header, truncate_left(file.filename.as_str(), name_max), bold_style());
    push_span(&mut header, "  ", plain_style());
    let mut added = String::new();
    append_str(&mut added, "+");
    append_decimal(&mut added, file.additions as u64);
    push_owned(&mut header, added, fg_style(Color::Green));
    push_span(&mut header, " ", plain_style());
    let mut deleted = String::new();
    append_str(&mut deleted, "-");
    append_decimal(&mut deleted, file.deletions as u64);
    push_owned(&mut header, deleted, fg_style(Color::Red));
    proof {
        assert(line_view(header@) =~= file_header_view(*file, width));
    }
    header
}

fn file_lines(file: &FileDiff, width: u16) -> (r: Vec<Vec<Span>>)
    ensures
        lines_view(r@) == file_lines_view(*file, width),
{
    let mut out: Vec<Vec<Span>> = Vec::new();
    push_line(&mut out, empty_line());
    push_line(&mut out, file_header(file, width));
    let ghost start = lines_view(out@);
    match &file.patch {
        Some(patch) => {
            let raw = split_lines(patch.as_str());
            let ghost all = lines_of(patch@);
            let mut k: usize = 0;
            proof {
                assert(all.len() == raw@.len()) by {
                    assert(string_views(raw@).len() == raw@.len());
                }
                assert(start + all.take(0).map_values(|l: Seq<char>| patch_line_view(l, width))
                    =~= start);
            }
            while k < raw.len()
                invariant
                    k <= raw@.len(),
                    string_views(raw@) == all,
                    all.len() == raw@.len(),
                    lines_view(out@) == start + all.take(k as int).map_values(
                        |l: Seq<char>| patch_line_view(l, width),
                    ),
                decreases raw.len() - k,
            {
                let line = patch_line(raw[k].as_str(), width);
                push_line(&mut out, line);
                proof {
                    assert(string_views(raw@)[k as int] == raw@[k as int]@);
                    assert(all.take(k + 1).map_values(|l: Seq<char>| patch_line_view(l, width))
                        =~= all.take(k as int).map_values(
                        |l: Seq<char>| patch_line_view(l, width),
                    ).push(patch_line_view(all[k as int], width)));
                }
                k = k + 1;
            }
            proof {
                assert(all.take(k as int) =~= all);
                assert(lines_view(out@) =~= file_lines_view(*file, width));
            }
        },
        None => {
            push_line(&mut out, single("  binary", dim_style()));
            proof {
                assert(lines_view(out@) =~= file_lines_view(*file, width));
            }
        },
    }
    out
}

/// Appends the lines of the files whose path names a `project.bri` file
/// exactly when `want`, in their order.
fn push_files(lines: &mut Vec<Vec<Span>>, files: &Vec<FileDiff>, want: bool, width: u16)
    ensures
        lines_view(final(lines)@) == lines_view(old(lines)@) + files_lines(
            files@.filter(project_is(want)),
            width,
        ),
{
    let ghost start = lines_view(lines@);
    let mut k: usize = 0;
    proof {
        reveal(Seq::filter);
        assert(files@.take(0).filter(project_is(want)) =~= Seq::<FileDiff>::empty());
        assert(start + files_lines(Seq::<FileDiff>::empty(), width) =~= start);
    }
    while k < files.len()
        invariant
            k <= files@.len(),
            lines_view(lines@) == start + files_lines(
                files@.take(k as int).filter(project_is(want)),
                width,
            ),
        decreases files.len() - k,
    {
        let f = &files[k];
        let ghost before = files@.take(k as int).filter(project_is(want));
        proof {
            reveal(Seq::filter);
            assert(files@.take(k + 1).drop_last() =~= files@.take(k as int));
            assert(files@.take(k + 1).last() == *f);
        }
        if is_project_path(f.filename.as_str()) == want {
            extend_lines(lines, file_lines(f, width));
            proof {
                assert(files@.take(k + 1).filter(project_is(want)) == before.push(*f));
                assert(before.push(*f).drop_last() =~= before);
                assert(lines_view(lines@) =~= start + files_lines(before.push(*f), width));
            }
        } else {
            proof {
                assert(files@.take(k + 1).filter(project_is(want)) == before);
            }
        }
        k = k + 1;
    }
    proof {
        assert(files@.take(k as int) =~= files@);
    }
}

// ---------------------------------------------------------------------------
// The panel
// ---------------------------------------------------------------------------

/// The rule under the summary.
pub open spec fn diff_rule() -> Seq<char> {
    "  ──────────────────────────────────────"@
}

/// The summary line: the number of files and the lines added and deleted
/// over all of them.
pub open spec fn diff_summary_view(files: Seq<FileDiff>) -> Seq<(Seq<char>, Style)> {
    seq![
        ("  "@, plain()),
        (decimal(files.len()) + " files"@, bolded()),
        ("  "@, plain()),
        ("+"@ + decimal(total_additions(files)), fg_bold(Color::Green)),
        ("  "@, plain()),
        ("-"@ + decimal(total_deletions(files)), fg_bold(Color::Red)),
    ]
}

/// The lines shown once a PR's files are loaded: a blank line, the
/// summary, the rule, then every file, `project.bri` files first.
pub open spec fn loaded_lines_view(files: Seq<FileDiff>, width: u16) -> Seq<
    Seq<(Seq<char>, Style)>,
> {
    seq![Seq::empty(), diff_summary_view(files), seq![(diff_rule(), fg(Color::DarkGray))]]
        + files_lines(project_first(files), width)
}

/// The title of the diff panel, with the keys that apply.
pub open spec fn diff_title_view(focused: bool) -> Seq<(Seq<char>, Style)> {
    if focused {
        seq![
            (" "@, plain()),
            ("Diff"@, highlight()),
            ("  ↑↓/jk scroll  d unfocus  Enter close"@, dimmed()),
            (" "@, plain()),
        ]
    } else {
        seq![(" "@, plain()), ("Diff"@, fg_bold(Color::Cyan)), ("  d to focus"@, dimmed()), (" "@, plain())]
    }
}

/// The lines of the diff panel `width` cells wide: nothing without a
/// selected PR, a loading note until its files are cached, the error of a
/// failed fetch, else the loaded files.
pub open spec fn diff_body_view(app: App, width: u16) -> Seq<Seq<(Seq<char>, Style)>> {
    match app.selected_index() {
        None => Seq::empty(),
        Some(i) => {
            let n = app.prs@[i as int].number;
            if !app.diff_cache@.contains_key(n) {
                seq![Seq::empty(), seq![("  Loading…"@, dimmed())]]
            } else {
                match app.diff_cache@[n] {
                    DiffState::Error(m) => seq![Seq::empty(), seq![("  Error: "@ + m@, fg(Color::Red))]],
                    DiffState::Loaded(files) => loaded_lines_view(files@, width),
                }
            }
        },
    }
}

/// The scroll offset of loaded files: the requested offset, kept so that
/// the last line stays at the bottom of a panel `height` cells high (the
/// frame takes two), as a `u16`.
pub open spec fn diff_scroll_of(requested: usize, line_count: nat, height: u16) -> u16 {
    let visible: nat = if height >= 2 {
        (height - 2) as nat
    } else {
        0
    };
    let max_scroll: nat = if line_count >= visible {
        (line_count - visible) as nat
    } else {
        0
    };
    (if requested <= max_scroll {
        requested as int
    } else {
        max_scroll as int
    }) as u16
}

/// Whether the selected PR's loaded files have added and deleted line
/// counts whose totals fit in a `u32`.
pub open spec fn diff_totals_fit(app: App) -> bool {
    match app.selected_index() {
        Some(i) => {
            let n = app.prs@[i as int].number;
            app.diff_cache@.contains_key(n) ==> match app.diff_cache@[n] {
                DiffState::Loaded(files) => total_additions(files@) <= u32::MAX && total_deletions(
                    files@,
                ) <= u32::MAX,
                DiffState::Error(_) => true,
            }
        },
        None => true,
    }
}

fn diff_title(focused: bool) -> (r: Vec<Span>)
    ensures
        line_view(r@) == diff_title_view(focused),
{
    let mut title: Vec<Span> = Vec::new();
    push_span(&mut title, " ", plain_style());
    if focused {
        push_span(&mut title, "Diff", highlight_style());
        push_span(&mut title, "  ↑↓/jk scroll  d unfocus  Enter close", dim_style());
    } else {
        push_span(&mut title, "Diff", fg_bold_style(Color::Cyan));
        push_span(&mut title, "  d to focus", dim_style());
    }
    push_span(&mut title, " ", plain_style());
    proof {
        assert(line_view(title@) =~= diff_title_view(focused));
    }
    title
}

fn diff_summary(files: &Vec<FileDiff>) -> (r: Vec<Span>)
    requires
        total_additions(files@) <= u32::MAX,
        total_deletions(files@) <= u32::MAX,
    ensures
        line_view(r@) == diff_summary_view(files@),
{
    let mut add: u32 = 0;
    let mut del: u32 = 0;
    let mut k: usize = 0;
    while k < files.len()
        invariant
            k <= files@.len(),
            total_additions(files@) <= u32::MAX,
            total_deletions(files@) <= u32::MAX,
            add == total_additions(files@.take(k as int)),
            del == total_deletions(files@.take(k as int)),
        decreases files.len() - k,
    {
        proof {
            assert(files@.take(k + 1).drop_last() =~= files@.take(k as int));
            lemma_totals_prefix(files@, k + 1);
        }
        add = add + files[k].additions;
        del = del + files[k].deletions;
        k = k + 1;
    }
    proof {
        assert(files@.take(k as int) =~= files@);
    }
    let mut line: Vec<Span> = Vec::new();
    push_span(&mut line, "  ", plain_style());
    let mut count = String::new();
    append_decimal(&mut count, files.len() as u64);
    append_str(&mut count, " files");
    push_owned(&mut line, count, bold_style());
    push_span(&mut line, "  ", plain_style());
    let mut a = String::new();
    append_str(&mut a, "+");
    append_decimal(&mut a, add as u64);
    push_owned(&mut line, a, fg_bold_style(Color::Green));
    push_span(&mut line, "  ", plain_style());
    let mut d = String::new();
    append_str(&mut d, "-");
    append_decimal(&mut d, del as u64);
    push_owned(&mut line, d, fg_bold_style(Color::Red));
    proof {
        assert(line_view(line@) =~= diff_summary_view(files@));
    }
    line
}

fn loaded_lines(files: &Vec<FileDiff>, width: u16) -> (r: Vec<Vec<Span>>)
    requires
        total_additions(files@) <= u32::MAX,
        total_deletions(files@) <= u32::MAX,
    ensures
        lines_view(r@) == loaded_lines_view(files@, width),
{
    let mut lines: Vec<Vec<Span>> = Vec::new();
    push_line(&mut lines, empty_line());
    push_line(&mut lines, diff_summary(files));
    push_line(&mut lines, single("  ──────────────────────────────────────", fg_style(Color::DarkGray)));
    push_files(&mut lines, files, true, width);
    push_files(&mut lines, files, false, width);
    proof {
        lemma_files_lines_concat(
            files@.filter(project_is(true)),
            files@.filter(project_is(false)),
            width,
        );
        assert(lines_view(lines@) =~= loaded_lines_view(files@, width));
    }
    lines
}

/// The diff panel of the selected PR, `width` by `height` cells: its title,
/// border colour (cyan when focused) and lines, and the scroll offset of
/// its text.
pub fn pr_diff_panel(app: &App, width: u16, height: u16) -> (r: (Panel, u16))
    requires
        diff_totals_fit(*app),
    ensures
        line_view(r.0.title@) == diff_title_view(app.diff_focused),
        r.0.border == (if app.diff_focused {
            Color::Cyan
        } else {
            Color::DarkGray
        }),
        lines_view(r.0.lines@) == diff_body_view(*app, width),
        r.1 == match app.selected_index() {
            Some(i) => {
                let n = app.prs@[i as int].number;
                if app.diff_cache@.contains_key(n) && app.diff_cache@[n] is Loaded {
                    diff_scroll_of(app.diff_scroll, diff_body_view(*app, width).len(), height)
                } else {
                    0
                }
            },
            None => 0,
        },
{
    let title = diff_title(app.diff_focused);
    let border = if app.diff_focused {
        Color::Cyan
    } else {
        Color::DarkGray
    };
    let mut lines: Vec<Vec<Span>> = Vec::new();
    let mut scroll: u16 = 0;
    match app.selected_pr() {
        None => {
            proof {
                assert(lines_view(lines@) =~= diff_body_view(*app, width));
            }
        },
        Some(pr) => {
            match app.diff_cache.get(&pr.number) {
                None => {
                    push_line(&mut lines, empty_line());
                    push_line(&mut lines, single("  Loading…", dim_style()));
                    proof {
                        assert(lines_view(lines@) =~= diff_body_view(*app, width));
                    }
                },
                Some(DiffState::Error(msg)) => {
                    let mut text = String::new();
                    append_str(&mut text, "  Error: ");
                    append_str(&mut text, msg.as_str());
                    push_line(&mut lines, empty_line());
                    let mut line: Vec<Span> = Vec::new();
                    push_owned(&mut line, text, fg_style(Color::Red));
                    push_line(&mut lines, line);
                    proof {
                        assert(lines_view(lines@) =~~= diff_body_view(*app, width));
                    }
                },
                Some(DiffState::Loaded(files)) => {
                    lines = loaded_lines(files, width);
                    let visible: usize = if height >= 2 {
                        (height - 2) as usize
                    } else {
                        0
                    };
                    let max_scroll: usize = if lines.len() >= visible {
                        lines.len() - visible
                    } else {
                        0
                    };
                    let s: usize = if app.diff_scroll <= max_scroll {
                        app.diff_scroll
                    } else {
                        max_scroll
                    };
                    scroll = s as u16;
                },
            }
        },
    }
    (Panel { title, border, lines }, scroll)
}

} // verus!
