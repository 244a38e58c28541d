//! The state of the interactive list and the decisions it makes: which
//! pull requests are visible, which one is selected, what a key or a click
//! means, and how each action changes the state.
use vstd::prelude::*;
use std::collections::HashMap;
use std::collections::HashSet;
use crate::config::Config;
use crate::models::{FileDiff, MergeQueueEntry, MergeableState, PrStatus, PullRequest};
use crate::sort::{insert_by_key, lemma_insert_by_key_at, sort_by_key};
use crate::event::{Event, KeyCode, KeyModifiers};
use crate::models::{status_of, MergeQueueState};
use crate::text::{append_decimal, append_str, decimal};

verus! {

broadcast use vstd::std_specs::hash::group_hash_axioms;

// ---------------------------------------------------------------------------
// Filter
// ---------------------------------------------------------------------------

/// The views of the list, in the order of the tab bar.
#[derive(Debug, Clone, Copy, PartialEq, Eq, Structural)]
pub enum Filter {
    /// All open PRs.
    Active,
    /// Non-draft PRs with a clean merge state, not yet queued.
    Ready,
    /// PRs removed from the merge queue and not currently re-queued.
    Removed,
    /// PRs currently in the merge queue.
    Queued,
}

/// The filter of tab `i` of the tab bar, if there is such a tab.
pub open spec fn filter_at(i: int) -> Option<Filter> {
    if i == 0 {
        Some(Filter::Active)
    } else if i == 1 {
        Some(Filter::Ready)
    } else if i == 2 {
        Some(Filter::Removed)
    } else if i == 3 {
        Some(Filter::Queued)
    } else {
        None
    }
}

impl Filter {
    /// All filters, in tab order.
    pub fn all() -> (r: Vec<Filter>)
        ensures
            r@.len() == 4,
            forall|i: int| 0 <= i < 4 ==> filter_at(i) == Some(#[trigger] r@[i]),
    {
        vec![Filter::Active, Filter::Ready, Filter::Removed, Filter::Queued]
    }

    /// The filter of tab `i`, if there is such a tab.
    pub fn from_index(i: usize) -> (r: Option<Filter>)
        ensures
            r == filter_at(i as int),
    {
        match i {
            0 => Some(Filter::Active),
            1 => Some(Filter::Ready),
            2 => Some(Filter::Removed),
            3 => Some(Filter::Queued),
            _ => None,
        }
    }

    pub open spec fn label_spec(self) -> Seq<char> {
        match self {
            Filter::Active => "Active"@,
            Filter::Ready => "Ready"@,
            Filter::Removed => "Removed"@,
            Filter::Queued => "Queued"@,
        }
    }

    pub fn label(&self) -> (r: &str)
        ensures
            r@ == self.label_spec(),
    {
        match self {
            Filter::Active => "Active",
            Filter::Ready => "Ready",
            Filter::Removed => "Removed",
            Filter::Queued => "Queued",
        }
    }

    /// Whether a pull request belongs to the view.
    pub open spec fn matches_spec(self, pr: PullRequest) -> bool {
        match self {
            Filter::Active => true,
            Filter::Ready => !pr.is_draft && pr.mergeable_state == MergeableState::Clean
                && pr.merge_queue is None,
            Filter::Removed => pr.last_queue_removal is Some && pr.merge_queue is None,
            Filter::Queued => pr.merge_queue is Some,
        }
    }

    pub fn matches(&self, pr: &PullRequest) -> (r: bool)
        ensures
            r == self.matches_spec(*pr),
    {
        match self {
            Filter::Active => true,
            Filter::Ready => {
                !pr.is_draft && pr.mergeable_state == MergeableState::Clean
                    && pr.merge_queue.is_none()
            },
            Filter::Removed => pr.last_queue_removal.is_some() && pr.merge_queue.is_none(),
            Filter::Queued => pr.merge_queue.is_some(),
        }
    }

    pub open spec fn next_spec(self) -> Filter {
        match self {
            Filter::Active => Filter::Ready,
            Filter::Ready => Filter::Removed,
            Filter::Removed => Filter::Queued,
            Filter::Queued => Filter::Active,
        }
    }

    pub fn next(&self) -> (r: Self)
        ensures
            r == self.next_spec(),
    {
        match self {
            Filter::Active => Filter::Ready,
            Filter::Ready => Filter::Removed,
            Filter::Removed => Filter::Queued,
            Filter::Queued => Filter::Active,
        }
    }

    pub open spec fn prev_spec(self) -> Filter {
        match self {
            Filter::Active => Filter::Queued,
            Filter::Ready => Filter::Active,
            Filter::Removed => Filter::Ready,
            Filter::Queued => Filter::Removed,
        }
    }

    pub fn prev(&self) -> (r: Self)
        ensures
            r == self.prev_spec(),
    {
        match self {
            Filter::Active => Filter::Queued,
            Filter::Ready => Filter::Active,
            Filter::Removed => Filter::Ready,
            Filter::Queued => Filter::Removed,
        }
    }
}

// ---------------------------------------------------------------------------
// Visible pull requests
// ---------------------------------------------------------------------------

/// The indices below `n` of the pull requests that the filter keeps, in
/// ascending order.
pub open spec fn matching_indices(prs: Seq<PullRequest>, f: Filter, n: int) -> Seq<usize>
    decreases n,
{
    if n <= 0 {
        Seq::empty()
    } else if f.matches_spec(prs[n - 1]) {
        matching_indices(prs, f, n - 1).push((n - 1) as usize)
    } else {
        matching_indices(prs, f, n - 1)
    }
}

/// The merge queue position of a pull request, or `u32::MAX` out of the
/// queue.
pub open spec fn queue_key(pr: PullRequest) -> int {
    match pr.merge_queue {
        Some(e) => e.position as int,
        None => u32::MAX as int,
    }
}

/// The order of pull-request indices by queue position.
pub open spec fn queue_order(prs: Seq<PullRequest>) -> spec_fn(usize) -> int {
    |i: usize| queue_key(prs[i as int])
}

/// The indices of the pull requests visible under a filter: those it keeps,
/// in list order, except that the Queued view is stably sorted by merge
/// queue position (longest in queue first).
pub open spec fn visible_indices_of(prs: Seq<PullRequest>, f: Filter) -> Seq<usize> {
    let m = matching_indices(prs, f, prs.len() as int);
    if f == Filter::Queued {
        sort_by_key(m, queue_order(prs))
    } else {
        m
    }
}

pub proof fn lemma_matching_indices_bounded(prs: Seq<PullRequest>, f: Filter, n: int)
    requires
        n <= prs.len(),
    ensures
        forall|k: int| 0 <= k < matching_indices(prs, f, n).len()
            ==> 0 <= #[trigger] matching_indices(prs, f, n)[k] < n,
        matching_indices(prs, f, n).len() <= if n < 0 { 0 } else { n },
    decreases n,
{
    if n > 0 {
        lemma_matching_indices_bounded(prs, f, n - 1);
    }
}

fn matching_index_vec(prs: &Vec<PullRequest>, f: Filter) -> (r: Vec<usize>)
    ensures
        r@ == matching_indices(prs@, f, prs@.len() as int),
{
    let mut r: Vec<usize> = Vec::new();
    let mut i: usize = 0;
    while i < prs.len()
        invariant
            i <= prs.len(),
            r@ == matching_indices(prs@, f, i as int),
        decreases prs.len() - i,
    {
        if f.matches(&prs[i]) {
            r.push(i);
        }
        i = i + 1;
    }
    r
}

fn queue_position_key(pr: &PullRequest) -> (r: u32)
    ensures
        r == queue_key(*pr),
{
    match &pr.merge_queue {
        Some(e) => e.position,
        None => u32::MAX,
    }
}

fn sort_by_queue_position(prs: &Vec<PullRequest>, ids: Vec<usize>) -> (r: Vec<usize>)
    requires
        forall|k: int| 0 <= k < ids@.len() ==> #[trigger] ids@[k] < prs@.len(),
    ensures
        r@ == sort_by_key(ids@, queue_order(prs@)),
{
    let ghost input = ids@;
    let n = ids.len();
    let mut out: Vec<usize> = Vec::new();
    let mut i: usize = 0;
    while i < n
        invariant
            n == input.len(),
            i <= n,
            ids@ == input,
            forall|k: int| 0 <= k < input.len() ==> #[trigger] input[k] < prs@.len(),
            out@ == sort_by_key(input.take(i as int), queue_order(prs@)),
            forall|k: int| 0 <= k < out@.len() ==> #[trigger] out@[k] < prs@.len(),
        decreases n - i,
    {
        let x = ids[i];
        let kx = queue_position_key(&prs[x]);
        let mut j = out.len();
        while j > 0 && queue_position_key(&prs[out[j - 1]]) > kx
            invariant
                j <= out.len(),
                x < prs@.len(),
                kx == queue_key(prs@[x as int]),
                forall|k: int| 0 <= k < out@.len() ==> #[trigger] out@[k] < prs@.len(),
                forall|k: int|
                    j <= k < out.len() ==> queue_key(prs@[out@[k] as int]) > queue_key(
                        prs@[x as int],
                    ),
            decreases j,
        {
            j = j - 1;
        }
        proof {
            let key = queue_order(prs@);
            assert forall|k: int| j <= k < out@.len() implies key(out@[k]) > key(x) by {}
            lemma_insert_by_key_at(out@, x, key, j as int);
            assert(input.take(i + 1).drop_last() =~= input.take(i as int));
            assert(input.take(i + 1).last() == x);
        }
        out.insert(j, x);
        i = i + 1;
    }
    proof {
        assert(input.take(n as int) =~= input);
    }
    out
}

/// The indices of the pull requests visible under a filter.
pub fn visible_indices(prs: &Vec<PullRequest>, f: Filter) -> (r: Vec<usize>)
    ensures
        r@ == visible_indices_of(prs@, f),
{
    let m = matching_index_vec(prs, f);
    proof {
        lemma_matching_indices_bounded(prs@, f, prs@.len() as int);
    }
    if f == Filter::Queued {
        sort_by_queue_position(prs, m)
    } else {
        m
    }
}

} // verus!

verus! {

// ---------------------------------------------------------------------------
// Screen geometry
// ---------------------------------------------------------------------------

/// A rectangle of terminal cells.
#[derive(Debug, Clone, Copy, PartialEq, Eq, Structural, Default)]
pub struct Rect {
    pub x: u16,
    pub y: u16,
    pub width: u16,
    pub height: u16,
}

impl Rect {
    /// The rectangle ends within the coordinate range of the terminal.
    pub open spec fn fits(self) -> bool {
        self.x + self.width <= u16::MAX && self.y + self.height <= u16::MAX
    }

    pub open spec fn contains_spec(self, col: u16, row: u16) -> bool {
        &&& self.x <= col < self.x + self.width
        &&& self.y <= row < self.y + self.height
    }

    /// Whether the cell at (col, row) lies in the rectangle; the far edges
    /// are computed in 32 bits, so no rectangle is too large.
    pub fn contains(&self, col: u16, row: u16) -> (r: bool)
        ensures
            r == self.contains_spec(col, row),
    {
        col >= self.x && (col as u32) < self.x as u32 + self.width as u32 && row >= self.y
            && (row as u32) < self.y as u32 + self.height as u32
    }
}

/// The scroll offset and selected row of the drawn list.
#[derive(Debug, Clone, Copy, PartialEq, Eq, Structural, Default)]
pub struct ListState {
    pub offset: usize,
    pub selected: Option<usize>,
}

// ---------------------------------------------------------------------------
// LoadState / DiffState / Action / Command
// ---------------------------------------------------------------------------

#[derive(Debug, Clone)]
pub enum LoadState {
    Idle,
    Loading,
    Error(String),
}

#[derive(Debug, Clone)]
pub enum DiffState {
    Loaded(Vec<FileDiff>),
    Error(String),
}

#[derive(Debug)]
pub enum Action {
    Tick,
    Refresh,
    NavigateUp,
    NavigateDown,
    CycleFilterNext,
    CycleFilterPrev,
    EnqueueSelected,
    ToggleSelectPr,
    SelectAllVisible,
    DeselectAll,
    OpenInBrowser,
    Quit,
    DataLoaded(Vec<PullRequest>),
    LoadError(String),
    LoadProgress(usize, usize),
    StatusMessage(String),
    NavigatePageUp,
    NavigatePageDown,
    NavigateHome,
    NavigateEnd,
    NavigateTo(usize),
    ToggleDiff,
    FocusDiff,
    UnfocusDiff,
    DiffLoaded(u64, Vec<FileDiff>),
    DiffError(u64, String),
    DiffScrollUp(usize),
    DiffScrollDown(usize),
    PrEnqueued(u64, MergeQueueEntry),
    EnqueueFailed,
    BulkEnqueued(Vec<(u64, Result<MergeQueueEntry, String>)>),
    SetFilter(Filter),
}

/// Outside work that an action asks for; its outcome comes back as an
/// action.
#[derive(Debug)]
pub enum Command {
    /// Fetch all open pull requests (answered by `DataLoaded`, `LoadError`
    /// and `LoadProgress`).
    FetchPrs,
    /// Fetch the changed files of a pull request (answered by `DiffLoaded`
    /// or `DiffError`).
    FetchDiff(u64),
    /// Add several pull requests, given as (number, node id), to the merge
    /// queue (answered by `BulkEnqueued`).
    EnqueueBatch(Vec<(u64, String)>),
    /// Add one pull request to the merge queue (answered by `PrEnqueued`, or
    /// by a `StatusMessage` and `EnqueueFailed`).
    EnqueuePr { number: u64, node_id: String },
    /// Open a pull request's page in the browser (answered by a
    /// `StatusMessage`).
    OpenUrl { number: u64, url: String },
}

// ---------------------------------------------------------------------------
// App
// ---------------------------------------------------------------------------

pub struct App {
    pub config: Config,
    /// All PRs returned by the API (unfiltered, sorted).
    pub prs: Vec<PullRequest>,
    /// Index into the *filtered* visible list.
    pub selected: usize,
    pub list_state: ListState,
    pub load_state: LoadState,
    pub load_progress: Option<(usize, usize)>,
    /// Height of the visible list area in rows (updated each render frame).
    pub list_height: usize,
    pub active_filter: Filter,
    /// The status message and the time, in milliseconds of the session
    /// clock, at which it was set.
    pub status_msg: Option<(String, u64)>,
    pub should_quit: bool,
    /// Whether the diff panel is visible.
    pub show_diff: bool,
    /// Whether j/k/arrows scroll the diff instead of navigating the PR list.
    pub diff_focused: bool,
    /// Cached diff per PR number.
    pub diff_cache: HashMap<u64, DiffState>,
    /// Scroll offset within the diff panel.
    pub diff_scroll: usize,
    /// Height of the visible diff area in rows (updated each render frame).
    pub diff_height: usize,
    /// Clickable rects for each filter tab (in tab order). Updated each render frame.
    pub filter_tab_rects: Vec<Rect>,
    /// Area of the diff panel. Updated each render frame; used for click-to-focus.
    pub diff_panel_rect: Rect,
    /// Area of the PR list items (below filter tabs). Updated each render frame; used for click-to-select.
    pub pr_list_rect: Rect,
    /// PR numbers toggled into the multi-select set.
    pub selected_prs: HashSet<u64>,
    /// True while an enqueue request is in flight.
    pub enqueue_in_flight: bool,
    /// Number of PRs dispatched in the current enqueue run (0 = idle).
    pub enqueue_total: usize,
    /// Incremented on every Tick — used to drive spinner frames.
    pub tick_count: usize,
}

impl App {
    pub fn new(config: Config, open_diff: bool) -> (r: Self)
        ensures
            r.config == config,
            r.prs@.len() == 0,
            r.selected == 0,
            r.list_state == (ListState { offset: 0, selected: Some(0) }),
            r.load_state is Idle,
            r.load_progress is None,
            r.list_height == 10,
            r.active_filter == Filter::Active,
            r.status_msg is None,
            !r.should_quit,
            r.show_diff == open_diff,
            !r.diff_focused,
            r.diff_cache@ == Map::<u64, DiffState>::empty(),
            r.diff_scroll == 0,
            r.diff_height == 10,
            r.filter_tab_rects@.len() == 0,
            r.diff_panel_rect == (Rect { x: 0, y: 0, width: 0, height: 0 }),
            r.pr_list_rect == (Rect { x: 0, y: 0, width: 0, height: 0 }),
            r.selected_prs@ == Set::<u64>::empty(),
            !r.enqueue_in_flight,
            r.enqueue_total == 0,
            r.tick_count == 0,
    {
        App {
            config,
            prs: Vec::new(),
            selected: 0,
            list_state: ListState { offset: 0, selected: Some(0) },
            load_state: LoadState::Idle,
            load_progress: None,
            list_height: 10,
            active_filter: Filter::Active,
            status_msg: None,
            should_quit: false,
            show_diff: open_diff,
            diff_focused: false,
            diff_cache: HashMap::new(),
            diff_scroll: 0,
            diff_height: 10,
            filter_tab_rects: Vec::new(),
            diff_panel_rect: Rect { x: 0, y: 0, width: 0, height: 0 },
            pr_list_rect: Rect { x: 0, y: 0, width: 0, height: 0 },
            selected_prs: HashSet::new(),
            enqueue_in_flight: false,
            enqueue_total: 0,
            tick_count: 0,
        }
    }
}

} // verus!

verus! {

impl App {
    /// Indices into `prs` of the PRs visible under the current filter.
    pub open spec fn visible(self) -> Seq<usize> {
        visible_indices_of(self.prs@, self.active_filter)
    }

    /// The index into `prs` of the selected PR, if the selection is on a
    /// visible PR.
    pub open spec fn selected_index(self) -> Option<usize> {
        if self.selected < self.visible().len() {
            Some(self.visible()[self.selected as int])
        } else {
            None
        }
    }

    /// PRs visible under the current filter.
    /// For the Queued filter, results are sorted by merge queue position ascending
    /// (longest in queue first). All other filters keep the global sort order.
    pub fn visible_prs(&self) -> (r: Vec<&PullRequest>)
        ensures
            r@.len() == self.visible().len(),
            forall|k: int| 0 <= k < r@.len() ==> *(#[trigger] r@[k]) == self.prs@[self.visible()[k] as int],
    {
        let ids = visible_indices(&self.prs, self.active_filter);
        proof {
            lemma_visible_bounded(self.prs@, self.active_filter);
        }
        let mut r: Vec<&PullRequest> = Vec::new();
        let mut k: usize = 0;
        while k < ids.len()
            invariant
                k <= ids@.len(),
                ids@ == self.visible(),
                forall|j: int| 0 <= j < ids@.len() ==> #[trigger] ids@[j] < self.prs@.len(),
                r@.len() == k,
                forall|j: int| 0 <= j < k ==> *(#[trigger] r@[j]) == self.prs@[ids@[j] as int],
            decreases ids.len() - k,
        {
            r.push(&self.prs[ids[k]]);
            k = k + 1;
        }
        r
    }

    /// Count of PRs matching a given filter (for tab labels).
    pub fn count_for(&self, filter: &Filter) -> (r: usize)
        ensures
            r == matching_indices(self.prs@, *filter, self.prs@.len() as int).len(),
    {
        matching_index_vec(&self.prs, *filter).len()
    }

    /// Currently selected PR in the visible list.
    pub fn selected_pr(&self) -> (r: Option<&PullRequest>)
        ensures
            match self.selected_index() {
                Some(i) => r matches Some(p) && *p == self.prs@[i as int],
                None => r is None,
            },
    {
        let ids = visible_indices(&self.prs, self.active_filter);
        proof {
            lemma_visible_bounded(self.prs@, self.active_filter);
        }
        if self.selected < ids.len() {
            Some(&self.prs[ids[self.selected]])
        } else {
            None
        }
    }
}

impl App {
    /// Records where the last drawn frame put the panels: the area of the PR
    /// list rows, whose height pages move by, when the list was drawn (not
    /// while loading or after a failed load); the area of the diff panel
    /// when it is shown, whose text has the height of the area less its
    /// frame; and the rectangles of the filter tabs, in tab order.
    pub fn record_frame(
        &mut self,
        list_area: Option<Rect>,
        diff_area: Option<Rect>,
        tab_rects: Option<Vec<Rect>>,
    )
        ensures
            *final(self) == (App {
                list_height: match list_area {
                    Some(r) => r.height as usize,
                    None => old(self).list_height,
                },
                pr_list_rect: match list_area {
                    Some(r) => r,
                    None => old(self).pr_list_rect,
                },
                diff_height: match diff_area {
                    Some(r) => (if r.height >= 2 {
                        r.height - 2
                    } else {
                        0
                    }) as usize,
                    None => old(self).diff_height,
                },
                diff_panel_rect: match diff_area {
                    Some(r) => r,
                    None => old(self).diff_panel_rect,
                },
                filter_tab_rects: match tab_rects {
                    Some(t) => t,
                    None => old(self).filter_tab_rects,
                },
                ..*old(self)
            }),
    {
        if let Some(r) = list_area {
            self.list_height = r.height as usize;
            self.pr_list_rect = r;
        }
        if let Some(r) = diff_area {
            self.diff_height = r.height.saturating_sub(2) as usize;
            self.diff_panel_rect = r;
        }
        if let Some(t) = tab_rects {
            self.filter_tab_rects = t;
        }
    }
}

/// Every visible index points into the list, and no more PRs are visible
/// than there are.
pub proof fn lemma_visible_bounded(prs: Seq<PullRequest>, f: Filter)
    ensures
        forall|k: int| 0 <= k < visible_indices_of(prs, f).len()
            ==> #[trigger] visible_indices_of(prs, f)[k] < prs.len(),
        visible_indices_of(prs, f).len() <= prs.len(),
{
    let m = matching_indices(prs, f, prs.len() as int);
    lemma_matching_indices_bounded(prs, f, prs.len() as int);
    if f == Filter::Queued {
        let s = sort_by_key(m, queue_order(prs));
        crate::sort::lemma_sort_by_key_permutes(m, queue_order(prs));
        assert forall|k: int| 0 <= k < s.len() implies #[trigger] s[k] < prs.len() by {
            broadcast use vstd::seq_lib::group_to_multiset_ensures;
            assert(s.contains(s[k]));
            assert(m.to_multiset().count(s[k]) > 0);
            let j = choose|j: int| 0 <= j < m.len() && m[j] == s[k];
            assert(m[j] < prs.len());
        }
    }
}

} // verus!

verus! {

/// The filter of the first tab, from tab `i` on, whose rectangle holds the
/// cell; rectangles past the last filter are never a hit.
pub open spec fn tab_hit(rects: Seq<Rect>, col: u16, row: u16, i: int) -> Option<Filter>
    decreases rects.len() - i,
{
    if i < 0 || i >= rects.len() {
        None
    } else if rects[i].contains_spec(col, row) && filter_at(i) is Some {
        filter_at(i)
    } else {
        tab_hit(rects, col, row, i + 1)
    }
}

impl App {
    /// What a left click at (col, row) asks for: the diff panel toggles its
    /// focus, a filter tab selects its filter, a list row selects that row.
    pub open spec fn click_action(self, col: u16, row: u16) -> Option<Action> {
        if self.show_diff && self.diff_panel_rect.contains_spec(col, row) {
            Some(
                if self.diff_focused {
                    Action::UnfocusDiff
                } else {
                    Action::FocusDiff
                },
            )
        } else {
            match tab_hit(self.filter_tab_rects@, col, row, 0) {
                Some(f) => Some(Action::SetFilter(f)),
                None => if self.pr_list_rect.contains_spec(col, row) {
                    Some(
                        Action::NavigateTo(
                            ((row - self.pr_list_rect.y) + self.list_state.offset) as usize,
                        ),
                    )
                } else {
                    None
                },
            }
        }
    }

    /// The row index that a click in the list asks for fits in `usize`.
    pub open spec fn click_row_fits(self, col: u16, row: u16) -> bool {
        self.pr_list_rect.contains_spec(col, row) ==> (row - self.pr_list_rect.y)
            + self.list_state.offset <= usize::MAX
    }

    /// What a key press asks for. Ctrl+C quits; while the diff panel has
    /// focus, navigation keys scroll the diff.
    pub open spec fn key_action(self, code: KeyCode, modifiers: KeyModifiers) -> Option<Action> {
        if modifiers.control && code == KeyCode::Char('c') {
            Some(Action::Quit)
        } else if self.diff_focused {
            match code {
                KeyCode::Up | KeyCode::Char('k') => Some(Action::DiffScrollUp(1)),
                KeyCode::Down | KeyCode::Char('j') => Some(Action::DiffScrollDown(1)),
                KeyCode::PageUp => Some(
                    Action::DiffScrollUp(if self.diff_height >= 1 { self.diff_height } else { 1 }),
                ),
                KeyCode::PageDown => Some(
                    Action::DiffScrollDown(
                        if self.diff_height >= 1 {
                            self.diff_height
                        } else {
                            1
                        },
                    ),
                ),
                KeyCode::Home => Some(Action::DiffScrollUp(usize::MAX)),
                KeyCode::End => Some(Action::DiffScrollDown(usize::MAX)),
                KeyCode::Char('d') => Some(Action::UnfocusDiff),
                KeyCode::Enter => Some(Action::ToggleDiff),
                KeyCode::Char('R') => Some(Action::Refresh),
                KeyCode::Char('o') => Some(Action::OpenInBrowser),
                _ => None,
            }
        } else {
            match code {
                KeyCode::Up | KeyCode::Char('k') => Some(Action::NavigateUp),
                KeyCode::Down | KeyCode::Char('j') => Some(Action::NavigateDown),
                KeyCode::PageUp => Some(Action::NavigatePageUp),
                KeyCode::PageDown => Some(Action::NavigatePageDown),
                KeyCode::Home => Some(Action::NavigateHome),
                KeyCode::End => Some(Action::NavigateEnd),
                KeyCode::Tab => Some(Action::CycleFilterNext),
                KeyCode::BackTab => Some(Action::CycleFilterPrev),
                KeyCode::Char(' ') => Some(Action::ToggleSelectPr),
                KeyCode::Char('a') => Some(Action::SelectAllVisible),
                KeyCode::Char('A') => Some(Action::DeselectAll),
                KeyCode::Char('r') => Some(Action::EnqueueSelected),
                KeyCode::Char('R') => Some(Action::Refresh),
                KeyCode::Char('o') => Some(Action::OpenInBrowser),
                KeyCode::Enter => Some(Action::ToggleDiff),
                KeyCode::Char('d') => if self.show_diff {
                    Some(
                        if self.diff_focused {
                            Action::UnfocusDiff
                        } else {
                            Action::FocusDiff
                        },
                    )
                } else {
                    None
                },
                _ => None,
            }
        }
    }

    /// What an input event asks for.
    pub open spec fn event_action(self, event: Event) -> Option<Action> {
        match event {
            Event::Tick => Some(Action::Tick),
            Event::Mouse(col, row) => self.click_action(col, row),
            Event::ScrollUp(col, row) => if self.show_diff && self.diff_panel_rect.contains_spec(
                col,
                row,
            ) {
                Some(Action::DiffScrollUp(3))
            } else {
                Some(Action::NavigateUp)
            },
            Event::ScrollDown(col, row) => if self.show_diff
                && self.diff_panel_rect.contains_spec(col, row) {
                Some(Action::DiffScrollDown(3))
            } else {
                Some(Action::NavigateDown)
            },
            Event::Key(code, modifiers) => self.key_action(code, modifiers),
        }
    }

    /// The inputs on which the event handler computes without overflow: a
    /// click in the list gives a row index that fits in `usize`.
    pub open spec fn handles_event(self, event: Event) -> bool {
        match event {
            Event::Mouse(col, row) => self.click_row_fits(col, row),
            _ => true,
        }
    }

    fn click_tab(&self, col: u16, row: u16) -> (r: Option<Filter>)
        ensures
            r == tab_hit(self.filter_tab_rects@, col, row, 0),
    {
        let mut i: usize = 0;
        while i < self.filter_tab_rects.len()
            invariant
                i <= self.filter_tab_rects@.len(),
                tab_hit(self.filter_tab_rects@, col, row, 0) == tab_hit(
                    self.filter_tab_rects@,
                    col,
                    row,
                    i as int,
                ),
            decreases self.filter_tab_rects.len() - i,
        {
            let rect = &self.filter_tab_rects[i];
            if rect.contains(col, row) {
                if let Some(filter) = Filter::from_index(i) {
                    return Some(filter);
                }
            }
            i = i + 1;
        }
        None
    }

    fn key_event_action(&self, code: KeyCode, modifiers: KeyModifiers) -> (r: Option<Action>)
        ensures
            r == self.key_action(code, modifiers),
    {
        if modifiers.control && code == KeyCode::Char('c') {
            return Some(Action::Quit);
        }
        // When the diff panel has focus, navigation keys scroll the diff.
        if self.diff_focused {
            let page = if self.diff_height >= 1 { self.diff_height } else { 1 };
            return match code {
                KeyCode::Up | KeyCode::Char('k') => Some(Action::DiffScrollUp(1)),
                KeyCode::Down | KeyCode::Char('j') => Some(Action::DiffScrollDown(1)),
                KeyCode::PageUp => Some(Action::DiffScrollUp(page)),
                KeyCode::PageDown => Some(Action::DiffScrollDown(page)),
                KeyCode::Home => Some(Action::DiffScrollUp(usize::MAX)),
                KeyCode::End => Some(Action::DiffScrollDown(usize::MAX)),
                KeyCode::Char('d') => Some(Action::UnfocusDiff),
                KeyCode::Enter => Some(Action::ToggleDiff),
                KeyCode::Char('R') => Some(Action::Refresh),
                KeyCode::Char('o') => Some(Action::OpenInBrowser),
                _ => None,
            };
        }
        match code {
            KeyCode::Up | KeyCode::Char('k') => Some(Action::NavigateUp),
            KeyCode::Down | KeyCode::Char('j') => Some(Action::NavigateDown),
            KeyCode::PageUp => Some(Action::NavigatePageUp),
            KeyCode::PageDown => Some(Action::NavigatePageDown),
            KeyCode::Home => Some(Action::NavigateHome),
            KeyCode::End => Some(Action::NavigateEnd),
            KeyCode::Tab => Some(Action::CycleFilterNext),
            KeyCode::BackTab => Some(Action::CycleFilterPrev),
            KeyCode::Char(' ') => Some(Action::ToggleSelectPr),
            KeyCode::Char('a') => Some(Action::SelectAllVisible),
            KeyCode::Char('A') => Some(Action::DeselectAll),
            KeyCode::Char('r') => Some(Action::EnqueueSelected),
            KeyCode::Char('R') => Some(Action::Refresh),
            KeyCode::Char('o') => Some(Action::OpenInBrowser),
            KeyCode::Enter => Some(Action::ToggleDiff),
            KeyCode::Char('d') => {
                if self.show_diff {
                    Some(
                        if self.diff_focused {
                            Action::UnfocusDiff
                        } else {
                            Action::FocusDiff
                        },
                    )
                } else {
                    None
                }
            },
            _ => None,
        }
    }

    /// Maps an input event to the action it asks for.
    pub fn handle_event(&self, event: Event) -> (r: Option<Action>)
        requires
            self.handles_event(event),
        ensures
            r == self.event_action(event),
    {
        match event {
            Event::Tick => Some(Action::Tick),
            Event::Mouse(col, row) => {
                // Click on the diff panel focuses it (or unfocuses if already focused).
                if self.show_diff && self.diff_panel_rect.contains(col, row) {
                    return Some(
                        if self.diff_focused {
                            Action::UnfocusDiff
                        } else {
                            Action::FocusDiff
                        },
                    );
                }
                if let Some(filter) = self.click_tab(col, row) {
                    return Some(Action::SetFilter(filter));
                }
                // Click on a PR list item selects it.
                let r = &self.pr_list_rect;
                if r.contains(col, row) {
                    let idx = (row - r.y) as usize + self.list_state.offset;
                    return Some(Action::NavigateTo(idx));
                }
                None
            },
            Event::ScrollUp(col, row) => {
                if self.show_diff && self.diff_panel_rect.contains(col, row) {
                    return Some(Action::DiffScrollUp(3));
                }
                Some(Action::NavigateUp)
            },
            Event::ScrollDown(col, row) => {
                if self.show_diff && self.diff_panel_rect.contains(col, row) {
                    return Some(Action::DiffScrollDown(3));
                }
                Some(Action::NavigateDown)
            },
            Event::Key(code, modifiers) => self.key_event_action(code, modifiers),
        }
    }
}

} // verus!

verus! {

// ---------------------------------------------------------------------------
// Status messages
// ---------------------------------------------------------------------------

/// The plural ending for a count.
pub open spec fn plural(n: nat) -> Seq<char> {
    if n == 1 {
        ""@
    } else {
        "s"@
    }
}

/// The status line after a batch enqueue with `ok` successes and `failed`
/// failures.
pub open spec fn bulk_message(ok: nat, failed: nat) -> Seq<char> {
    if failed == 0 {
        decimal(ok) + " PR"@ + plural(ok) + " added to merge queue"@
    } else {
        decimal(ok) + " PR"@ + plural(ok) + " added; "@ + decimal(failed) + " failed"@
    }
}

pub fn bulk_enqueue_message(ok: usize, failed: usize) -> (r: String)
    ensures
        r@ == bulk_message(ok as nat, failed as nat),
{
    let mut s = String::new();
    append_decimal(&mut s, ok as u64);
    append_str(&mut s, " PR");
    if ok != 1 {
        append_str(&mut s, "s");
    }
    proof {
        reveal_strlit("");
        assert(s@ =~= Seq::<char>::empty() + decimal(ok as nat) + " PR"@ + plural(ok as nat));
    }
    if failed == 0 {
        append_str(&mut s, " added to merge queue");
    } else {
        append_str(&mut s, " added; ");
        append_decimal(&mut s, failed as u64);
        append_str(&mut s, " failed");
    }
    proof {
        assert(s@ =~= bulk_message(ok as nat, failed as nat));
    }
    s
}

/// The status line after one PR entered the merge queue.
pub open spec fn enqueued_message(number: u64) -> Seq<char> {
    "PR #"@ + decimal(number as nat) + " added to merge queue"@
}

pub fn enqueued_pr_message(number: u64) -> (r: String)
    ensures
        r@ == enqueued_message(number),
{
    let mut s = String::new();
    append_str(&mut s, "PR #");
    append_decimal(&mut s, number);
    append_str(&mut s, " added to merge queue");
    proof {
        assert(s@ =~= enqueued_message(number));
    }
    s
}

/// The status line after GitHub refused to queue a PR.
pub fn enqueue_error_message(number: u64, error: &str) -> (r: String)
    ensures
        r@ == "Error queuing PR #"@ + decimal(number as nat) + ": "@ + error@,
{
    let mut s = String::new();
    append_str(&mut s, "Error queuing PR #");
    append_decimal(&mut s, number);
    append_str(&mut s, ": ");
    append_str(&mut s, error);
    proof {
        assert(s@ =~= "Error queuing PR #"@ + decimal(number as nat) + ": "@ + error@);
    }
    s
}

/// The status line after a PR's page was opened in the browser.
pub fn browser_opened_message(number: u64) -> (r: String)
    ensures
        r@ == "Opened PR #"@ + decimal(number as nat) + " in browser"@,
{
    let mut s = String::new();
    append_str(&mut s, "Opened PR #");
    append_decimal(&mut s, number);
    append_str(&mut s, " in browser");
    proof {
        assert(s@ =~= "Opened PR #"@ + decimal(number as nat) + " in browser"@);
    }
    s
}

/// The status line after the browser could not be opened.
pub fn browser_error_message(error: &str) -> (r: String)
    ensures
        r@ == "Failed to open browser: "@ + error@,
{
    let mut s = String::new();
    append_str(&mut s, "Failed to open browser: ");
    append_str(&mut s, error);
    proof {
        assert(s@ =~= "Failed to open browser: "@ + error@);
    }
    s
}

} // verus!

verus! {

// ---------------------------------------------------------------------------
// The transition function
// ---------------------------------------------------------------------------

/// `usize::wrapping_add(n, 1)`.
pub open spec fn wrapping_inc(n: usize) -> usize {
    if n == usize::MAX {
        0
    } else {
        (n + 1) as usize
    }
}

/// `a.saturating_sub(b)`.
pub open spec fn sat_sub(a: usize, b: usize) -> usize {
    if a >= b {
        (a - b) as usize
    } else {
        0
    }
}

/// `a.saturating_add(b)`.
pub open spec fn sat_add(a: usize, b: usize) -> usize {
    if a + b <= usize::MAX {
        (a + b) as usize
    } else {
        usize::MAX
    }
}

/// `a.min(b)`.
pub open spec fn min_usize(a: usize, b: usize) -> usize {
    if a <= b {
        a
    } else {
        b
    }
}

/// The status message after a tick at `now`: it goes away once it is three
/// seconds old.
pub open spec fn expire(msg: Option<(String, u64)>, now: u64) -> Option<(String, u64)> {
    match msg {
        Some((_, at)) => if now >= at && now - at >= 3000 {
            None
        } else {
            msg
        },
        None => msg,
    }
}

/// The index of the first PR from `i` on with the given number.
pub open spec fn find_number(prs: Seq<PullRequest>, number: u64, i: int) -> Option<int>
    decreases prs.len() - i,
{
    if i < 0 || i >= prs.len() {
        None
    } else if prs[i].number == number {
        Some(i)
    } else {
        find_number(prs, number, i + 1)
    }
}

/// A PR that has entered the merge queue with the given entry, its status
/// derived anew.
pub open spec fn with_entry(p: PullRequest, e: MergeQueueEntry) -> PullRequest {
    PullRequest {
        merge_queue: Some(e),
        status: status_of(p.mergeable_state, Some(e), p.last_queue_removal),
        ..p
    }
}

/// The list after the first PR with the given number entered the queue.
pub open spec fn record_entry(prs: Seq<PullRequest>, number: u64, e: MergeQueueEntry) -> Seq<
    PullRequest,
> {
    match find_number(prs, number, 0) {
        Some(i) => prs.update(i, with_entry(prs[i], e)),
        None => prs,
    }
}

/// The list after the successful results of a batch enqueue, in order.
pub open spec fn record_results(
    prs: Seq<PullRequest>,
    rs: Seq<(u64, Result<MergeQueueEntry, String>)>,
) -> Seq<PullRequest>
    decreases rs.len(),
{
    if rs.len() == 0 {
        prs
    } else {
        let p = record_results(prs, rs.drop_last());
        match rs.last().1 {
            Ok(e) => record_entry(p, rs.last().0, e),
            Err(_) => p,
        }
    }
}

/// How many results of a batch enqueue succeeded.
pub open spec fn ok_count(rs: Seq<(u64, Result<MergeQueueEntry, String>)>) -> nat
    decreases rs.len(),
{
    if rs.len() == 0 {
        0
    } else {
        ok_count(rs.drop_last()) + if rs.last().1 is Ok {
            1nat
        } else {
            0nat
        }
    }
}

/// The (number, node id) of the PRs below `n` that are selected and not in
/// the merge queue, in list order.
pub open spec fn enqueue_targets(prs: Seq<PullRequest>, sel: Set<u64>, n: int) -> Seq<(u64, String)>
    decreases n,
{
    if n <= 0 {
        Seq::empty()
    } else {
        let t = enqueue_targets(prs, sel, n - 1);
        let p = prs[n - 1];
        if sel.contains(p.number) && p.merge_queue is None {
            t.push((p.number, p.node_id))
        } else {
            t
        }
    }
}

impl App {
    /// Rows that Page Up / Page Down move by.
    pub open spec fn page(self) -> usize {
        if self.list_height >= 1 {
            self.list_height
        } else {
            1
        }
    }

    /// The selection is on a visible row, or on row 0 of an empty list.
    pub open spec fn selection_in_range(self) -> bool {
        self.selected == 0 || self.selected < self.visible().len()
    }

    /// The state with row `s` selected and the diff scrolled to its top.
    pub open spec fn select_row(self, s: usize) -> App {
        App {
            selected: s,
            list_state: ListState { selected: Some(s), ..self.list_state },
            diff_scroll: 0,
            ..self
        }
    }

    /// The state with the selection clamped into the visible list; an empty
    /// list loses its selection and scrolls back to its top.
    pub open spec fn clamped(self) -> App {
        let count = self.visible().len();
        if count == 0 {
            App { selected: 0, list_state: ListState { selected: None, offset: 0 }, ..self }
        } else {
            let s = min_usize(self.selected, (count - 1) as usize);
            App { selected: s, list_state: ListState { selected: Some(s), ..self.list_state }, ..self }
        }
    }

    /// The diff fetch that the selected PR needs while the panel is open:
    /// one for a PR whose diff is not cached yet.
    pub open spec fn diff_fetch(self) -> Option<Command> {
        match self.selected_index() {
            Some(i) => if self.show_diff && !self.diff_cache@.contains_key(
                self.prs@[i as int].number,
            ) {
                Some(Command::FetchDiff(self.prs@[i as int].number))
            } else {
                None
            },
            None => None,
        }
    }

    /// The row a navigation action moves the selection to, or `None` where
    /// it leaves the selection alone.
    pub open spec fn navigation_target(self, action: Action) -> Option<usize> {
        let count = self.visible().len();
        match action {
            Action::NavigateUp => if count > 0 {
                Some(sat_sub(self.selected, 1))
            } else {
                None
            },
            Action::NavigateDown => if count > 0 {
                Some(min_usize((self.selected + 1) as usize, (count - 1) as usize))
            } else {
                None
            },
            Action::NavigatePageUp => Some(sat_sub(self.selected, self.page())),
            Action::NavigatePageDown => if count > 0 {
                Some(min_usize((self.selected + self.page()) as usize, (count - 1) as usize))
            } else {
                None
            },
            Action::NavigateTo(idx) => if count > 0 {
                Some(min_usize(idx, (count - 1) as usize))
            } else {
                None
            },
            Action::NavigateHome => Some(0),
            Action::NavigateEnd => if count > 0 {
                Some((count - 1) as usize)
            } else {
                None
            },
            _ => None,
        }
    }

    pub open spec fn is_navigation(action: Action) -> bool {
        match action {
            Action::NavigateUp | Action::NavigateDown | Action::NavigatePageUp
            | Action::NavigatePageDown | Action::NavigateTo(_) | Action::NavigateHome
            | Action::NavigateEnd => true,
            _ => false,
        }
    }

    /// The state after a navigation action.
    pub open spec fn navigated(self, action: Action) -> App {
        match self.navigation_target(action) {
            Some(s) => self.select_row(s),
            None => self,
        }
    }

    /// The numbers of the first `k` visible PRs.
    pub open spec fn visible_numbers_below(self, k: int) -> Set<u64> {
        Set::new(
            |n: u64|
                exists|j: int|
                    0 <= j < k && j < self.visible().len() && self.prs@[#[trigger] self.visible()[j] as int].number
                        == n,
        )
    }

    /// The numbers of the visible PRs.
    pub open spec fn visible_numbers(self) -> Set<u64> {
        Set::new(
            |n: u64|
                exists|k: int|
                    0 <= k < self.visible().len() && self.prs@[#[trigger] self.visible()[k] as int].number
                        == n,
        )
    }

    /// What `EnqueueSelected` does: nothing while a request is in flight;
    /// with a multi-selection, the selected PRs not in the queue go out in
    /// one batch and the selection is cleared; otherwise the selected row's
    /// PR goes out alone if it is not in the queue.
    pub open spec fn enqueue_post(self, new: App, cmd: Option<Command>) -> bool {
        if self.enqueue_in_flight {
            new == self && cmd is None
        } else if !self.selected_prs@.is_empty() {
            let targets = enqueue_targets(self.prs@, self.selected_prs@, self.prs@.len() as int);
            &&& new.selected_prs@ == Set::<u64>::empty()
            &&& if targets.len() > 0 {
                &&& new == App {
                    selected_prs: new.selected_prs,
                    enqueue_in_flight: true,
                    enqueue_total: targets.len() as usize,
                    ..self
                }
                &&& cmd matches Some(Command::EnqueueBatch(v)) && v@ == targets
            } else {
                new == App { selected_prs: new.selected_prs, ..self } && cmd is None
            }
        } else {
            match self.selected_index() {
                Some(i) => if self.prs@[i as int].merge_queue is None {
                    &&& new == App { enqueue_in_flight: true, enqueue_total: 1, ..self }
                    &&& cmd == Some(
                        Command::EnqueuePr {
                            number: self.prs@[i as int].number,
                            node_id: self.prs@[i as int].node_id,
                        },
                    )
                } else {
                    new == self && cmd is None
                },
                None => new == self && cmd is None,
            }
        }
    }

    /// The inputs on which an action is applied without overflow: moving
    /// down past the last row of `usize` is left out.
    pub open spec fn handles_action(self, action: Action) -> bool {
        let count = self.visible().len();
        match action {
            Action::NavigateDown => count > 0 ==> self.selected < usize::MAX,
            Action::NavigatePageDown => count > 0 ==> self.selected + self.page() <= usize::MAX,
            _ => true,
        }
    }
}

/// How `update` changes the state and what outside work it asks for, action
/// by action, at session time `now` (milliseconds).
pub open spec fn update_post(old: App, action: Action, now: u64, new: App, cmd: Option<Command>) -> bool {
    match action {
        Action::Tick => cmd is None && new == App {
            tick_count: wrapping_inc(old.tick_count),
            status_msg: expire(old.status_msg, now),
            ..old
        },
        Action::Refresh => cmd == Some(Command::FetchPrs) && new == App {
            load_state: LoadState::Loading,
            load_progress: None,
            ..old
        },
        Action::NavigateUp | Action::NavigateDown | Action::NavigatePageUp
        | Action::NavigatePageDown | Action::NavigateTo(_) | Action::NavigateHome
        | Action::NavigateEnd => new == old.navigated(action) && cmd == new.diff_fetch(),
        Action::CycleFilterNext => cmd is None && new == (App {
            active_filter: old.active_filter.next_spec(),
            selected: 0,
            ..old
        }).clamped(),
        Action::CycleFilterPrev => cmd is None && new == (App {
            active_filter: old.active_filter.prev_spec(),
            selected: 0,
            ..old
        }).clamped(),
        Action::SetFilter(f) => cmd is None && new == if old.active_filter != f {
            (App { active_filter: f, selected: 0, ..old }).clamped()
        } else {
            old
        },
        Action::ToggleSelectPr => {
            &&& cmd is None
            &&& new == App { selected_prs: new.selected_prs, ..old }
            &&& new.selected_prs@ == match old.selected_index() {
                Some(i) => {
                    let n = old.prs@[i as int].number;
                    if old.selected_prs@.contains(n) {
                        old.selected_prs@.remove(n)
                    } else {
                        old.selected_prs@.insert(n)
                    }
                },
                None => old.selected_prs@,
            }
        },
        Action::SelectAllVisible => {
            &&& cmd is None
            &&& new == App { selected_prs: new.selected_prs, ..old }
            &&& new.selected_prs@ == old.selected_prs@.union(old.visible_numbers())
        },
        Action::DeselectAll => {
            &&& cmd is None
            &&& new == App { selected_prs: new.selected_prs, ..old }
            &&& new.selected_prs@ == Set::<u64>::empty()
        },
        Action::EnqueueSelected => old.enqueue_post(new, cmd),
        Action::BulkEnqueued(rs) => {
            &&& cmd is None
            &&& new.prs@ == record_results(old.prs@, rs@)
            &&& new == App {
                status_msg: new.status_msg,
                ..(App { prs: new.prs, enqueue_in_flight: false, enqueue_total: 0, ..old }).clamped()
            }
            &&& new.status_msg matches Some((m, at)) && at == now && m@ == bulk_message(
                ok_count(rs@),
                (rs@.len() - ok_count(rs@)) as nat,
            )
        },
        Action::EnqueueFailed => cmd is None && new == App { enqueue_in_flight: false, enqueue_total: 0, ..old },
        Action::PrEnqueued(number, entry) => {
            &&& cmd is None
            &&& new.prs@ == record_entry(old.prs@, number, entry)
            &&& new == App {
                status_msg: new.status_msg,
                ..(App { prs: new.prs, enqueue_in_flight: false, enqueue_total: 0, ..old }).clamped()
            }
            &&& new.status_msg matches Some((m, at)) && at == now && m@ == enqueued_message(number)
        },
        Action::OpenInBrowser => new == old && cmd == match old.selected_index() {
            Some(i) => Some(
                Command::OpenUrl {
                    number: old.prs@[i as int].number,
                    url: old.prs@[i as int].html_url,
                },
            ),
            None => None,
        },
        Action::ToggleDiff => if old.show_diff {
            cmd is None && new == App { show_diff: false, diff_focused: false, ..old }
        } else {
            new == App { show_diff: true, diff_focused: false, diff_scroll: 0, ..old } && cmd
                == new.diff_fetch()
        },
        Action::FocusDiff => cmd is None && new == App { diff_focused: true, ..old },
        Action::UnfocusDiff => cmd is None && new == App { diff_focused: false, ..old },
        Action::DiffLoaded(number, files) => {
            &&& cmd is None
            &&& new == App { diff_cache: new.diff_cache, ..old }
            &&& new.diff_cache@ == old.diff_cache@.insert(number, DiffState::Loaded(files))
        },
        Action::DiffError(number, msg) => {
            &&& cmd is None
            &&& new == App { diff_cache: new.diff_cache, ..old }
            &&& new.diff_cache@ == old.diff_cache@.insert(number, DiffState::Error(msg))
        },
        Action::DiffScrollUp(amount) => cmd is None && new == App {
            diff_scroll: sat_sub(old.diff_scroll, amount),
            ..old
        },
        Action::DiffScrollDown(amount) => cmd is None && new == App {
            diff_scroll: sat_add(old.diff_scroll, amount),
            ..old
        },
        Action::Quit => cmd is None && new == App { should_quit: true, ..old },
        Action::LoadProgress(loaded, total) => cmd is None && new == App {
            load_progress: Some((loaded, total)),
            ..old
        },
        Action::DataLoaded(prs) => {
            &&& new == (App {
                prs: prs,
                load_state: LoadState::Idle,
                load_progress: None,
                ..old
            }).clamped()
            &&& cmd == new.diff_fetch()
        },
        Action::LoadError(msg) => cmd is None && new == App {
            load_state: LoadState::Error(msg),
            load_progress: None,
            ..old
        },
        Action::StatusMessage(msg) => cmd is None && new == App {
            status_msg: Some((msg, now)),
            ..old
        },
    }
}

} // verus!

verus! {

impl App {
    fn clamp_selection(&mut self)
        ensures
            *final(self) == old(self).clamped(),
    {
        let count = visible_indices(&self.prs, self.active_filter).len();
        if count == 0 {
            self.selected = 0;
            // Clearing the selection also scrolls the list back to its top.
            self.list_state.selected = None;
            self.list_state.offset = 0;
        } else {
            if self.selected > count - 1 {
                self.selected = count - 1;
            }
            self.list_state.selected = Some(self.selected);
        }
    }

    /// The fetch a PR's diff needs: none once it is cached.
    fn fetch_diff_if_needed(&self, pr_number: u64) -> (r: Option<Command>)
        ensures
            r == if self.diff_cache@.contains_key(pr_number) {
                None
            } else {
                Some(Command::FetchDiff(pr_number))
            },
    {
        if self.diff_cache.contains_key(&pr_number) {
            None
        } else {
            Some(Command::FetchDiff(pr_number))
        }
    }

    fn diff_fetch_command(&self) -> (r: Option<Command>)
        ensures
            r == self.diff_fetch(),
    {
        if self.show_diff {
            if let Some(pr) = self.selected_pr() {
                return self.fetch_diff_if_needed(pr.number);
            }
        }
        None
    }

    fn visible_count(&self) -> (r: usize)
        ensures
            r == self.visible().len(),
    {
        visible_indices(&self.prs, self.active_filter).len()
    }

    fn select_row_exec(&mut self, s: usize)
        ensures
            *final(self) == old(self).select_row(s),
    {
        self.selected = s;
        self.list_state.selected = Some(s);
        self.diff_scroll = 0;
    }

    fn navigate(&mut self, action: &Action) -> (r: Option<Command>)
        requires
            App::is_navigation(*action),
            old(self).handles_action(*action),
        ensures
            *final(self) == old(self).navigated(*action),
            r == final(self).diff_fetch(),
    {
        let count = self.visible_count();
        match action {
            Action::NavigateUp => {
                if count > 0 {
                    let s = if self.selected >= 1 { self.selected - 1 } else { 0 };
                    self.select_row_exec(s);
                }
            },
            Action::NavigateDown => {
                if count > 0 {
                    let s = self.selected + 1;
                    let s = if s <= count - 1 { s } else { count - 1 };
                    self.select_row_exec(s);
                }
            },
            Action::NavigatePageUp => {
                let page = if self.list_height >= 1 { self.list_height } else { 1 };
                let s = if self.selected >= page { self.selected - page } else { 0 };
                self.select_row_exec(s);
            },
            Action::NavigatePageDown => {
                if count > 0 {
                    let page = if self.list_height >= 1 { self.list_height } else { 1 };
                    let s = self.selected + page;
                    let s = if s <= count - 1 { s } else { count - 1 };
                    self.select_row_exec(s);
                }
            },
            Action::NavigateTo(idx) => {
                if count > 0 {
                    let s = if *idx <= count - 1 { *idx } else { count - 1 };
                    self.select_row_exec(s);
                }
            },
            Action::NavigateHome => {
                self.select_row_exec(0);
            },
            Action::NavigateEnd => {
                if count > 0 {
                    self.select_row_exec(count - 1);
                }
            },
            _ => {},
        }
        self.diff_fetch_command()
    }
}

} // verus!

verus! {

impl App {
    fn toggle_selected_pr(&mut self)
        ensures
            *final(self) == (App { selected_prs: final(self).selected_prs, ..*old(self) }),
            final(self).selected_prs@ == match old(self).selected_index() {
                Some(i) => {
                    let n = old(self).prs@[i as int].number;
                    if old(self).selected_prs@.contains(n) {
                        old(self).selected_prs@.remove(n)
                    } else {
                        old(self).selected_prs@.insert(n)
                    }
                },
                None => old(self).selected_prs@,
            },
    {
        let n = match self.selected_pr() {
            Some(pr) => pr.number,
            None => return,
        };
        if !self.selected_prs.remove(&n) {
            self.selected_prs.insert(n);
        }
    }

    fn select_all_visible(&mut self)
        ensures
            *final(self) == (App { selected_prs: final(self).selected_prs, ..*old(self) }),
            final(self).selected_prs@ == old(self).selected_prs@.union(old(self).visible_numbers()),
    {
        let ids = visible_indices(&self.prs, self.active_filter);
        proof {
            lemma_visible_bounded(self.prs@, self.active_filter);
        }
        let ghost vis = self.visible();
        let ghost start = self.selected_prs@;
        let mut k: usize = 0;
        proof {
            assert(start.union(self.visible_numbers_below(0)) =~= start);
        }
        while k < ids.len()
            invariant
                *self == (App { selected_prs: self.selected_prs, ..*old(self) }),
                start == old(self).selected_prs@,
                ids@ == vis,
                vis == self.visible(),
                k <= ids@.len(),
                forall|j: int| 0 <= j < ids@.len() ==> #[trigger] ids@[j] < self.prs@.len(),
                self.selected_prs@ == start.union(self.visible_numbers_below(k as int)),
            decreases ids.len() - k,
        {
            let n = self.prs[ids[k]].number;
            self.selected_prs.insert(n);
            k = k + 1;
            proof {
                assert(self.prs@[vis[k - 1] as int].number == n);
                assert(self.selected_prs@ =~= start.union(self.visible_numbers_below(k as int)));
            }
        }
        proof {
            assert(self.visible_numbers_below(vis.len() as int) =~= self.visible_numbers());
        }
    }

    /// The (number, node id) of the selected PRs that are not in the queue.
    fn enqueue_target_list(&self) -> (r: Vec<(u64, String)>)
        ensures
            r@ == enqueue_targets(self.prs@, self.selected_prs@, self.prs@.len() as int),
    {
        let mut r: Vec<(u64, String)> = Vec::new();
        let mut i: usize = 0;
        while i < self.prs.len()
            invariant
                i <= self.prs@.len(),
                r@ == enqueue_targets(self.prs@, self.selected_prs@, i as int),
            decreases self.prs.len() - i,
        {
            let pr = &self.prs[i];
            if self.selected_prs.contains(&pr.number) && pr.merge_queue.is_none() {
                r.push((pr.number, pr.node_id.clone()));
            }
            i = i + 1;
        }
        r
    }

    fn enqueue_selected(&mut self) -> (cmd: Option<Command>)
        ensures
            old(self).enqueue_post(*final(self), cmd),
    {
        if self.enqueue_in_flight {
            return None;
        }
        if !self.selected_prs.is_empty() {
            // Batch path: enqueue all selected PRs not already in the queue.
            let targets = self.enqueue_target_list();
            self.selected_prs.clear();
            if targets.len() > 0 {
                self.enqueue_in_flight = true;
                self.enqueue_total = targets.len();
                Some(Command::EnqueueBatch(targets))
            } else {
                None
            }
        } else {
            // Single-PR fallback path.
            let (number, node_id) = match self.selected_pr() {
                Some(pr) => {
                    if pr.merge_queue.is_some() {
                        return None;
                    }
                    (pr.number, pr.node_id.clone())
                },
                None => return None,
            };
            self.enqueue_in_flight = true;
            self.enqueue_total = 1;
            Some(Command::EnqueuePr { number, node_id })
        }
    }
}

} // verus!

verus! {

impl App {
    /// Puts the first PR with the given number into the merge queue with the
    /// entry, deriving its status anew.
    fn record_queue_entry(&mut self, number: u64, entry: MergeQueueEntry)
        ensures
            final(self).prs@ == record_entry(old(self).prs@, number, entry),
            *final(self) == (App { prs: final(self).prs, ..*old(self) }),
    {
        let mut i: usize = 0;
        while i < self.prs.len()
            invariant
                *self == *old(self),
                i <= self.prs@.len(),
                find_number(self.prs@, number, 0) == find_number(self.prs@, number, i as int),
            decreases self.prs.len() - i,
        {
            if self.prs[i].number == number {
                let p = &mut self.prs[i];
                p.merge_queue = Some(entry);
                p.status = PullRequest::compute_status(
                    &p.mergeable_state,
                    &p.merge_queue,
                    p.is_draft,
                    &p.last_queue_removal,
                );
                return;
            }
            i = i + 1;
        }
    }

    /// Records the successful results of a batch enqueue; returns how many
    /// succeeded.
    fn record_bulk_results(&mut self, results: Vec<(u64, Result<MergeQueueEntry, String>)>) -> (ok: usize)
        ensures
            final(self).prs@ == record_results(old(self).prs@, results@),
            *final(self) == (App { prs: final(self).prs, ..*old(self) }),
            ok == ok_count(results@),
            ok <= results@.len(),
    {
        let ghost rs = results@;
        let n = results.len();
        let mut rest = results;
        let mut ok: usize = 0;
        let mut i: usize = 0;
        while i < n
            invariant
                n == rs.len(),
                i <= n,
                rest@ == rs.skip(i as int),
                self.prs@ == record_results(old(self).prs@, rs.take(i as int)),
                *self == (App { prs: self.prs, ..*old(self) }),
                ok == ok_count(rs.take(i as int)),
                ok <= i,
            decreases n - i,
        {
            proof {
                assert(rs.take(i + 1).drop_last() =~= rs.take(i as int));
                assert(rs.take(i + 1).last() == rs[i as int]);
                assert(rest@[0] == rs[i as int]);
            }
            let (number, result) = rest.remove(0);
            match result {
                Ok(entry) => {
                    ok = ok + 1;
                    self.record_queue_entry(number, entry);
                },
                Err(_) => {},
            }
            i = i + 1;
            proof {
                assert(rest@ =~= rs.skip(i as int));
            }
        }
        proof {
            assert(rs.take(n as int) =~= rs);
        }
        ok
    }
}

} // verus!

verus! {

impl App {
    /// Applies an action at session time `now` (milliseconds) and returns
    /// the outside work it asks for, if any.
    #[verifier::spinoff_prover]
    #[verifier::rlimit(40)]
    pub fn update(&mut self, action: Action, now: u64) -> (cmd: Option<Command>)
        requires
            old(self).handles_action(action),
        ensures
            update_post(*old(self), action, now, *final(self), cmd),
    {
        match action {
            Action::Tick => {
                self.tick_count = self.tick_count.wrapping_add(1);
                let expired = match &self.status_msg {
                    Some((_, at)) => now >= *at && now - *at >= 3000,
                    None => false,
                };
                if expired {
                    self.status_msg = None;
                }
                None
            },
            Action::Refresh => {
                self.load_state = LoadState::Loading;
                self.load_progress = None;
                Some(Command::FetchPrs)
            },
            Action::NavigateUp | Action::NavigateDown | Action::NavigatePageUp
            | Action::NavigatePageDown | Action::NavigateTo(_) | Action::NavigateHome
            | Action::NavigateEnd => self.navigate(&action),
            Action::CycleFilterNext => {
                self.active_filter = self.active_filter.next();
                self.selected = 0;
                self.clamp_selection();
                None
            },
            Action::CycleFilterPrev => {
                self.active_filter = self.active_filter.prev();
                self.selected = 0;
                self.clamp_selection();
                None
            },
            Action::SetFilter(filter) => {
                if self.active_filter != filter {
                    self.active_filter = filter;
                    self.selected = 0;
                    self.clamp_selection();
                }
                None
            },
            Action::ToggleSelectPr => {
                self.toggle_selected_pr();
                None
            },
            Action::SelectAllVisible => {
                self.select_all_visible();
                None
            },
            Action::DeselectAll => {
                self.selected_prs.clear();
                None
            },
            Action::EnqueueSelected => self.enqueue_selected(),
            Action::BulkEnqueued(results) => {
                let total = results.len();
                self.enqueue_in_flight = false;
                self.enqueue_total = 0;
                let ok_count = self.record_bulk_results(results);
                self.clamp_selection();
                let status = bulk_enqueue_message(ok_count, total - ok_count);
                self.status_msg = Some((status, now));
                None
            },
            Action::EnqueueFailed => {
                self.enqueue_in_flight = false;
                self.enqueue_total = 0;
                None
            },
            Action::PrEnqueued(pr_number, entry) => {
                self.enqueue_in_flight = false;
                self.enqueue_total = 0;
                // Update the PR in place — no full reload needed.
                self.record_queue_entry(pr_number, entry);
                self.clamp_selection();
                self.status_msg = Some((enqueued_pr_message(pr_number), now));
                None
            },
            Action::OpenInBrowser => {
                match self.selected_pr() {
                    Some(pr) => Some(Command::OpenUrl { number: pr.number, url: pr.html_url.clone() }),
                    None => None,
                }
            },
            Action::ToggleDiff => {
                if self.show_diff {
                    // Close the panel entirely (regardless of focus state).
                    self.show_diff = false;
                    self.diff_focused = false;
                    None
                } else {
                    // Open the diff panel without stealing focus.
                    self.show_diff = true;
                    self.diff_focused = false;
                    self.diff_scroll = 0;
                    self.diff_fetch_command()
                }
            },
            Action::FocusDiff => {
                self.diff_focused = true;
                None
            },
            Action::UnfocusDiff => {
                self.diff_focused = false;
                None
            },
            Action::DiffLoaded(pr_number, files) => {
                self.diff_cache.insert(pr_number, DiffState::Loaded(files));
                None
            },
            Action::DiffError(pr_number, msg) => {
                self.diff_cache.insert(pr_number, DiffState::Error(msg));
                None
            },
            Action::DiffScrollUp(amount) => {
                self.diff_scroll = self.diff_scroll.saturating_sub(amount);
                None
            },
            Action::DiffScrollDown(amount) => {
                self.diff_scroll = self.diff_scroll.saturating_add(amount);
                None
            },
            Action::Quit => {
                self.should_quit = true;
                None
            },
            Action::LoadProgress(loaded, total) => {
                self.load_progress = Some((loaded, total));
                None
            },
            Action::DataLoaded(prs) => {
                self.prs = prs;
                self.load_state = LoadState::Idle;
                self.load_progress = None;
                self.clamp_selection();
                self.diff_fetch_command()
            },
            Action::LoadError(msg) => {
                self.load_state = LoadState::Error(msg);
                self.load_progress = None;
                None
            },
            Action::StatusMessage(msg) => {
                self.status_msg = Some((msg, now));
                None
            },
        }
    }
}

} // verus!

verus! {

// ---------------------------------------------------------------------------
// Laws
// ---------------------------------------------------------------------------

/// Cycling forward then backward (or backward then forward) returns to the
/// same filter, and four steps forward go round the whole tab bar.
pub proof fn lemma_filter_cycle(f: Filter)
    ensures
        f.next_spec().prev_spec() == f,
        f.prev_spec().next_spec() == f,
        f.next_spec().next_spec().next_spec().next_spec() == f,
        f.next_spec() != f,
{
}

/// The tab order lists each filter once, and cycling forward walks it in
/// order.
pub proof fn lemma_tab_order(i: int)
    requires
        0 <= i < 4,
    ensures
        filter_at(i) is Some,
        filter_at((i + 1) % 4) == Some(filter_at(i)->0.next_spec()),
        forall|j: int| 0 <= j < 4 && j != i ==> filter_at(j) != filter_at(i),
{
}

/// Queued and Removed never share a PR; a Ready PR is never queued; the
/// Active view holds every PR.
pub proof fn lemma_filters_partition(pr: PullRequest)
    ensures
        !(Filter::Queued.matches_spec(pr) && Filter::Removed.matches_spec(pr)),
        Filter::Ready.matches_spec(pr) ==> !Filter::Queued.matches_spec(pr),
        Filter::Active.matches_spec(pr),
{
}

pub proof fn lemma_matching_all(prs: Seq<PullRequest>, n: int)
    requires
        0 <= n <= prs.len(),
        prs.len() <= usize::MAX,
    ensures
        matching_indices(prs, Filter::Active, n).len() == n,
        forall|k: int| 0 <= k < n ==> matching_indices(prs, Filter::Active, n)[k] == k,
    decreases n,
{
    if n > 0 {
        lemma_matching_all(prs, n - 1);
    }
}

/// The Active view shows every PR in list order, and its tab counts all PRs.
pub proof fn lemma_active_shows_all(prs: Seq<PullRequest>)
    requires
        prs.len() <= usize::MAX,
    ensures
        visible_indices_of(prs, Filter::Active).len() == prs.len(),
        forall|k: int| 0 <= k < prs.len() ==> visible_indices_of(prs, Filter::Active)[k] == k,
{
    lemma_matching_all(prs, prs.len() as int);
}

proof fn lemma_matching_increasing(prs: Seq<PullRequest>, f: Filter, n: int)
    requires
        n <= prs.len(),
        prs.len() <= usize::MAX,
    ensures
        forall|a: int, b: int|
            0 <= a < b < matching_indices(prs, f, n).len() ==> matching_indices(prs, f, n)[a]
                < matching_indices(prs, f, n)[b],
        forall|k: int|
            0 <= k < matching_indices(prs, f, n).len() ==> f.matches_spec(
                prs[#[trigger] matching_indices(prs, f, n)[k] as int],
            ),
        forall|i: int|
            0 <= i < n && f.matches_spec(prs[i]) ==> #[trigger] matching_indices(
                prs,
                f,
                n,
            ).contains(i as usize),
    decreases n,
{
    if n > 0 {
        lemma_matching_increasing(prs, f, n - 1);
        lemma_matching_indices_bounded(prs, f, n - 1);
        let m = matching_indices(prs, f, n - 1);
        assert forall|i: int| 0 <= i < n && f.matches_spec(prs[i]) implies #[trigger] matching_indices(
            prs,
            f,
            n,
        ).contains(i as usize) by {
            if i < n - 1 {
                assert(m.contains(i as usize));
                let k = choose|k: int| 0 <= k < m.len() && m[k] == i as usize;
                assert(matching_indices(prs, f, n)[k] == i as usize);
            } else {
                assert(matching_indices(prs, f, n)[m.len() as int] == i as usize);
            }
        }
    }
}

/// A view other than Queued shows exactly the PRs that its filter keeps, in
/// list order; the Queued view shows the same PRs sorted by merge queue
/// position, PRs at one position keeping their list order.
pub proof fn lemma_visible_is_filtered(prs: Seq<PullRequest>, f: Filter)
    requires
        prs.len() <= usize::MAX,
    ensures
        f != Filter::Queued ==> forall|a: int, b: int|
            0 <= a < b < visible_indices_of(prs, f).len() ==> visible_indices_of(prs, f)[a]
                < visible_indices_of(prs, f)[b],
        forall|i: int|
            0 <= i < prs.len() ==> (f.matches_spec(prs[i]) <==> #[trigger] visible_indices_of(
                prs,
                f,
            ).contains(i as usize)),
        f == Filter::Queued ==> crate::sort::sorted_by_key(
            visible_indices_of(prs, f),
            queue_order(prs),
        ),
        f == Filter::Queued ==> forall|k: int|
            #[trigger] crate::sort::with_key(visible_indices_of(prs, f), queue_order(prs), k)
                == crate::sort::with_key(
                matching_indices(prs, f, prs.len() as int),
                queue_order(prs),
                k,
            ),
{
    broadcast use vstd::seq_lib::group_to_multiset_ensures;
    let n = prs.len() as int;
    let m = matching_indices(prs, f, n);
    lemma_matching_increasing(prs, f, n);
    lemma_matching_indices_bounded(prs, f, n);
    if f == Filter::Queued {
        crate::sort::lemma_sort_by_key_permutes(m, queue_order(prs));
        crate::sort::lemma_sort_by_key_sorted(m, queue_order(prs));
        assert forall|k: int| #[trigger] crate::sort::with_key(visible_indices_of(prs, f), queue_order(prs), k)
            == crate::sort::with_key(m, queue_order(prs), k) by {
            crate::sort::lemma_sort_by_key_stable(m, queue_order(prs), k);
        }
        let s = visible_indices_of(prs, f);
        assert forall|i: int| 0 <= i < prs.len() implies (f.matches_spec(prs[i]) <==> #[trigger] s.contains(
            i as usize,
        )) by {
            assert(s.to_multiset().count(i as usize) == m.to_multiset().count(i as usize));
            if m.contains(i as usize) {
                let k = choose|k: int| 0 <= k < m.len() && m[k] == i as usize;
                assert(f.matches_spec(prs[m[k] as int]));
            }
        }
    } else {
        assert forall|i: int| 0 <= i < prs.len() implies (f.matches_spec(prs[i]) <==> #[trigger] m.contains(
            i as usize,
        )) by {
            if m.contains(i as usize) {
                let k = choose|k: int| 0 <= k < m.len() && m[k] == i as usize;
                assert(f.matches_spec(prs[m[k] as int]));
            }
        }
    }
}

} // verus!

verus! {

/// Clamping puts the selection in range.
pub proof fn lemma_clamped_in_range(app: App)
    ensures
        app.clamped().selection_in_range(),
        app.clamped().visible() == app.visible(),
{
}

/// Whatever the action, a selection in range stays in range: the selected
/// row is always a visible PR, or row 0 of an empty view.
pub proof fn lemma_update_keeps_selection_in_range(
    old: App,
    action: Action,
    now: u64,
    new: App,
    cmd: Option<Command>,
)
    requires
        update_post(old, action, now, new, cmd),
        old.selection_in_range(),
    ensures
        new.selection_in_range(),
{
    match action {
        Action::CycleFilterNext => {
            lemma_clamped_in_range(App { active_filter: old.active_filter.next_spec(), selected: 0, ..old });
        },
        Action::CycleFilterPrev => {
            lemma_clamped_in_range(App { active_filter: old.active_filter.prev_spec(), selected: 0, ..old });
        },
        Action::SetFilter(f) => {
            lemma_clamped_in_range(App { active_filter: f, selected: 0, ..old });
        },
        Action::BulkEnqueued(rs) => {
            lemma_clamped_in_range(App { prs: new.prs, enqueue_in_flight: false, enqueue_total: 0, ..old });
        },
        Action::PrEnqueued(number, entry) => {
            lemma_clamped_in_range(App { prs: new.prs, enqueue_in_flight: false, enqueue_total: 0, ..old });
        },
        Action::DataLoaded(prs) => {
            lemma_clamped_in_range(App {
                prs: prs,
                load_state: LoadState::Idle,
                load_progress: None,
                ..old
            });
        },
        _ => {},
    }
}

/// Selecting the same row twice with Space leaves the multi-selection as it
/// was.
pub proof fn lemma_toggle_select_twice(
    a: App,
    b: App,
    c: App,
    t1: u64,
    t2: u64,
    c1: Option<Command>,
    c2: Option<Command>,
)
    requires
        update_post(a, Action::ToggleSelectPr, t1, b, c1),
        update_post(b, Action::ToggleSelectPr, t2, c, c2),
    ensures
        c.selected_prs@ == a.selected_prs@,
        c == (App { selected_prs: c.selected_prs, ..a }),
{
    assert(b.visible() == a.visible());
    match a.selected_index() {
        Some(i) => {
            let n = a.prs@[i as int].number;
            if a.selected_prs@.contains(n) {
                assert(a.selected_prs@.remove(n).insert(n) =~= a.selected_prs@);
            } else {
                assert(a.selected_prs@.insert(n).remove(n) =~= a.selected_prs@);
            }
        },
        None => {},
    }
}

/// Toggling the diff panel twice closes it again when it was closed, and
/// opens it again when it was open; either way the diff loses focus.
pub proof fn lemma_toggle_diff_twice(
    a: App,
    b: App,
    c: App,
    t1: u64,
    t2: u64,
    c1: Option<Command>,
    c2: Option<Command>,
)
    requires
        update_post(a, Action::ToggleDiff, t1, b, c1),
        update_post(b, Action::ToggleDiff, t2, c, c2),
    ensures
        c.show_diff == a.show_diff,
        !c.diff_focused,
        c.prs == a.prs,
        c.selected == a.selected,
{
}

/// While an enqueue request is in flight, another enqueue request is not
/// sent and the state does not change.
pub proof fn lemma_no_second_enqueue_in_flight(a: App, b: App, now: u64, cmd: Option<Command>)
    requires
        a.enqueue_in_flight,
        update_post(a, Action::EnqueueSelected, now, b, cmd),
    ensures
        cmd is None,
        b == a,
{
}

/// Pressing Home while the diff has focus scrolls the diff back to its top,
/// and End scrolls it as far down as a `usize` goes.
pub proof fn lemma_home_end_scroll_diff(a: App, b: App, now: u64, cmd: Option<Command>, ctrl: bool)
    requires
        a.diff_focused,
    ensures
        a.key_action(KeyCode::Home, KeyModifiers { control: ctrl }) == Some(
            Action::DiffScrollUp(usize::MAX),
        ),
        update_post(a, Action::DiffScrollUp(usize::MAX), now, b, cmd) ==> b.diff_scroll == 0,
        a.key_action(KeyCode::End, KeyModifiers { control: ctrl }) == Some(
            Action::DiffScrollDown(usize::MAX),
        ),
        update_post(a, Action::DiffScrollDown(usize::MAX), now, b, cmd) ==> b.diff_scroll
            == usize::MAX,
{
}

/// The list keys of the key table: Home and End jump to the first and the
/// last visible PR, Tab and Shift+Tab cycle the filter forward and back,
/// and Enter opens the diff panel when it is closed.
pub proof fn lemma_list_keys(a: App, b: App, now: u64, cmd: Option<Command>, ctrl: bool)
    requires
        !a.diff_focused,
    ensures
        a.key_action(KeyCode::Home, KeyModifiers { control: ctrl }) == Some(Action::NavigateHome),
        update_post(a, Action::NavigateHome, now, b, cmd) ==> b.selected == 0,
        a.key_action(KeyCode::End, KeyModifiers { control: ctrl }) == Some(Action::NavigateEnd),
        update_post(a, Action::NavigateEnd, now, b, cmd) && a.visible().len() > 0 ==> b.selected
            == a.visible().len() - 1,
        a.key_action(KeyCode::Tab, KeyModifiers { control: ctrl }) == Some(Action::CycleFilterNext),
        update_post(a, Action::CycleFilterNext, now, b, cmd) ==> b.active_filter
            == a.active_filter.next_spec(),
        a.key_action(KeyCode::BackTab, KeyModifiers { control: ctrl }) == Some(
            Action::CycleFilterPrev,
        ),
        update_post(a, Action::CycleFilterPrev, now, b, cmd) ==> b.active_filter
            == a.active_filter.prev_spec(),
        a.key_action(KeyCode::Enter, KeyModifiers { control: ctrl }) == Some(Action::ToggleDiff),
        update_post(a, Action::ToggleDiff, now, b, cmd) && !a.show_diff ==> b.show_diff,
{
    lemma_visible_bounded(a.prs@, a.active_filter);
    assert(a.prs@.len() == a.prs.len());
}

/// The diff keys of the key table: while the diff has focus, `d` gives the
/// focus back to the list and Enter closes the panel.
pub proof fn lemma_diff_keys(a: App, b: App, now: u64, cmd: Option<Command>, ctrl: bool)
    requires
        a.diff_focused,
    ensures
        a.key_action(KeyCode::Char('d'), KeyModifiers { control: ctrl }) == Some(
            Action::UnfocusDiff,
        ),
        update_post(a, Action::UnfocusDiff, now, b, cmd) ==> !b.diff_focused,
        a.key_action(KeyCode::Enter, KeyModifiers { control: ctrl }) == Some(Action::ToggleDiff),
        update_post(a, Action::ToggleDiff, now, b, cmd) && a.show_diff ==> !b.show_diff
            && !b.diff_focused,
{
}

/// The count on a filter's tab is the number of rows its view shows.
pub proof fn lemma_tab_count_is_rows(prs: Seq<PullRequest>, f: Filter)
    ensures
        matching_indices(prs, f, prs.len() as int).len() == visible_indices_of(prs, f).len(),
{
    if f == Filter::Queued {
        crate::sort::lemma_sort_by_key_permutes(
            matching_indices(prs, f, prs.len() as int),
            queue_order(prs),
        );
    }
}

/// A PR that entered the merge queue is updated in place: it shows in the
/// Queued view, no longer in the Ready or Removed views, with its status
/// derived anew; every other PR is left as it was.
pub proof fn lemma_enqueued_pr_is_queued(
    prs: Seq<PullRequest>,
    number: u64,
    e: MergeQueueEntry,
    i: int,
)
    requires
        find_number(prs, number, 0) == Some(i),
    ensures
        0 <= i < prs.len(),
        record_entry(prs, number, e).len() == prs.len(),
        record_entry(prs, number, e)[i].number == number,
        Filter::Queued.matches_spec(record_entry(prs, number, e)[i]),
        !Filter::Ready.matches_spec(record_entry(prs, number, e)[i]),
        !Filter::Removed.matches_spec(record_entry(prs, number, e)[i]),
        record_entry(prs, number, e)[i].status == status_of(
            prs[i].mergeable_state,
            Some(e),
            prs[i].last_queue_removal,
        ),
        forall|j: int| 0 <= j < prs.len() && j != i ==> record_entry(prs, number, e)[j] == prs[j],
{
    lemma_find_number_found(prs, number, 0);
}

proof fn lemma_find_number_found(prs: Seq<PullRequest>, number: u64, k: int)
    requires
        0 <= k,
    ensures
        find_number(prs, number, k) matches Some(i) ==> k <= i < prs.len() && prs[i].number
            == number,
    decreases prs.len() - k,
{
    if k < prs.len() && prs[k].number != number {
        lemma_find_number_found(prs, number, k + 1);
    }
}

/// The count of PRs in the current enqueue run is 0 whenever no enqueue
/// request is in flight, and every action keeps it so.
pub proof fn lemma_enqueue_count_idle(
    old: App,
    action: Action,
    now: u64,
    new: App,
    cmd: Option<Command>,
)
    requires
        update_post(old, action, now, new, cmd),
        !old.enqueue_in_flight ==> old.enqueue_total == 0,
    ensures
        !new.enqueue_in_flight ==> new.enqueue_total == 0,
{
}

/// Ctrl+C quits from every state, and quitting sets `should_quit`.
pub proof fn lemma_ctrl_c_quits(a: App, b: App, now: u64, cmd: Option<Command>)
    ensures
        a.key_action(KeyCode::Char('c'), KeyModifiers { control: true }) == Some(Action::Quit),
        update_post(a, Action::Quit, now, b, cmd) ==> b.should_quit && cmd is None,
{
}

} // verus!

verus! {

// ---------------------------------------------------------------------------
// Laws of the key table, of navigation and of multi-selection
// ---------------------------------------------------------------------------

/// The navigation actions move the selection by rows of a non-empty view:
/// Up one row up, staying on the first; Down one row down, staying on the
/// last; Page Up and Page Down by the list's height in rows (at least one),
/// stopping at the first and the last row; Home to the first row; End to
/// the last; a click to the clicked row, or the last one below the list.
/// Every move selects the row in the drawn list and scrolls the diff back
/// to its top, and leaves the PRs and the filter as they were.
pub proof fn lemma_navigation_moves(a: App, action: Action, now: u64, b: App, cmd: Option<Command>)
    requires
        a.handles_action(action),
        update_post(a, action, now, b, cmd),
        a.visible().len() > 0,
    ensures
        action is NavigateUp ==> b.selected == (if a.selected >= 1 {
            a.selected - 1
        } else {
            0
        }),
        action is NavigateDown ==> b.selected == (if a.selected + 1 < a.visible().len() {
            a.selected + 1
        } else {
            a.visible().len() - 1
        }),
        action is NavigatePageUp ==> b.selected == (if a.list_height <= 1 {
            if a.selected >= 1 {
                a.selected - 1
            } else {
                0
            }
        } else if a.selected >= a.list_height {
            a.selected - a.list_height
        } else {
            0
        }),
        action is NavigatePageDown ==> b.selected == (if a.list_height <= 1 {
            if a.selected + 1 < a.visible().len() {
                a.selected + 1
            } else {
                a.visible().len() - 1
            }
        } else if a.selected + a.list_height < a.visible().len() {
            a.selected + a.list_height
        } else {
            a.visible().len() - 1
        }),
        action is NavigateHome ==> b.selected == 0,
        action is NavigateEnd ==> b.selected == a.visible().len() - 1,
        action matches Action::NavigateTo(i) ==> b.selected == (if i < a.visible().len() {
            i as int
        } else {
            a.visible().len() - 1
        }),
        App::is_navigation(action) ==> {
            &&& b.list_state.selected == Some(b.selected)
            &&& b.diff_scroll == 0
            &&& b.prs == a.prs
            &&& b.active_filter == a.active_filter
            &&& b.selected_prs == a.selected_prs
        },
{
    lemma_visible_bounded(a.prs@, a.active_filter);
    assert(a.prs@.len() == a.prs.len());
}

/// The key table: outside the diff panel, Up/k and Down/j move the
/// selection, Page Up/Down, Home and End jump, Tab and Shift+Tab cycle the
/// filter, Space toggles the selected PR, `a` selects every visible PR and
/// `A` clears the selection, `r` adds to the merge queue, `R` refreshes,
/// `o` opens the browser, Enter toggles the diff panel, and `d` focuses an
/// open diff panel; in the focused diff panel the arrows and j/k scroll by
/// one line, Page Up/Down by the panel's height (at least one), Home and End
/// to the ends, `d` unfocuses, Enter closes, `R` refreshes and `o` opens the
/// browser; any other key does nothing (Ctrl+C aside, which quits).
pub proof fn lemma_key_table(a: App, ctrl: bool)
    ensures
        ({
            let m = KeyModifiers { control: ctrl };
            let key = |c: KeyCode| a.event_action(Event::Key(c, m));
            &&& !a.diff_focused ==> {
                &&& key(KeyCode::Up) == Some(Action::NavigateUp)
                &&& key(KeyCode::Char('k')) == Some(Action::NavigateUp)
                &&& key(KeyCode::Down) == Some(Action::NavigateDown)
                &&& key(KeyCode::Char('j')) == Some(Action::NavigateDown)
                &&& key(KeyCode::PageUp) == Some(Action::NavigatePageUp)
                &&& key(KeyCode::PageDown) == Some(Action::NavigatePageDown)
                &&& key(KeyCode::Home) == Some(Action::NavigateHome)
                &&& key(KeyCode::End) == Some(Action::NavigateEnd)
                &&& key(KeyCode::Tab) == Some(Action::CycleFilterNext)
                &&& key(KeyCode::BackTab) == Some(Action::CycleFilterPrev)
                &&& key(KeyCode::Char(' ')) == Some(Action::ToggleSelectPr)
                &&& key(KeyCode::Char('a')) == Some(Action::SelectAllVisible)
                &&& key(KeyCode::Char('A')) == Some(Action::DeselectAll)
                &&& key(KeyCode::Char('r')) == Some(Action::EnqueueSelected)
                &&& key(KeyCode::Char('R')) == Some(Action::Refresh)
                &&& key(KeyCode::Char('o')) == Some(Action::OpenInBrowser)
                &&& key(KeyCode::Enter) == Some(Action::ToggleDiff)
                &&& key(KeyCode::Char('d')) == (if a.show_diff {
                    Some(Action::FocusDiff)
                } else {
                    None
                })
                &&& key(KeyCode::Char('q')) == None::<Action>
                &&& key(KeyCode::Other) == None::<Action>
            }
            &&& a.diff_focused ==> {
                &&& key(KeyCode::Up) == Some(Action::DiffScrollUp(1))
                &&& key(KeyCode::Char('k')) == Some(Action::DiffScrollUp(1))
                &&& key(KeyCode::Down) == Some(Action::DiffScrollDown(1))
                &&& key(KeyCode::Char('j')) == Some(Action::DiffScrollDown(1))
                &&& key(KeyCode::PageUp) == Some(
                    Action::DiffScrollUp(if a.diff_height == 0 { 1 } else { a.diff_height }),
                )
                &&& key(KeyCode::PageDown) == Some(
                    Action::DiffScrollDown(if a.diff_height == 0 { 1 } else { a.diff_height }),
                )
                &&& key(KeyCode::Home) == Some(Action::DiffScrollUp(usize::MAX))
                &&& key(KeyCode::End) == Some(Action::DiffScrollDown(usize::MAX))
                &&& key(KeyCode::Char('d')) == Some(Action::UnfocusDiff)
                &&& key(KeyCode::Enter) == Some(Action::ToggleDiff)
                &&& key(KeyCode::Char('R')) == Some(Action::Refresh)
                &&& key(KeyCode::Char('o')) == Some(Action::OpenInBrowser)
                &&& key(KeyCode::Tab) == None::<Action>
                &&& key(KeyCode::Char('a')) == None::<Action>
                &&& key(KeyCode::Char('r')) == None::<Action>
                &&& key(KeyCode::Other) == None::<Action>
            }
        }),
{
}

/// Selecting all adds to the multi-selection the number of every PR that
/// the active filter keeps, and nothing else; the rest of the state stays.
pub proof fn lemma_select_all_visible(a: App, now: u64, b: App, cmd: Option<Command>)
    requires
        update_post(a, Action::SelectAllVisible, now, b, cmd),
    ensures
        cmd is None,
        b == (App { selected_prs: b.selected_prs, ..a }),
        forall|n: u64|
            #[trigger] b.selected_prs@.contains(n) <==> (a.selected_prs@.contains(n) || exists|i: int|
                0 <= i < a.prs@.len() && a.active_filter.matches_spec(a.prs@[i]) && a.prs@[i].number
                    == n),
{
    let prs = a.prs@;
    let f = a.active_filter;
    let vis = a.visible();
    assert(prs.len() == a.prs.len());
    lemma_visible_bounded(prs, f);
    lemma_visible_is_filtered(prs, f);
    assert forall|n: u64| #[trigger] b.selected_prs@.contains(n) <==> (a.selected_prs@.contains(n)
        || exists|i: int| 0 <= i < prs.len() && f.matches_spec(prs[i]) && prs[i].number == n) by {
        if a.visible_numbers().contains(n) {
            let k = choose|k: int| 0 <= k < vis.len() && prs[#[trigger] vis[k] as int].number == n;
            let i = vis[k] as int;
            assert(vis.contains(i as usize));
            assert(f.matches_spec(prs[i]));
        }
        if exists|i: int| 0 <= i < prs.len() && f.matches_spec(prs[i]) && prs[i].number == n {
            let i = choose|i: int| 0 <= i < prs.len() && f.matches_spec(prs[i]) && prs[i].number == n;
            assert(vis.contains(i as usize));
            let k = choose|k: int| 0 <= k < vis.len() && vis[k] == i as usize;
            assert(prs[vis[k] as int].number == n);
            assert(a.visible_numbers().contains(n));
        }
    }
}

} // verus!
