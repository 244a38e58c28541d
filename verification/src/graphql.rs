//! Decoding of GitHub GraphQL replies into pull requests and merge queue
//! entries.
use vstd::prelude::*;
use crate::json::{
    as_array, as_bool, as_str, as_u64, at, bool_at, field, has_field, is_null, null_at, str_at,
    u64_at, value_of,
    JsonNumber, JsonValue,
};
use crate::models::{
    check_rollup_of, merge_queue_state_of, removal_reason_of, review_decision_of, status_of,
    CheckRollupState, MergeQueueEntry, MergeQueueState, MergeableState, PullRequest, QueueRemoval,
    QueueRemovalReason, ReviewDecision,
};
use crate::text::{append_decimal, append_prefix, append_str, decimal, prefix_chars, str_eq};
use crate::time::{parse_rfc3339, rfc3339_instant, Timestamp};

verus! {

/// The characters of a string value, or a default for anything else.
pub open spec fn text_or(v: JsonValue, default: Seq<char>) -> Seq<char> {
    match as_str(v) {
        Some(s) => s,
        None => default,
    }
}

/// An owned copy of a string slice.
fn owned(s: &str) -> (r: String)
    ensures
        r@ == s@,
{
    s.to_string()
}

/// The merge state that a GraphQL `mergeStateStatus` name denotes.
pub open spec fn merge_state_of(s: Seq<char>) -> MergeableState {
    if s == "CLEAN"@ {
        MergeableState::Clean
    } else if s == "DIRTY"@ {
        MergeableState::Dirty
    } else if s == "BLOCKED"@ {
        MergeableState::Blocked
    } else if s == "BEHIND"@ {
        MergeableState::Behind
    } else if s == "UNSTABLE"@ {
        MergeableState::Unstable
    } else {
        MergeableState::Unknown
    }
}

pub fn merge_state_status_to_state(s: &str) -> (r: MergeableState)
    ensures
        r == merge_state_of(s@),
{
    if str_eq(s, "CLEAN") {
        MergeableState::Clean
    } else if str_eq(s, "DIRTY") {
        MergeableState::Dirty
    } else if str_eq(s, "BLOCKED") {
        MergeableState::Blocked
    } else if str_eq(s, "BEHIND") {
        MergeableState::Behind
    } else if str_eq(s, "UNSTABLE") {
        MergeableState::Unstable
    } else {
        MergeableState::Unknown
    }
}

/// The merge state that the older `mergeable` field gives when
/// `mergeStateStatus` is missing.
pub open spec fn mergeable_fallback(s: Seq<char>) -> MergeableState {
    if s == "MERGEABLE"@ {
        MergeableState::Clean
    } else if s == "CONFLICTING"@ {
        MergeableState::Dirty
    } else {
        MergeableState::Unknown
    }
}

/// The merge state of a PR node.
pub open spec fn node_mergeable_state(node: JsonValue) -> MergeableState {
    match as_str(field(node, "mergeStateStatus"@)) {
        Some(s) => merge_state_of(s),
        None => mergeable_fallback(text_or(field(node, "mergeable"@), "UNKNOWN"@)),
    }
}

/// A merge queue entry value is present: not null and with a non-empty id.
pub open spec fn entry_present(v: JsonValue) -> bool {
    !is_null(v) && text_or(field(v, "id"@), ""@).len() > 0
}

/// The entry read from a present merge queue entry value: its id, its state
/// (`QUEUED` when missing) and its position (0 when missing, truncated to
/// 32 bits).
pub open spec fn entry_read_from(e: MergeQueueEntry, v: JsonValue) -> bool {
    &&& e.id@ == text_or(field(v, "id"@), ""@)
    &&& e.state == merge_queue_state_of(text_or(field(v, "state"@), "QUEUED"@))
    &&& e.position == match as_u64(field(v, "position"@)) {
        Some(n) => n as u32,
        None => 0u32,
    }
}

/// Reads the fields of a merge queue entry value whose id is present.
fn read_entry(v: Option<&JsonValue>, id: &str) -> (r: MergeQueueEntry)
    requires
        as_str(field(value_of(v), "id"@)) == Some(id@),
    ensures
        entry_read_from(r, value_of(v)),
{
    let state_name = match str_at(at(v, "state")) {
        Some(s) => s,
        None => "QUEUED",
    };
    let state = MergeQueueState::from(state_name);
    let position = match u64_at(at(v, "position")) {
        Some(n) => n as u32,
        None => 0,
    };
    MergeQueueEntry { id: owned(id), state, position }
}

pub fn parse_merge_queue_entry(val: Option<&JsonValue>) -> (r: Option<MergeQueueEntry>)
    ensures
        match r {
            Some(e) => entry_present(value_of(val)) && entry_read_from(e, value_of(val)),
            None => !entry_present(value_of(val)),
        },
{
    if null_at(val) {
        return None;
    }
    let id = match str_at(at(val, "id")) {
        Some(s) => s,
        None => "",
    };
    proof {
        reveal_strlit("");
    }
    if id.is_empty() {
        return None;
    }
    Some(read_entry(val, id))
}

/// The last of the timeline events whose `createdAt` is not null.
pub open spec fn last_removal_event(nodes: Seq<JsonValue>) -> Option<JsonValue>
    decreases nodes.len(),
{
    if nodes.len() == 0 {
        None
    } else if !is_null(field(nodes.last(), "createdAt"@)) {
        Some(nodes.last())
    } else {
        last_removal_event(nodes.drop_last())
    }
}

/// The most recent removal from the merge queue that a `timelineItems`
/// value records: the last event with a creation time, if that time reads
/// as RFC 3339; its reason is `Other` where the reason is missing or
/// unknown.
pub open spec fn queue_removal_of(timeline: JsonValue) -> Option<QueueRemoval> {
    match as_array(field(timeline, "nodes"@)) {
        None => None,
        Some(nodes) => match last_removal_event(nodes) {
            None => None,
            Some(event) => match as_str(field(event, "createdAt"@)) {
                None => None,
                Some(text) => match rfc3339_instant(text) {
                    None => None,
                    Some(instant) => Some(
                        QueueRemoval {
                            at: Timestamp { secs: instant.0, nanos: instant.1 },
                            reason: removal_reason_of(text_or(field(event, "reason"@), ""@)),
                        },
                    ),
                },
            },
        },
    }
}

/// Parse the most recent `REMOVED_FROM_MERGE_QUEUE_EVENT` for this PR.
/// No time limit — any removal on a still-open PR is relevant.
pub fn parse_queue_removal(timeline: Option<&JsonValue>) -> (r: Option<QueueRemoval>)
    ensures
        r == queue_removal_of(value_of(timeline)),
{
    let nodes = match at(timeline, "nodes") {
        Some(v) => match v.as_array() {
            Some(a) => a,
            None => return None,
        },
        None => return None,
    };
    // Events are in chronological order; take the most recent (last).
    let mut i = nodes.len();
    proof {
        assert(nodes@.take(i as int) =~= nodes@);
    }
    while i > 0
        invariant
            i <= nodes@.len(),
            as_array(field(value_of(timeline), "nodes"@)) == Some(nodes@),
            last_removal_event(nodes@) == last_removal_event(nodes@.take(i as int)),
        decreases i,
    {
        proof {
            assert(nodes@.take(i as int).drop_last() =~= nodes@.take(i - 1));
            assert(nodes@.take(i as int).last() == nodes@[i - 1]);
        }
        let event = &nodes[i - 1];
        if !null_at(event.get("createdAt")) {
            let created = match str_at(event.get("createdAt")) {
                Some(s) => s,
                None => return None,
            };
            let at_instant = match parse_rfc3339(created) {
                Some(p) => p,
                None => return None,
            };
            let reason_name = match str_at(event.get("reason")) {
                Some(s) => s,
                None => "",
            };
            let reason = QueueRemovalReason::from(reason_name);
            return Some(
                QueueRemoval { at: Timestamp { secs: at_instant.0, nanos: at_instant.1 }, reason },
            );
        }
        i = i - 1;
    }
    None
}

} // verus!

verus! {

/// The characters of a possibly missing string value, or a default.
fn str_or<'a>(v: Option<&'a JsonValue>, default: &'a str) -> (r: &'a str)
    ensures
        r@ == text_or(value_of(v), default@),
{
    match str_at(v) {
        Some(s) => s,
        None => default,
    }
}

/// The check rollup of the head commit of a PR node, if it has one.
pub open spec fn node_check_rollup(node: JsonValue) -> Option<CheckRollupState> {
    match as_array(field(field(node, "commits"@), "nodes"@)) {
        Some(ns) => if ns.len() > 0 {
            match as_str(
                field(field(field(ns[0], "commit"@), "statusCheckRollup"@), "state"@),
            ) {
                Some(s) => Some(check_rollup_of(s)),
                None => None,
            }
        } else {
            None
        },
        None => None,
    }
}

/// The review decision of a PR node, if it names a known one.
pub open spec fn node_review_decision(node: JsonValue) -> Option<ReviewDecision> {
    match as_str(field(node, "reviewDecision"@)) {
        Some(s) => review_decision_of(s),
        None => None,
    }
}

/// The pull request read from a GraphQL PR node: missing texts are empty,
/// a missing number is 0, a missing draft flag is false, and the status is
/// the one its merge state, queue entry and last removal give.
pub open spec fn pr_read_from(r: PullRequest, node: JsonValue) -> bool {
    let q = field(node, "mergeQueueEntry"@);
    &&& r.number == match as_u64(field(node, "number"@)) {
        Some(n) => n,
        None => 0u64,
    }
    &&& r.node_id@ == text_or(field(node, "id"@), ""@)
    &&& r.title@ == text_or(field(node, "title"@), ""@)
    &&& r.author@ == text_or(field(field(node, "author"@), "login"@), ""@)
    &&& r.html_url@ == text_or(field(node, "url"@), ""@)
    &&& r.is_draft == match as_bool(field(node, "isDraft"@)) {
        Some(b) => b,
        None => false,
    }
    &&& r.mergeable_state == node_mergeable_state(node)
    &&& match r.merge_queue {
        Some(e) => entry_present(q) && entry_read_from(e, q),
        None => !entry_present(q),
    }
    &&& r.check_rollup == node_check_rollup(node)
    &&& r.review_decision == node_review_decision(node)
    &&& r.last_queue_removal == queue_removal_of(field(node, "timelineItems"@))
    &&& r.status == status_of(r.mergeable_state, r.merge_queue, r.last_queue_removal)
}

fn parse_check_rollup(node: &JsonValue) -> (r: Option<CheckRollupState>)
    ensures
        r == node_check_rollup(*node),
{
    let nodes = match at(at(Some(node), "commits"), "nodes") {
        Some(v) => match v.as_array() {
            Some(a) => a,
            None => return None,
        },
        None => return None,
    };
    if nodes.len() == 0 {
        return None;
    }
    let first = Some(&nodes[0]);
    match str_at(at(at(at(first, "commit"), "statusCheckRollup"), "state")) {
        Some(s) => Some(CheckRollupState::from_graphql(s)),
        None => None,
    }
}

pub fn parse_pr_node(node: &JsonValue) -> (r: PullRequest)
    ensures
        pr_read_from(r, *node),
{
    let n = Some(node);
    let number = match u64_at(at(n, "number")) {
        Some(x) => x,
        None => 0,
    };
    let node_id = owned(str_or(at(n, "id"), ""));
    let title = owned(str_or(at(n, "title"), ""));
    let author = owned(str_or(at(at(n, "author"), "login"), ""));
    let html_url = owned(str_or(at(n, "url"), ""));
    let is_draft = match bool_at(at(n, "isDraft")) {
        Some(b) => b,
        None => false,
    };
    let mergeable_state = match str_at(at(n, "mergeStateStatus")) {
        Some(s) => merge_state_status_to_state(s),
        None => {
            let m = str_or(at(n, "mergeable"), "UNKNOWN");
            if str_eq(m, "MERGEABLE") {
                MergeableState::Clean
            } else if str_eq(m, "CONFLICTING") {
                MergeableState::Dirty
            } else {
                MergeableState::Unknown
            }
        },
    };
    let merge_queue = parse_merge_queue_entry(at(n, "mergeQueueEntry"));
    let last_queue_removal = parse_queue_removal(at(n, "timelineItems"));
    let check_rollup = parse_check_rollup(node);
    let review_decision = match str_at(at(n, "reviewDecision")) {
        Some(s) => ReviewDecision::from_graphql(s),
        None => None,
    };
    let status = PullRequest::compute_status(
        &mergeable_state,
        &merge_queue,
        is_draft,
        &last_queue_removal,
    );
    PullRequest {
        number,
        node_id,
        title,
        author,
        html_url,
        mergeable_state,
        merge_queue,
        check_rollup,
        review_decision,
        is_draft,
        status,
        last_queue_removal,
    }
}

} // verus!

verus! {

/// The `pullRequests` connection of a repository query reply.
pub open spec fn pull_requests_of(response: JsonValue) -> JsonValue {
    field(field(field(response, "data"@), "repository"@), "pullRequests"@)
}

fn pull_requests_at(response: &JsonValue) -> (r: Option<&JsonValue>)
    ensures
        value_of(r) == pull_requests_of(*response),
{
    at(at(at(Some(response), "data"), "repository"), "pullRequests")
}

/// Reads the pull requests of one page of the full-data query; a reply
/// without a node list gives none.
pub fn parse_pr_page(response: &JsonValue) -> (r: Vec<PullRequest>)
    ensures
        match as_array(field(pull_requests_of(*response), "nodes"@)) {
            Some(nodes) => r@.len() == nodes.len() && forall|k: int|
                0 <= k < nodes.len() ==> pr_read_from(#[trigger] r@[k], nodes[k]),
            None => r@.len() == 0,
        },
{
    let mut prs: Vec<PullRequest> = Vec::new();
    let nodes = match at(pull_requests_at(response), "nodes") {
        Some(v) => match v.as_array() {
            Some(a) => a,
            None => return prs,
        },
        None => return prs,
    };
    let mut i: usize = 0;
    while i < nodes.len()
        invariant
            i <= nodes@.len(),
            as_array(field(pull_requests_of(*response), "nodes"@)) == Some(nodes@),
            prs@.len() == i,
            forall|k: int| 0 <= k < i ==> pr_read_from(#[trigger] prs@[k], nodes@[k]),
        decreases nodes.len() - i,
    {
        let pr = parse_pr_node(&nodes[i]);
        prs.push(pr);
        i = i + 1;
    }
    prs
}

/// What one reply of the cursor query says: the total count, whether a
/// next page exists (false when missing) and the cursor that ends this page.
pub struct CursorPage {
    pub total_count: Option<u64>,
    pub has_next: bool,
    pub end_cursor: Option<String>,
}

pub open spec fn cursor_page_read_from(p: CursorPage, response: JsonValue) -> bool {
    let prs = pull_requests_of(response);
    let info = field(prs, "pageInfo"@);
    &&& p.total_count == as_u64(field(prs, "totalCount"@))
    &&& p.has_next == match as_bool(field(info, "hasNextPage"@)) {
        Some(b) => b,
        None => false,
    }
    &&& match p.end_cursor {
        Some(c) => as_str(field(info, "endCursor"@)) == Some(c@),
        None => as_str(field(info, "endCursor"@)) is None,
    }
}

pub fn read_cursor_page(response: &JsonValue) -> (r: CursorPage)
    ensures
        cursor_page_read_from(r, *response),
{
    let prs = pull_requests_at(response);
    let info = at(prs, "pageInfo");
    let total_count = u64_at(at(prs, "totalCount"));
    let has_next = match bool_at(at(info, "hasNextPage")) {
        Some(b) => b,
        None => false,
    };
    let end_cursor = match str_at(at(info, "endCursor")) {
        Some(s) => Some(owned(s)),
        None => None,
    };
    CursorPage { total_count, has_next, end_cursor }
}

/// Phase 1 of the bulk fetch: the cursors that start each page (the first
/// is `None`) and the total PR count, gathered page by page.
pub struct CursorCollector {
    pub start_cursors: Vec<Option<String>>,
    pub total_count: usize,
}

impl CursorCollector {
    /// First page always starts with no cursor.
    pub fn new() -> (r: Self)
        ensures
            r.start_cursors@ == seq![None::<String>],
            r.total_count == 0,
    {
        CursorCollector { start_cursors: vec![None], total_count: 0 }
    }

    /// The cursor to request the next page with: the last one collected.
    pub fn next_cursor(&self) -> (r: Option<String>)
        requires
            self.start_cursors@.len() > 0,
        ensures
            r == self.start_cursors@.last(),
    {
        let last = &self.start_cursors[self.start_cursors.len() - 1];
        match last {
            Some(c) => Some(c.clone()),
            None => None,
        }
    }

    /// Takes in one page of the cursor query; returns whether another page
    /// follows. The total count is taken from every page that has one; the
    /// end cursor of a page that has a next page starts the next one.
    pub fn absorb(&mut self, page: CursorPage) -> (more: bool)
        ensures
            more == page.has_next,
            final(self).total_count == match page.total_count {
                Some(n) => n as usize,
                None => old(self).total_count,
            },
            final(self).start_cursors@ == if page.has_next {
                old(self).start_cursors@.push(page.end_cursor)
            } else {
                old(self).start_cursors@
            },
    {
        if let Some(n) = page.total_count {
            self.total_count = n as usize;
        }
        if !page.has_next {
            return false;
        }
        self.start_cursors.push(page.end_cursor);
        true
    }
}

/// The pull requests of pages taken in order, one page after another.
pub open spec fn concat_pages(pages: Seq<(usize, Vec<PullRequest>)>) -> Seq<PullRequest>
    decreases pages.len(),
{
    if pages.len() == 0 {
        Seq::empty()
    } else {
        concat_pages(pages.drop_last()) + pages.last().1@
    }
}

/// The order of pages by their index.
pub open spec fn page_order() -> spec_fn((usize, Vec<PullRequest>)) -> int {
    |p: (usize, Vec<PullRequest>)| p.0 as int
}

/// Pages fetched in parallel arrive in any order: whatever the order, the
/// PRs come out as the pages taken by index give them.
pub proof fn lemma_assemble_any_order(
    arrived: Seq<(usize, Vec<PullRequest>)>,
    in_order: Seq<(usize, Vec<PullRequest>)>,
)
    requires
        arrived.to_multiset() == in_order.to_multiset(),
        forall|k: int| 0 <= k < in_order.len() ==> #[trigger] in_order[k].0 == k,
    ensures
        concat_pages(crate::sort::sort_by_key(arrived, page_order())) == concat_pages(in_order),
{
    let sorted = crate::sort::sort_by_key(arrived, page_order());
    crate::sort::lemma_sort_by_key_permutes(arrived, page_order());
    crate::sort::lemma_sort_by_key_sorted(arrived, page_order());
    assert(crate::sort::sorted_by_key(in_order, page_order()));
    crate::sort::lemma_sorted_unique(in_order, sorted, page_order());
}

/// Restores the original PR order of pages that completed out of order:
/// the pages sorted by index, their PRs concatenated.
pub fn assemble_pages(pages: Vec<(usize, Vec<PullRequest>)>) -> (r: Vec<PullRequest>)
    ensures
        r@ == concat_pages(crate::sort::sort_by_key(pages@, page_order())),
{
    let ghost input = pages@;
    let n = pages.len();
    let mut rest = pages;
    let mut sorted: Vec<(usize, Vec<PullRequest>)> = Vec::new();
    let mut i: usize = 0;
    while i < n
        invariant
            n == input.len(),
            i <= n,
            rest@ == input.skip(i as int),
            sorted@ == crate::sort::sort_by_key(input.take(i as int), page_order()),
        decreases n - i,
    {
        let x = rest.remove(0);
        let mut j = sorted.len();
        while j > 0 && sorted[j - 1].0 > x.0
            invariant
                j <= sorted@.len(),
                forall|k: int| j <= k < sorted@.len() ==> sorted@[k].0 > x.0,
            decreases j,
        {
            j = j - 1;
        }
        proof {
            crate::sort::lemma_insert_by_key_at(sorted@, x, page_order(), j as int);
            assert(input.take(i + 1).drop_last() =~= input.take(i as int));
            assert(input.take(i + 1).last() == x);
        }
        sorted.insert(j, x);
        i = i + 1;
        proof {
            assert(rest@ =~= input.skip(i as int));
        }
    }
    proof {
        assert(input.take(n as int) =~= input);
    }
    let ghost ordered = sorted@;
    let mut out: Vec<PullRequest> = Vec::new();
    let mut k: usize = 0;
    let m = sorted.len();
    let mut rest_pages = sorted;
    while k < m
        invariant
            m == ordered.len(),
            k <= m,
            rest_pages@ == ordered.skip(k as int),
            out@ == concat_pages(ordered.take(k as int)),
        decreases m - k,
    {
        let (_, mut prs) = rest_pages.remove(0);
        proof {
            assert(ordered.take(k + 1).drop_last() =~= ordered.take(k as int));
            assert(ordered.take(k + 1).last() == ordered[k as int]);
        }
        out.append(&mut prs);
        k = k + 1;
        proof {
            assert(rest_pages@ =~= ordered.skip(k as int));
        }
    }
    proof {
        assert(ordered.take(m as int) =~= ordered);
    }
    out
}

} // verus!

verus! {

// ---------------------------------------------------------------------------
// Mutations
// ---------------------------------------------------------------------------

/// The aliased `enqueuePullRequest` fields for the first `n` targets.
pub open spec fn batch_fields(targets: Seq<(u64, String)>, n: int) -> Seq<char>
    decreases n,
{
    if n <= 0 {
        Seq::empty()
    } else {
        batch_fields(targets, n - 1) + "\n  pr"@ + decimal((n - 1) as nat)
            + ": enqueuePullRequest(input: { pullRequestId: \""@ + targets[n - 1].1@
            + "\" }) { mergeQueueEntry { id state position } }"@
    }
}

/// The mutation that enqueues several PRs in one request, one aliased
/// field `pr<i>` per target.
pub open spec fn batch_mutation(targets: Seq<(u64, String)>) -> Seq<char> {
    "mutation BulkEnqueue {"@ + batch_fields(targets, targets.len() as int) + "\n}"@
}

pub fn batch_enqueue_mutation(targets: &Vec<(u64, String)>) -> (r: String)
    ensures
        r@ == batch_mutation(targets@),
{
    let mut m = String::new();
    append_str(&mut m, "mutation BulkEnqueue {");
    let mut i: usize = 0;
    proof {
        assert(m@ =~= "mutation BulkEnqueue {"@ + batch_fields(targets@, 0));
    }
    while i < targets.len()
        invariant
            i <= targets@.len(),
            m@ == "mutation BulkEnqueue {"@ + batch_fields(targets@, i as int),
        decreases targets.len() - i,
    {
        append_str(&mut m, "\n  pr");
        append_decimal(&mut m, i as u64);
        append_str(&mut m, ": enqueuePullRequest(input: { pullRequestId: \"");
        append_str(&mut m, targets[i].1.as_str());
        append_str(&mut m, "\" }) { mergeQueueEntry { id state position } }");
        i = i + 1;
        proof {
            assert(m@ =~= "mutation BulkEnqueue {"@ + batch_fields(targets@, i as int));
        }
    }
    append_str(&mut m, "\n}");
    m
}

/// The alias of target `i` in the batch mutation.
pub open spec fn alias(i: nat) -> Seq<char> {
    "pr"@ + decimal(i)
}

/// The message for a target whose alias came back without an entry.
pub open spec fn no_entry_message(number: u64) -> Seq<char> {
    "no mergeQueueEntry returned for PR #"@ + decimal(number as nat)
        + " — already queued or ineligible"@
}

/// Result `i` of a batch enqueue, read from the reply's `data`: the entry
/// under alias `pr<i>` when it has a non-empty id, else the no-entry error.
pub open spec fn batch_result_read_from(
    r: (u64, Result<MergeQueueEntry, String>),
    data: JsonValue,
    i: nat,
    number: u64,
) -> bool {
    let entry = field(field(data, alias(i)), "mergeQueueEntry"@);
    &&& r.0 == number
    &&& match r.1 {
        Ok(e) => text_or(field(entry, "id"@), ""@).len() > 0 && entry_read_from(e, entry),
        Err(msg) => text_or(field(entry, "id"@), ""@).len() == 0 && msg@ == no_entry_message(
            number,
        ),
    }
}

fn no_entry_error(number: u64) -> (r: String)
    ensures
        r@ == no_entry_message(number),
{
    let mut s = String::new();
    append_str(&mut s, "no mergeQueueEntry returned for PR #");
    append_decimal(&mut s, number);
    append_str(&mut s, " — already queued or ineligible");
    proof {
        assert(s@ =~= no_entry_message(number));
    }
    s
}

/// Reads the entry under a value whose id is a non-empty string; an empty
/// or missing id gives the error.
fn entry_with_id(v: Option<&JsonValue>) -> (r: Option<MergeQueueEntry>)
    ensures
        match r {
            Some(e) => text_or(field(value_of(v), "id"@), ""@).len() > 0 && entry_read_from(
                e,
                value_of(v),
            ),
            None => text_or(field(value_of(v), "id"@), ""@).len() == 0,
        },
{
    proof {
        reveal_strlit("");
    }
    match str_at(at(v, "id")) {
        Some(id) => {
            if id.is_empty() {
                None
            } else {
                Some(read_entry(v, id))
            }
        },
        None => None,
    }
}

/// One result per target, in order: the entry GitHub returned under the
/// target's alias, or an error where it returned none.
pub fn read_batch_results(response: &JsonValue, targets: &Vec<(u64, String)>) -> (r: Vec<
    (u64, Result<MergeQueueEntry, String>),
>)
    ensures
        r@.len() == targets@.len(),
        forall|i: int|
            0 <= i < targets@.len() ==> batch_result_read_from(
                #[trigger] r@[i],
                field(*response, "data"@),
                i as nat,
                targets@[i].0,
            ),
{
    let data = at(Some(response), "data");
    let mut results: Vec<(u64, Result<MergeQueueEntry, String>)> = Vec::new();
    let mut i: usize = 0;
    while i < targets.len()
        invariant
            i <= targets@.len(),
            value_of(data) == field(*response, "data"@),
            results@.len() == i,
            forall|k: int|
                0 <= k < i ==> batch_result_read_from(
                    #[trigger] results@[k],
                    field(*response, "data"@),
                    k as nat,
                    targets@[k].0,
                ),
        decreases targets.len() - i,
    {
        let pr_number = targets[i].0;
        let mut name = String::new();
        append_str(&mut name, "pr");
        append_decimal(&mut name, i as u64);
        proof {
            assert(name@ =~= alias(i as nat));
        }
        let entry_val = at(at(data, name.as_str()), "mergeQueueEntry");
        let result = match entry_with_id(entry_val) {
            Some(e) => Ok(e),
            None => Err(no_entry_error(pr_number)),
        };
        results.push((pr_number, result));
        i = i + 1;
    }
    results
}

/// The message for a single enqueue that came back without an entry.
pub open spec fn single_no_entry_message() -> Seq<char> {
    "enqueuePullRequest returned no mergeQueueEntry — the PR may already be queued or ineligible"@
}

/// The entry of a single enqueue reply, or the no-entry error.
pub fn read_enqueue_result(response: &JsonValue) -> (r: Result<MergeQueueEntry, String>)
    ensures
        ({
            let entry = field(
                field(field(*response, "data"@), "enqueuePullRequest"@),
                "mergeQueueEntry"@,
            );
            match r {
                Ok(e) => text_or(field(entry, "id"@), ""@).len() > 0 && entry_read_from(e, entry),
                Err(msg) => text_or(field(entry, "id"@), ""@).len() == 0 && msg@
                    == single_no_entry_message(),
            }
        }),
{
    let entry_val = at(at(at(Some(response), "data"), "enqueuePullRequest"), "mergeQueueEntry");
    match entry_with_id(entry_val) {
        Some(e) => Ok(e),
        None => Err(
            "enqueuePullRequest returned no mergeQueueEntry — the PR may already be queued or ineligible".to_string(),
        ),
    }
}

} // verus!

verus! {

// ---------------------------------------------------------------------------
// Request retries and reply checks
// ---------------------------------------------------------------------------

/// Requests are tried up to this many times on transient 5xx / network
/// errors.
pub const MAX_ATTEMPTS: u32 = 4;

/// How one attempt of a GraphQL POST ended.
pub enum PostOutcome {
    /// The request could not be sent or answered.
    NetworkError(String),
    /// An HTTP reply came back.
    Response { status: u16, body: String },
}

/// What to do after an attempt.
#[derive(Debug)]
pub enum PostDecision {
    /// Wait this many seconds, then try again.
    Retry { delay_secs: u64 },
    /// Give up with this error.
    Fail(String),
    /// Decode the reply body.
    Decode,
}

/// The backoff before the next attempt: 1 s, 2 s, 4 s for attempts 1, 2, 3.
pub open spec fn backoff_secs(attempt: u32) -> u64 {
    if attempt <= 1 {
        1
    } else if attempt == 2 {
        2
    } else {
        4
    }
}

/// The error after a network failure on the last attempt.
pub open spec fn network_error_message(attempt: u32, error: Seq<char>) -> Seq<char> {
    "GitHub GraphQL network error after "@ + decimal(attempt as nat) + " attempts: "@ + error
}

/// The error after a server error on the last attempt.
pub open spec fn server_error_message(status: u16, attempt: u32, body: Seq<char>) -> Seq<char> {
    "GitHub GraphQL returned HTTP "@ + decimal(status as nat) + " after "@ + decimal(
        attempt as nat,
    ) + " attempts.\nBody: "@ + prefix_chars(body, 200)
}

/// The error for a reply with an empty body.
pub open spec fn empty_body_message(status: u16) -> Seq<char> {
    "GitHub GraphQL returned HTTP "@ + decimal(status as nat)
        + " with an empty body. Check that your GITHUB_TOKEN is valid and has the `repo` scope."@
}

/// What to do after attempt number `attempt` (counting from 1) ended with
/// `outcome`: network and 5xx errors are retried with backoff until the
/// last attempt and then fail; an empty body fails; anything else is
/// decoded.
pub fn after_attempt(attempt: u32, outcome: &PostOutcome) -> (r: PostDecision)
    requires
        attempt >= 1,
    ensures
        match *outcome {
            PostOutcome::NetworkError(e) => if attempt >= MAX_ATTEMPTS {
                r matches PostDecision::Fail(m) && m@ == network_error_message(attempt, e@)
            } else {
                r == PostDecision::Retry { delay_secs: backoff_secs(attempt) }
            },
            PostOutcome::Response { status, body } => if 500 <= status <= 599 {
                if attempt >= MAX_ATTEMPTS {
                    r matches PostDecision::Fail(m) && m@ == server_error_message(
                        status,
                        attempt,
                        body@,
                    )
                } else {
                    r == PostDecision::Retry { delay_secs: backoff_secs(attempt) }
                }
            } else if body@.len() == 0 {
                r matches PostDecision::Fail(m) && m@ == empty_body_message(status)
            } else {
                r is Decode
            },
        },
{
    match outcome {
        PostOutcome::NetworkError(e) => {
            if attempt >= MAX_ATTEMPTS {
                let mut msg = String::new();
                append_str(&mut msg, "GitHub GraphQL network error after ");
                append_decimal(&mut msg, attempt as u64);
                append_str(&mut msg, " attempts: ");
                append_str(&mut msg, e.as_str());
                proof {
                    assert(msg@ =~= network_error_message(attempt, e@));
                }
                return PostDecision::Fail(msg);
            }
            PostDecision::Retry { delay_secs: backoff(attempt) }
        },
        PostOutcome::Response { status, body } => {
            if *status >= 500 && *status <= 599 {
                if attempt >= MAX_ATTEMPTS {
                    let mut msg = String::new();
                    append_str(&mut msg, "GitHub GraphQL returned HTTP ");
                    append_decimal(&mut msg, *status as u64);
                    append_str(&mut msg, " after ");
                    append_decimal(&mut msg, attempt as u64);
                    append_str(&mut msg, " attempts.\nBody: ");
                    append_prefix(&mut msg, body.as_str(), 200);
                    proof {
                        assert(msg@ =~= server_error_message(*status, attempt, body@));
                    }
                    return PostDecision::Fail(msg);
                }
                return PostDecision::Retry { delay_secs: backoff(attempt) };
            }
            if body.as_str().is_empty() {
                let mut msg = String::new();
                append_str(&mut msg, "GitHub GraphQL returned HTTP ");
                append_decimal(&mut msg, *status as u64);
                append_str(
                    &mut msg,
                    " with an empty body. Check that your GITHUB_TOKEN is valid and has the `repo` scope.",
                );
                proof {
                    assert(msg@ =~= empty_body_message(*status));
                }
                return PostDecision::Fail(msg);
            }
            PostDecision::Decode
        },
    }
}

fn backoff(attempt: u32) -> (r: u64)
    requires
        1 <= attempt < MAX_ATTEMPTS,
    ensures
        r == backoff_secs(attempt),
{
    let sh: u32 = attempt - 1;
    let r = 1u64 << sh;
    assert(sh == 0 ==> r == 1) by (bit_vector)
        requires
            r == 1u64 << sh,
    ;
    assert(sh == 1 ==> r == 2) by (bit_vector)
        requires
            r == 1u64 << sh,
    ;
    assert(sh == 2 ==> r == 4) by (bit_vector)
        requires
            r == 1u64 << sh,
    ;
    r
}

/// The `message` texts of the error objects of a GraphQL `errors` array,
/// skipping those without one.
pub open spec fn error_messages(items: Seq<JsonValue>) -> Seq<Seq<char>>
    decreases items.len(),
{
    if items.len() == 0 {
        Seq::empty()
    } else {
        let rest = error_messages(items.drop_last());
        match as_str(field(items.last(), "message"@)) {
            Some(m) => rest.push(m),
            None => rest,
        }
    }
}

/// Texts joined with a separator between each two.
pub open spec fn join(parts: Seq<Seq<char>>, sep: Seq<char>) -> Seq<char>
    decreases parts.len(),
{
    if parts.len() == 0 {
        Seq::empty()
    } else if parts.len() == 1 {
        parts[0]
    } else {
        join(parts.drop_last(), sep) + sep + parts.last()
    }
}

/// The human-readable text of a GraphQL `errors` value: its messages
/// joined by "; ", or the raw JSON text where it holds none.
pub open spec fn errors_text_of(errors: JsonValue, raw: Seq<char>) -> Seq<char> {
    match as_array(errors) {
        Some(items) => if error_messages(items).len() > 0 {
            join(error_messages(items), "; "@)
        } else {
            raw
        },
        None => raw,
    }
}

/// Extract human-readable messages from a GraphQL `errors` array.
/// Falls back to the raw JSON text of `errors` (given by the caller) if the
/// structure is unexpected.
pub fn format_graphql_errors(errors: &JsonValue, raw: &str) -> (r: String)
    ensures
        r@ == errors_text_of(*errors, raw@),
{
    if let Some(items) = errors.as_array() {
        let mut out = String::new();
        let mut count: usize = 0;
        let mut i: usize = 0;
        while i < items.len()
            invariant
                i <= items@.len(),
                count <= i,
                count == error_messages(items@.take(i as int)).len(),
                out@ == join(error_messages(items@.take(i as int)), "; "@),
            decreases items.len() - i,
        {
            proof {
                assert(items@.take(i + 1).drop_last() =~= items@.take(i as int));
                assert(items@.take(i + 1).last() == items@[i as int]);
            }
            if let Some(m) = str_at(items[i].get("message")) {
                proof {
                    let msgs = error_messages(items@.take(i as int));
                    assert(msgs.push(m@).drop_last() =~= msgs);
                }
                if count > 0 {
                    append_str(&mut out, "; ");
                } else {
                    proof {
                        assert(Seq::<char>::empty() + m@ =~= m@);
                    }
                }
                append_str(&mut out, m);
                count = count + 1;
            }
            i = i + 1;
        }
        proof {
            assert(items@.take(items@.len() as int) =~= items@);
        }
        if count > 0 {
            return out;
        }
    }
    raw.to_string()
}

/// The error for a reply body that is not JSON.
pub open spec fn not_json_message(status: u16, error: Seq<char>, body: Seq<char>) -> Seq<char> {
    "GitHub GraphQL response is not JSON (HTTP "@ + decimal(status as nat) + "): "@ + error
        + "\nBody preview: "@ + prefix_chars(body, 300)
}

/// What a reply body decodes to, from what serde_json read of it (the value
/// with the JSON text of its `errors` member, or serde_json's error): a body
/// that did not parse is an error, a reply with an `errors` member is an
/// error with its messages, anything else is the reply.
pub fn reply_result(
    status: u16,
    body: &str,
    parsed: Result<(JsonValue, String), String>,
) -> (r: Result<JsonValue, String>)
    ensures
        match parsed {
            Err(e) => r matches Err(msg) && msg@ == not_json_message(status, e@, body@),
            Ok((v, raw)) => if has_field(v, "errors"@) {
                r matches Err(msg) && msg@ == "GitHub GraphQL error: "@ + errors_text_of(
                    field(v, "errors"@),
                    raw@,
                )
            } else {
                r == Ok::<JsonValue, String>(v)
            },
        },
{
    match parsed {
        Err(e) => {
            let mut msg = String::new();
            append_str(&mut msg, "GitHub GraphQL response is not JSON (HTTP ");
            append_decimal(&mut msg, status as u64);
            append_str(&mut msg, "): ");
            append_str(&mut msg, e.as_str());
            append_str(&mut msg, "\nBody preview: ");
            append_prefix(&mut msg, body, 300);
            proof {
                assert(msg@ =~= not_json_message(status, e@, body@));
            }
            Err(msg)
        },
        Ok((val, raw)) => {
            if val.has_key("errors") {
                let text = match val.get("errors") {
                    Some(errors) => format_graphql_errors(errors, raw.as_str()),
                    None => format_graphql_errors(&JsonValue::Null, raw.as_str()),
                };
                let mut msg = String::new();
                append_str(&mut msg, "GitHub GraphQL error: ");
                append_str(&mut msg, text.as_str());
                return Err(msg);
            }
            Ok(val)
        },
    }
}

/// serde_json's reading of a text as JSON, as the library's value, or
/// `None` where serde_json rejects the text.
pub uninterp spec fn json_of_text(text: Seq<char>) -> Option<JsonValue>;

/// serde_json's message for a text that it rejects as JSON.
pub uninterp spec fn json_error_of(text: Seq<char>) -> Seq<char>;

/// serde_json's text of the `errors` member of the value it reads from a
/// text, empty where the value has no such member.
pub uninterp spec fn errors_json_text(text: Seq<char>) -> Seq<char>;

/// serde_json's `Value`, carried through opaquely.
#[verifier::external_type_specification]
#[verifier::external_body]
pub struct ExSerdeJsonValue(serde_json::Value);

/// The library's value for a serde_json value, variant by variant: numbers
/// as a non-negative integer, a negative integer or neither, arrays and
/// objects element by element in serde_json's order. It converts what
/// `parse_reply` reads and claims nothing of its own.
#[verifier::external_body]
fn json_value_of(v: &serde_json::Value) -> JsonValue {
    match v {
        serde_json::Value::Null => JsonValue::Null,
        serde_json::Value::Bool(b) => JsonValue::Bool(*b),
        serde_json::Value::Number(n) => JsonValue::Number(match (n.as_u64(), n.as_i64()) {
            (Some(u), _) => JsonNumber::PosInt(u),
            (None, Some(i)) => JsonNumber::NegInt(i),
            _ => JsonNumber::Float,
        }),
        serde_json::Value::String(t) => JsonValue::String(t.clone()),
        serde_json::Value::Array(a) => JsonValue::Array(a.iter().map(json_value_of).collect()),
        serde_json::Value::Object(m) => JsonValue::Object(
            m.iter().map(|(k, x)| (k.clone(), json_value_of(x))).collect(),
        ),
    }
}

/// `serde_json::from_str` on a reply text, read as a `serde_json::Value`:
/// the value, as the library's value, with `to_string` of its `errors`
/// member; or the `to_string` of serde_json's error. The contract names the
/// three results `json_of_text`, `errors_json_text` and `json_error_of` of
/// the text and claims nothing more of them.
#[verifier::external_body]
fn parse_reply(text: &str) -> (r: Result<(JsonValue, String), String>)
    ensures
        (r is Ok) <==> json_of_text(text@) is Some,
        r matches Ok((v, raw)) ==> json_of_text(text@) == Some(v) && raw@ == errors_json_text(
            text@,
        ),
        r matches Err(e) ==> e@ == json_error_of(text@),
{
    match serde_json::from_str::<serde_json::Value>(text) {
        Ok(v) => Ok((json_value_of(&v), v.get("errors").map(|e| e.to_string()).unwrap_or_default())),
        Err(e) => Err(e.to_string()),
    }
}

/// Decodes a reply body: a body that serde_json does not read as JSON is an
/// error, a reply with an `errors` member is an error with its messages
/// (serde_json's text of the member where none has a message), anything
/// else is the reply.
pub fn check_reply(status: u16, body: &str) -> (r: Result<JsonValue, String>)
    ensures
        match json_of_text(body@) {
            None => r matches Err(msg) && msg@ == not_json_message(
                status,
                json_error_of(body@),
                body@,
            ),
            Some(v) => if has_field(v, "errors"@) {
                r matches Err(msg) && msg@ == "GitHub GraphQL error: "@ + errors_text_of(
                    field(v, "errors"@),
                    errors_json_text(body@),
                )
            } else {
                r == Ok::<JsonValue, String>(v)
            },
        },
{
    reply_result(status, body, parse_reply(body))
}

} // verus!
