//! The pull-request model: merge states, queue entries, check rollups,
//! reviews, changed files, queue removals, and the status rules.
use vstd::prelude::*;
use crate::text::str_eq;
use crate::time::Timestamp;

verus! {

/// GitHub's `mergeStateStatus` of a pull request.
#[derive(Debug, Clone, Copy, PartialEq, Eq, Structural)]
pub enum MergeableState {
    Clean,
    Dirty,
    Blocked,
    Behind,
    Unstable,
    Unknown,
}

/// State of a merge queue entry.
#[derive(Debug, Clone, Copy, PartialEq, Eq, Structural)]
pub enum MergeQueueState {
    Queued,
    Awaiting,
    Mergeable,
    Unmergeable,
    Locked,
}

/// The merge queue state that a GraphQL `MergeQueueEntryState` name denotes;
/// unknown names count as `Queued`.
pub open spec fn merge_queue_state_of(s: Seq<char>) -> MergeQueueState {
    if s == "QUEUED"@ {
        MergeQueueState::Queued
    } else if s == "AWAITING_CHECKS"@ {
        MergeQueueState::Awaiting
    } else if s == "MERGEABLE"@ {
        MergeQueueState::Mergeable
    } else if s == "UNMERGEABLE"@ {
        MergeQueueState::Unmergeable
    } else if s == "LOCKED"@ {
        MergeQueueState::Locked
    } else {
        MergeQueueState::Queued
    }
}

impl<'a> From<&'a str> for MergeQueueState {
    fn from(s: &'a str) -> (r: Self) {
        if str_eq(s, "QUEUED") {
            MergeQueueState::Queued
        } else if str_eq(s, "AWAITING_CHECKS") {
            MergeQueueState::Awaiting
        } else if str_eq(s, "MERGEABLE") {
            MergeQueueState::Mergeable
        } else if str_eq(s, "UNMERGEABLE") {
            MergeQueueState::Unmergeable
        } else if str_eq(s, "LOCKED") {
            MergeQueueState::Locked
        } else {
            MergeQueueState::Queued
        }
    }
}

impl<'a> vstd::std_specs::convert::FromSpecImpl<&'a str> for MergeQueueState {
    open spec fn obeys_from_spec() -> bool {
        true
    }

    open spec fn from_spec(s: &'a str) -> Self {
        merge_queue_state_of(s@)
    }
}

} // verus!

verus! {

/// A terminal colour, as the panels use them.
#[derive(Debug, Clone, Copy, PartialEq, Eq, Structural)]
pub enum Color {
    Reset,
    Black,
    Red,
    Green,
    Yellow,
    Cyan,
    DarkGray,
}

/// An entry of the merge queue.
#[derive(Debug, Clone)]
pub struct MergeQueueEntry {
    pub id: String,
    pub state: MergeQueueState,
    pub position: u32,
}

/// Rolled-up result of all status checks on the head commit
/// (GraphQL `statusCheckRollup.state`).
#[derive(Debug, Clone, Copy, PartialEq, Eq, Structural)]
pub enum CheckRollupState {
    Success,
    Failure,
    Pending,
    Error,
    /// No checks are configured for this repo/branch.
    Expected,
}

/// The rollup state that a GraphQL `StatusState` name denotes; unknown names
/// mean that no checks are expected.
pub open spec fn check_rollup_of(s: Seq<char>) -> CheckRollupState {
    if s == "SUCCESS"@ {
        CheckRollupState::Success
    } else if s == "FAILURE"@ {
        CheckRollupState::Failure
    } else if s == "PENDING"@ {
        CheckRollupState::Pending
    } else if s == "ERROR"@ {
        CheckRollupState::Error
    } else {
        CheckRollupState::Expected
    }
}

impl CheckRollupState {
    pub fn from_graphql(s: &str) -> (r: Self)
        ensures
            r == check_rollup_of(s@),
    {
        if str_eq(s, "SUCCESS") {
            CheckRollupState::Success
        } else if str_eq(s, "FAILURE") {
            CheckRollupState::Failure
        } else if str_eq(s, "PENDING") {
            CheckRollupState::Pending
        } else if str_eq(s, "ERROR") {
            CheckRollupState::Error
        } else {
            CheckRollupState::Expected
        }
    }

    pub open spec fn symbol_spec(self) -> Seq<char> {
        match self {
            CheckRollupState::Success => "✓"@,
            CheckRollupState::Failure | CheckRollupState::Error => "✗"@,
            CheckRollupState::Pending => "…"@,
            CheckRollupState::Expected => "—"@,
        }
    }

    pub fn symbol(&self) -> (r: &str)
        ensures
            r@ == self.symbol_spec(),
    {
        match self {
            CheckRollupState::Success => "✓",
            CheckRollupState::Failure | CheckRollupState::Error => "✗",
            CheckRollupState::Pending => "…",
            CheckRollupState::Expected => "—",
        }
    }

    pub open spec fn color_spec(self) -> Color {
        match self {
            CheckRollupState::Success => Color::Green,
            CheckRollupState::Failure | CheckRollupState::Error => Color::Red,
            CheckRollupState::Pending => Color::Yellow,
            CheckRollupState::Expected => Color::DarkGray,
        }
    }

    pub fn color(&self) -> (r: Color)
        ensures
            r == self.color_spec(),
    {
        match self {
            CheckRollupState::Success => Color::Green,
            CheckRollupState::Failure | CheckRollupState::Error => Color::Red,
            CheckRollupState::Pending => Color::Yellow,
            CheckRollupState::Expected => Color::DarkGray,
        }
    }

    pub open spec fn label_spec(self) -> Seq<char> {
        match self {
            CheckRollupState::Success => "success"@,
            CheckRollupState::Failure => "failure"@,
            CheckRollupState::Pending => "pending"@,
            CheckRollupState::Error => "error"@,
            CheckRollupState::Expected => "no checks"@,
        }
    }

    pub fn label(&self) -> (r: &str)
        ensures
            r@ == self.label_spec(),
    {
        match self {
            CheckRollupState::Success => "success",
            CheckRollupState::Failure => "failure",
            CheckRollupState::Pending => "pending",
            CheckRollupState::Error => "error",
            CheckRollupState::Expected => "no checks",
        }
    }
}

/// Review decision from GitHub's branch protection rules
/// (GraphQL `reviewDecision`).
#[derive(Debug, Clone, Copy, PartialEq, Eq, Structural)]
pub enum ReviewDecision {
    Approved,
    ChangesRequested,
    ReviewRequired,
}

/// The review decision that a GraphQL `PullRequestReviewDecision` name
/// denotes, if it is one of the three known names.
pub open spec fn review_decision_of(s: Seq<char>) -> Option<ReviewDecision> {
    if s == "APPROVED"@ {
        Some(ReviewDecision::Approved)
    } else if s == "CHANGES_REQUESTED"@ {
        Some(ReviewDecision::ChangesRequested)
    } else if s == "REVIEW_REQUIRED"@ {
        Some(ReviewDecision::ReviewRequired)
    } else {
        None
    }
}

impl ReviewDecision {
    pub fn from_graphql(s: &str) -> (r: Option<Self>)
        ensures
            r == review_decision_of(s@),
    {
        if str_eq(s, "APPROVED") {
            Some(ReviewDecision::Approved)
        } else if str_eq(s, "CHANGES_REQUESTED") {
            Some(ReviewDecision::ChangesRequested)
        } else if str_eq(s, "REVIEW_REQUIRED") {
            Some(ReviewDecision::ReviewRequired)
        } else {
            None
        }
    }

    pub open spec fn symbol_spec(self) -> Seq<char> {
        match self {
            ReviewDecision::Approved => "✓"@,
            ReviewDecision::ChangesRequested => "✗"@,
            ReviewDecision::ReviewRequired => "○"@,
        }
    }

    pub fn symbol(&self) -> (r: &str)
        ensures
            r@ == self.symbol_spec(),
    {
        match self {
            ReviewDecision::Approved => "✓",
            ReviewDecision::ChangesRequested => "✗",
            ReviewDecision::ReviewRequired => "○",
        }
    }

    pub open spec fn color_spec(self) -> Color {
        match self {
            ReviewDecision::Approved => Color::Green,
            ReviewDecision::ChangesRequested => Color::Red,
            ReviewDecision::ReviewRequired => Color::Yellow,
        }
    }

    pub fn color(&self) -> (r: Color)
        ensures
            r == self.color_spec(),
    {
        match self {
            ReviewDecision::Approved => Color::Green,
            ReviewDecision::ChangesRequested => Color::Red,
            ReviewDecision::ReviewRequired => Color::Yellow,
        }
    }

    pub open spec fn label_spec(self) -> Seq<char> {
        match self {
            ReviewDecision::Approved => "approved"@,
            ReviewDecision::ChangesRequested => "changes requested"@,
            ReviewDecision::ReviewRequired => "review required"@,
        }
    }

    pub fn label(&self) -> (r: &str)
        ensures
            r@ == self.label_spec(),
    {
        match self {
            ReviewDecision::Approved => "approved",
            ReviewDecision::ChangesRequested => "changes requested",
            ReviewDecision::ReviewRequired => "review required",
        }
    }
}

/// How a file changed in a pull request (REST `files[].status`).
#[derive(Debug, Clone, Copy, PartialEq, Eq, Structural)]
pub enum FileStatus {
    Added,
    Modified,
    Deleted,
    Renamed,
    Copied,
    Unknown,
}

/// The file status that a REST status name denotes.
pub open spec fn file_status_of(s: Seq<char>) -> FileStatus {
    if s == "added"@ {
        FileStatus::Added
    } else if s == "modified"@ {
        FileStatus::Modified
    } else if s == "deleted"@ {
        FileStatus::Deleted
    } else if s == "renamed"@ {
        FileStatus::Renamed
    } else if s == "copied"@ {
        FileStatus::Copied
    } else {
        FileStatus::Unknown
    }
}

impl<'a> From<&'a str> for FileStatus {
    fn from(s: &'a str) -> (r: Self) {
        if str_eq(s, "added") {
            FileStatus::Added
        } else if str_eq(s, "modified") {
            FileStatus::Modified
        } else if str_eq(s, "deleted") {
            FileStatus::Deleted
        } else if str_eq(s, "renamed") {
            FileStatus::Renamed
        } else if str_eq(s, "copied") {
            FileStatus::Copied
        } else {
            FileStatus::Unknown
        }
    }
}

impl<'a> vstd::std_specs::convert::FromSpecImpl<&'a str> for FileStatus {
    open spec fn obeys_from_spec() -> bool {
        true
    }

    open spec fn from_spec(s: &'a str) -> Self {
        file_status_of(s@)
    }
}

impl FileStatus {
    pub open spec fn symbol_spec(self) -> Seq<char> {
        match self {
            FileStatus::Added => "+"@,
            FileStatus::Modified => "~"@,
            FileStatus::Deleted => "-"@,
            FileStatus::Renamed => "→"@,
            FileStatus::Copied => "⎘"@,
            FileStatus::Unknown => "?"@,
        }
    }

    pub fn symbol(&self) -> (r: &str)
        ensures
            r@ == self.symbol_spec(),
    {
        match self {
            FileStatus::Added => "+",
            FileStatus::Modified => "~",
            FileStatus::Deleted => "-",
            FileStatus::Renamed => "→",
            FileStatus::Copied => "⎘",
            FileStatus::Unknown => "?",
        }
    }

    pub open spec fn color_spec(self) -> Color {
        match self {
            FileStatus::Added => Color::Green,
            FileStatus::Modified => Color::Yellow,
            FileStatus::Deleted => Color::Red,
            FileStatus::Renamed | FileStatus::Copied => Color::Cyan,
            FileStatus::Unknown => Color::Reset,
        }
    }

    pub fn color(&self) -> (r: Color)
        ensures
            r == self.color_spec(),
    {
        match self {
            FileStatus::Added => Color::Green,
            FileStatus::Modified => Color::Yellow,
            FileStatus::Deleted => Color::Red,
            FileStatus::Renamed | FileStatus::Copied => Color::Cyan,
            FileStatus::Unknown => Color::Reset,
        }
    }
}

/// One changed file of a pull request.
#[derive(Debug, Clone)]
pub struct FileDiff {
    pub filename: String,
    pub status: FileStatus,
    pub additions: u32,
    pub deletions: u32,
    /// Raw unified diff patch, absent for binary files.
    pub patch: Option<String>,
}

/// Why a PR was removed from the merge queue.
#[derive(Debug, Clone, Copy, PartialEq, Eq, Structural)]
pub enum QueueRemovalReason {
    /// Status checks failed — the most common retry case.
    FailedChecks,
    /// The branch has a merge conflict.
    MergeConflict,
    /// Rejected by a merge queue rule.
    RejectedByRule,
    /// Manually removed or queue cleared — not a failure.
    Other,
}

/// The removal reason that a GraphQL reason name denotes.
pub open spec fn removal_reason_of(s: Seq<char>) -> QueueRemovalReason {
    if s == "FAILED_CHECKS"@ {
        QueueRemovalReason::FailedChecks
    } else if s == "MERGE_CONFLICT"@ {
        QueueRemovalReason::MergeConflict
    } else if s == "REJECTED_BY_MERGE_QUEUE_RULE"@ {
        QueueRemovalReason::RejectedByRule
    } else {
        QueueRemovalReason::Other
    }
}

impl<'a> From<&'a str> for QueueRemovalReason {
    fn from(s: &'a str) -> (r: Self) {
        if str_eq(s, "FAILED_CHECKS") {
            QueueRemovalReason::FailedChecks
        } else if str_eq(s, "MERGE_CONFLICT") {
            QueueRemovalReason::MergeConflict
        } else if str_eq(s, "REJECTED_BY_MERGE_QUEUE_RULE") {
            QueueRemovalReason::RejectedByRule
        } else {
            QueueRemovalReason::Other
        }
    }
}

impl<'a> vstd::std_specs::convert::FromSpecImpl<&'a str> for QueueRemovalReason {
    open spec fn obeys_from_spec() -> bool {
        true
    }

    open spec fn from_spec(s: &'a str) -> Self {
        removal_reason_of(s@)
    }
}

impl QueueRemovalReason {
    pub open spec fn label_spec(self) -> Seq<char> {
        match self {
            QueueRemovalReason::FailedChecks => "failed status checks"@,
            QueueRemovalReason::MergeConflict => "merge conflict"@,
            QueueRemovalReason::RejectedByRule => "rejected by merge queue rule"@,
            QueueRemovalReason::Other => "removed"@,
        }
    }

    pub fn label(&self) -> (r: &str)
        ensures
            r@ == self.label_spec(),
    {
        match self {
            QueueRemovalReason::FailedChecks => "failed status checks",
            QueueRemovalReason::MergeConflict => "merge conflict",
            QueueRemovalReason::RejectedByRule => "rejected by merge queue rule",
            QueueRemovalReason::Other => "removed",
        }
    }

    /// Whether this reason should cause the PR to appear as FailedMerge.
    pub open spec fn is_failure_spec(self) -> bool {
        self != QueueRemovalReason::Other
    }

    pub fn is_failure(&self) -> (r: bool)
        ensures
            r == self.is_failure_spec(),
    {
        !matches!(self, QueueRemovalReason::Other)
    }
}

} // verus!

verus! {

/// The most recent removal of a PR from the merge queue.
#[derive(Debug, Clone, Copy, PartialEq, Eq, Structural)]
pub struct QueueRemoval {
    pub at: Timestamp,
    pub reason: QueueRemovalReason,
}

/// The status of a pull request as the manager shows it.
#[derive(Debug, Clone, Copy, PartialEq, Eq, Structural)]
pub enum PrStatus {
    ReadyToMerge,
    FailedMerge,
    InQueue,
}

/// An open pull request with the merge-related facts the manager needs.
#[derive(Debug, Clone)]
pub struct PullRequest {
    pub number: u64,
    pub node_id: String,
    pub title: String,
    pub author: String,
    pub html_url: String,
    pub mergeable_state: MergeableState,
    pub merge_queue: Option<MergeQueueEntry>,
    pub check_rollup: Option<CheckRollupState>,
    pub review_decision: Option<ReviewDecision>,
    pub is_draft: bool,
    pub status: PrStatus,
    /// Most recent removal from the merge queue, if any.
    pub last_queue_removal: Option<QueueRemoval>,
}

/// The status of a pull request, from its merge state, its merge queue
/// entry and its last removal from the queue:
/// - in the queue: `FailedMerge` when the entry is unmergeable, else `InQueue`;
/// - out of the queue after a removal for a failure reason: `FailedMerge`;
/// - otherwise `ReadyToMerge` when the merge state is clean, else
///   `FailedMerge`.
pub open spec fn status_of(
    mergeable_state: MergeableState,
    merge_queue: Option<MergeQueueEntry>,
    last_queue_removal: Option<QueueRemoval>,
) -> PrStatus {
    match merge_queue {
        Some(entry) => if entry.state == MergeQueueState::Unmergeable {
            PrStatus::FailedMerge
        } else {
            PrStatus::InQueue
        },
        None => if last_queue_removal is Some && last_queue_removal->0.reason.is_failure_spec() {
            PrStatus::FailedMerge
        } else if mergeable_state == MergeableState::Clean {
            PrStatus::ReadyToMerge
        } else {
            PrStatus::FailedMerge
        },
    }
}

impl PullRequest {
    /// The status that a pull request's merge state, queue entry and last
    /// removal give it; whether it is a draft plays no part.
    pub fn compute_status(
        mergeable_state: &MergeableState,
        merge_queue: &Option<MergeQueueEntry>,
        _is_draft: bool,
        last_queue_removal: &Option<QueueRemoval>,
    ) -> (r: PrStatus)
        ensures
            r == status_of(*mergeable_state, *merge_queue, *last_queue_removal),
    {
        if let Some(entry) = merge_queue {
            match entry.state {
                MergeQueueState::Unmergeable => PrStatus::FailedMerge,
                MergeQueueState::Queued
                | MergeQueueState::Awaiting
                | MergeQueueState::Mergeable
                | MergeQueueState::Locked => PrStatus::InQueue,
            }
        } else {
            if let Some(removal) = last_queue_removal {
                if removal.reason.is_failure() {
                    return PrStatus::FailedMerge;
                }
            }
            match mergeable_state {
                MergeableState::Clean => PrStatus::ReadyToMerge,
                _ => PrStatus::FailedMerge,
            }
        }
    }
}

/// The status rules as the status table states them: a PR shown in the
/// queue has a merge queue entry, and every entry short of unmergeable
/// shows the PR in the queue; a PR is ready to merge exactly when its merge
/// state is clean, it is not in the queue, and it was not removed from the
/// queue for a failure.
pub proof fn lemma_status_table(
    mergeable_state: MergeableState,
    merge_queue: Option<MergeQueueEntry>,
    last_queue_removal: Option<QueueRemoval>,
)
    ensures
        status_of(mergeable_state, merge_queue, last_queue_removal) == PrStatus::InQueue
            ==> merge_queue is Some,
        merge_queue is Some && merge_queue->0.state != MergeQueueState::Unmergeable ==> status_of(
            mergeable_state,
            merge_queue,
            last_queue_removal,
        ) == PrStatus::InQueue,
        (status_of(mergeable_state, merge_queue, last_queue_removal) == PrStatus::ReadyToMerge)
            <==> (mergeable_state == MergeableState::Clean && merge_queue is None && !(
        last_queue_removal is Some && last_queue_removal->0.reason.is_failure_spec())),
{
}

} // verus!
