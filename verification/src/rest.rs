//! The global order of the pull-request list.
use vstd::prelude::*;
use crate::models::{PrStatus, PullRequest};
use crate::sort::{
    lemma_insert_by_key_at, lemma_sort_by_key_permutes, lemma_sort_by_key_sorted,
    lemma_sort_by_key_stable, sort_by_key, sorted_by_key, with_key,
};

verus! {

/// The rank of a status in the list: failed first, then ready, then queued.
pub open spec fn status_rank(s: PrStatus) -> int {
    match s {
        PrStatus::FailedMerge => 0,
        PrStatus::ReadyToMerge => 1,
        PrStatus::InQueue => 2,
    }
}

/// The sort key of the list: by status rank, then by descending number.
pub open spec fn list_order_key(p: PullRequest) -> int {
    status_rank(p.status) * 0x1_0000_0000_0000_0000int + (0xFFFF_FFFF_FFFF_FFFFint - p.number)
}

pub open spec fn list_order() -> spec_fn(PullRequest) -> int {
    |p: PullRequest| list_order_key(p)
}

fn rank(s: &PrStatus) -> (r: u8)
    ensures
        r == status_rank(*s),
{
    match s {
        PrStatus::FailedMerge => 0,
        PrStatus::ReadyToMerge => 1,
        PrStatus::InQueue => 2,
    }
}

/// Whether `a` may stand before `b` in the list order (its key is not larger).
fn list_order_le(a: &PullRequest, b: &PullRequest) -> (r: bool)
    ensures
        r == (list_order_key(*a) <= list_order_key(*b)),
{
    let ra = rank(&a.status);
    let rb = rank(&b.status);
    ra < rb || (ra == rb && a.number >= b.number)
}

/// Whether `a` comes before `b` in the list order: by status, failed
/// before ready before queued, then by descending number.
pub open spec fn list_before(a: PullRequest, b: PullRequest) -> bool {
    status_rank(a.status) < status_rank(b.status) || (status_rank(a.status) == status_rank(
        b.status,
    ) && a.number >= b.number)
}

/// Sort all PRs: FailedMerge first, ReadyToMerge second, InQueue last,
/// descending by number within each group; the sort is stable.
pub fn build_pull_requests(prs: Vec<PullRequest>) -> (r: Vec<PullRequest>)
    ensures
        r@ == sort_by_key(prs@, list_order()),
        r@.to_multiset() == prs@.to_multiset(),
        forall|i: int, j: int|
            0 <= i <= j < r@.len() ==> list_before(#[trigger] r@[i], #[trigger] r@[j]),
        forall|k: int| #[trigger]
            with_key(r@, list_order(), k) == with_key(prs@, list_order(), k),
{
    let ghost input = prs@;
    let n = prs.len();
    let mut rest = prs;
    let mut out: Vec<PullRequest> = Vec::new();
    let mut i: usize = 0;
    while i < n
        invariant
            n == input.len(),
            i <= n,
            rest@ == input.skip(i as int),
            out@ == sort_by_key(input.take(i as int), list_order()),
        decreases n - i,
    {
        let x = rest.remove(0);
        let mut j = out.len();
        while j > 0 && !list_order_le(&out[j - 1], &x)
            invariant
                j <= out.len(),
                forall|k: int| j <= k < out.len() ==> list_order_key(out@[k]) > list_order_key(x),
            decreases j,
        {
            j = j - 1;
        }
        proof {
            lemma_insert_by_key_at(out@, x, list_order(), j as int);
            assert(input.take(i + 1).drop_last() =~= input.take(i as int));
            assert(input.take(i + 1).last() == x);
        }
        out.insert(j, x);
        i = i + 1;
        proof {
            assert(rest@ =~= input.skip(i as int));
        }
    }
    proof {
        assert(input.take(n as int) =~= input);
        lemma_sort_by_key_permutes(input, list_order());
        lemma_sort_by_key_sorted(input, list_order());
        assert forall|k: int| #[trigger]
            with_key(out@, list_order(), k) == with_key(input, list_order(), k) by {
            lemma_sort_by_key_stable(input, list_order(), k);
        }
        assert forall|i: int, j: int| 0 <= i <= j < out@.len() implies list_before(
            #[trigger] out@[i],
            #[trigger] out@[j],
        ) by {
            assert(list_order_key(out@[i]) <= list_order_key(out@[j]));
        }
    }
    out
}

} // verus!
