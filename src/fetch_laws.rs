use vstd::prelude::*;
use crate::error::{status_ok, ApiError};
use crate::pagination::{page_count, pages_for, PaginationRule};
use crate::request::{
    advanced, at_page, header_number, page_step, page_url, retry_budget, start_fetch, BodyView,
    FetchPhase, FetchView, Request, StepView,
};
use crate::request_url::url_accepted;

verus! {

/// A response as the fetch sees it: status, headers, body, and what the body
/// reads as.
pub struct Reply {
    pub status: u16,
    pub headers: Seq<(Seq<char>, Seq<char>)>,
    pub body: Seq<u8>,
    pub parsed: BodyView,
}

/// The fetch of `req` after the replies `rs`, in order: the request, the
/// fetch and the last step.
pub open spec fn replay(req: Request, rs: Seq<Reply>) -> (Request, FetchView, StepView)
    decreases rs.len(),
{
    if rs.len() == 0 {
        let (f, st) = start_fetch(req);
        (req, f, st)
    } else {
        let (r1, f1, _) = replay(req, rs.drop_last());
        let x = rs.last();
        page_step(r1, f1, x.status, x.headers, x.body, x.parsed)
    }
}

/// The values of the replies whose bodies are arrays, in order.
pub open spec fn items_of(rs: Seq<Reply>) -> Seq<serde_json::Value>
    decreases rs.len(),
{
    if rs.len() == 0 {
        Seq::empty()
    } else {
        items_of(rs.drop_last()) + match rs.last().parsed {
            BodyView::Items(v) => v,
            _ => Seq::empty(),
        }
    }
}

/// The number of pages the first reply gives under the request's rule.
pub open spec fn pages_of(req: Request, first: Reply) -> nat {
    page_count(
        header_number(first.headers, "x-total"@),
        header_number(first.headers, "x-per-page"@),
        req.pagination.pagination,
    )
}

/// The replies of a fetch over `c` pages that all go well: each a success
/// with a JSON array, the first with a total other than one; and every page
/// URL parses, and the page numbers fit.
pub open spec fn smooth_run(req: Request, rs: Seq<Reply>, c: nat) -> bool {
    &&& rs.len() == c
    &&& c >= 1
    &&& forall|i: int| 0 <= i < rs.len() ==> status_ok(#[trigger] rs[i].status)
    &&& forall|i: int| 0 <= i < rs.len() ==> #[trigger] rs[i].parsed is Items
    &&& header_number(rs[0].headers, "x-total"@) is Some
    &&& header_number(rs[0].headers, "x-total"@) != Option::Some(1u64)
    &&& pages_of(req, rs[0]) == c
    &&& req.pagination.current_page + c <= usize::MAX
    &&& forall|k: int| 0 <= k < c ==> url_accepted(#[trigger] page_url(at_page(req, req.pagination.current_page + k)))
}

proof fn lemma_smooth_prefix(req: Request, rs: Seq<Reply>, c: nat, k: nat)
    requires
        smooth_run(req, rs, c),
        1 <= k <= c,
    ensures
        ({
            let (r, f, st) = replay(req, rs.take(k as int));
            &&& r == at_page(req, req.pagination.current_page + k)
            &&& f.page_count == c
            &&& f.fetched == k
            &&& k < c ==> f.phase == FetchPhase::Pages && f.items == items_of(rs.take(k as int))
                && f.url == page_url(r) && f.retries_left == retry_budget(req.force_limit)
                && st == StepView::Send(page_url(r))
            &&& k == c ==> st == StepView::Items(items_of(rs.take(k as int)))
        }),
    decreases k,
{
    let start = req.pagination.current_page;
    let pre = rs.take(k - 1);
    assert(rs.take(k as int).drop_last() =~= pre);
    assert(rs.take(k as int).last() == rs[k - 1]);
    assert(at_page(req, start + 0) == req);
    if k == 1 {
        assert(pre.len() == 0);
        assert(url_accepted(page_url(at_page(req, start + 0))));
        let x = rs[0];
        assert(status_ok(x.status));
        assert(x.parsed is Items);
        let v = x.parsed->Items_0;
        assert(items_of(rs.take(1)) =~= items_of(pre) + v);
        assert(items_of(pre) =~= Seq::<serde_json::Value>::empty());
        assert(advanced(req) == at_page(req, start + 1));
        if 1 < c {
            assert(url_accepted(page_url(at_page(req, start + 1))));
        }
    } else {
        lemma_smooth_prefix(req, rs, c, (k - 1) as nat);
        let x = rs[k - 1];
        assert(status_ok(x.status));
        assert(x.parsed is Items);
        let v = x.parsed->Items_0;
        assert(items_of(rs.take(k as int)) =~= items_of(pre) + v);
        let r1 = at_page(req, start + (k - 1));
        assert(advanced(r1) == at_page(req, start + k));
        if k < c {
            assert(url_accepted(page_url(at_page(req, start + k))));
        }
    }
}

/// A fetch whose pages all go well sends for each page in turn and ends with
/// the values of every page, in the order the server gave them, with the
/// request's pagination as many pages further as there were pages.
pub proof fn lemma_smooth_fetch(req: Request, rs: Seq<Reply>, c: nat)
    requires
        smooth_run(req, rs, c),
    ensures
        replay(req, rs).0.pagination.current_page == req.pagination.current_page + c,
        replay(req, rs).2 == StepView::Items(items_of(rs)),
        forall|k: nat| 1 <= k < c ==> #[trigger] replay(req, rs.take(k as int)).2
            == StepView::Send(page_url(at_page(req, req.pagination.current_page + k))),
{
    lemma_smooth_prefix(req, rs, c, c);
    assert(rs.take(c as int) =~= rs);
    assert forall|k: nat| 1 <= k < c implies #[trigger] replay(req, rs.take(k as int)).2
        == StepView::Send(page_url(at_page(req, req.pagination.current_page + k))) by {
        lemma_smooth_prefix(req, rs, c, k);
    }
}

proof fn lemma_items_len(rs: Seq<Reply>, s: nat)
    requires
        forall|i: int| 0 <= i < rs.len() ==> #[trigger] rs[i].parsed is Items && rs[i].parsed->Items_0.len() == s,
    ensures
        items_of(rs).len() == rs.len() * s,
    decreases rs.len(),
{
    if rs.len() > 0 {
        let pre = rs.drop_last();
        assert forall|i: int| 0 <= i < pre.len() implies #[trigger] pre[i].parsed is Items
            && pre[i].parsed->Items_0.len() == s by {
            assert(pre[i] == rs[i]);
        }
        lemma_items_len(pre, s);
        assert(rs.last() == rs[rs.len() - 1]);
        assert(rs.len() * s == (rs.len() - 1) * s + s) by (nonlinear_arith);
    }
}

/// Under the rule `Fixed(n)` with `n >= 1`, against a server that reports a
/// total `t >= n * s` other than one, `s >= 1` items a page, and gives `s`
/// values on each page: the fetch ends after exactly `n` pages with `n * s`
/// values, and the request's pagination stands `n` pages further.
pub proof fn lemma_fixed_rule_fetch(req: Request, rs: Seq<Reply>, n: usize, s: u64, t: u64)
    requires
        req.pagination.pagination == PaginationRule::Fixed(n),
        n >= 1,
        s >= 1,
        t >= n * s,
        t != 1,
        rs.len() == n,
        header_number(rs[0].headers, "x-total"@) == Option::Some(t),
        header_number(rs[0].headers, "x-per-page"@) == Option::Some(s),
        forall|i: int| 0 <= i < rs.len() ==> status_ok(#[trigger] rs[i].status),
        forall|i: int| 0 <= i < rs.len() ==> #[trigger] rs[i].parsed is Items && rs[i].parsed->Items_0.len() == s,
        req.pagination.current_page + n <= usize::MAX,
        forall|k: int| 0 <= k < n ==> url_accepted(#[trigger] page_url(at_page(req, req.pagination.current_page + k))),
    ensures
        replay(req, rs).2 is Items,
        replay(req, rs).2->Items_0.len() == n * s,
        replay(req, rs).0.pagination.current_page == req.pagination.current_page + n,
        forall|k: nat| 1 <= k < n ==> #[trigger] replay(req, rs.take(k as int)).2 is Send,
{
    let ti = t as int;
    let si = s as int;
    let ni = n as int;
    assert(pages_for(t as nat, s as nat) >= n) by {
        assert((ti + si - 1) / si >= ni) by (nonlinear_arith)
            requires ti >= ni * si, si >= 1, ni >= 0;
    }
    assert(pages_of(req, rs[0]) == n);
    assert(rs[0].parsed is Items);
    lemma_smooth_fetch(req, rs, n as nat);
    lemma_items_len(rs, s as nat);
}

/// Under the rule `OneShot`, against a server that reports a total `t >= 2`
/// and `s >= 1` items a page, and gives `s` values on each page but the last
/// and the rest on the last: the fetch sends for each of the `ceil(t / s)`
/// pages in turn and ends with exactly `t` values, in the server's order.
pub proof fn lemma_one_shot_fetch(req: Request, rs: Seq<Reply>, s: u64, t: u64)
    requires
        req.pagination.pagination == PaginationRule::OneShot,
        s >= 1,
        t >= 2,
        rs.len() == pages_for(t as nat, s as nat),
        header_number(rs[0].headers, "x-total"@) == Option::Some(t),
        header_number(rs[0].headers, "x-per-page"@) == Option::Some(s),
        forall|i: int| 0 <= i < rs.len() ==> status_ok(#[trigger] rs[i].status),
        forall|i: int| 0 <= i < rs.len() - 1 ==> #[trigger] rs[i].parsed is Items && rs[i].parsed->Items_0.len() == s,
        rs.last().parsed is Items,
        rs.last().parsed->Items_0.len() == t - (rs.len() - 1) * s,
        req.pagination.current_page + rs.len() <= usize::MAX,
        forall|k: int| 0 <= k < rs.len() ==> url_accepted(#[trigger] page_url(at_page(req, req.pagination.current_page + k))),
    ensures
        replay(req, rs).2 == StepView::Items(items_of(rs)),
        items_of(rs).len() == t,
        forall|k: nat| 1 <= k < rs.len() ==> #[trigger] replay(req, rs.take(k as int)).2
            == StepView::Send(page_url(at_page(req, req.pagination.current_page + k))),
{
    let c = rs.len();
    assert(c >= 1) by {
        assert((t + s - 1) / (s as int) >= 1) by (nonlinear_arith)
            requires t >= 2, s >= 1;
    }
    assert forall|i: int| 0 <= i < rs.len() implies #[trigger] rs[i].parsed is Items by {
        if i == c - 1 {
            assert(rs[i] == rs.last());
        }
    }
    assert(pages_of(req, rs[0]) == c);
    lemma_smooth_fetch(req, rs, c);
    let pre = rs.drop_last();
    assert forall|i: int| 0 <= i < pre.len() implies #[trigger] pre[i].parsed is Items
        && pre[i].parsed->Items_0.len() == s by {
        assert(pre[i] == rs[i]);
    }
    lemma_items_len(pre, s as nat);
}

/// Under the rule `FirstPage`, whatever total the server reports, a fetch
/// whose first response is a success sends for no other page.
pub proof fn lemma_first_page_rule(req: Request, x: Reply)
    requires
        req.pagination.pagination == PaginationRule::FirstPage,
        url_accepted(page_url(req)),
        status_ok(x.status),
    ensures
        !(replay(req, seq![x]).2 is Send),
        !(replay(req, seq![x]).2 is Resend),
{
    assert(seq![x].drop_last() =~= Seq::<Reply>::empty());
    assert(seq![x].last() == x);
    let f0 = start_fetch(req).0;
    assert(replay(req, Seq::<Reply>::empty()).1 == f0);
    assert(replay(req, seq![x]) == page_step(req, f0, x.status, x.headers, x.body, x.parsed));
    let total = header_number(x.headers, "x-total"@);
    let per = header_number(x.headers, "x-per-page"@);
    assert(page_count(total, per, PaginationRule::FirstPage) == 1);
}

/// A request whose pagination is set back to page 1, however far it had gone
/// since it stood at page 1, fetches as it did then: it sends for the same
/// first page and, given the same replies, ends with the same result.
pub proof fn lemma_reset_restarts(req: Request, p: int, rs: Seq<Reply>)
    requires
        req.pagination.current_page == 1,
    ensures
        start_fetch(at_page(at_page(req, p), 1)) == start_fetch(req),
        replay(at_page(at_page(req, p), 1), rs) == replay(req, rs),
{
    assert(at_page(at_page(req, p), 1) == req);
}

proof fn lemma_throttle_prefix(req: Request, rs: Seq<Reply>, k: u8, j: nat)
    requires
        req.force_limit == Option::Some(k),
        url_accepted(page_url(req)),
        forall|i: int| 0 <= i < rs.len() ==> (#[trigger] rs[i]).status == 429,
        1 <= j <= k,
        j <= rs.len(),
    ensures
        replay(req, rs.take(j as int)).0 == req,
        replay(req, rs.take(j as int)).1 == (FetchView { retries_left: (k - j) as u8, ..start_fetch(req).0 }),
        replay(req, rs.take(j as int)).2 == StepView::Resend(page_url(req)),
    decreases j,
{
    assert(rs.take(j as int).drop_last() =~= rs.take(j - 1));
    assert(rs.take(j as int).last() == rs[j - 1]);
    if j > 1 {
        lemma_throttle_prefix(req, rs, k, (j - 1) as nat);
    } else {
        assert(rs.take(0) =~= Seq::<Reply>::empty());
    }
}

/// A request with `force_limit` of `Some(k)` that is throttled again and
/// again is sent again at once, to the same URL, exactly `k` times, and then
/// fails with `TooManyRequests`.
pub proof fn lemma_throttle_retries(req: Request, rs: Seq<Reply>, k: u8)
    requires
        req.force_limit == Option::Some(k),
        url_accepted(page_url(req)),
        rs.len() == k + 1,
        forall|i: int| 0 <= i < rs.len() ==> (#[trigger] rs[i]).status == 429,
    ensures
        forall|j: nat| 1 <= j <= k ==> #[trigger] replay(req, rs.take(j as int)).2 == StepView::Resend(page_url(req)),
        replay(req, rs).2 == StepView::Fail(ApiError::TooManyRequests),
{
    assert forall|j: nat| 1 <= j <= k implies #[trigger] replay(req, rs.take(j as int)).2
        == StepView::Resend(page_url(req)) by {
        lemma_throttle_prefix(req, rs, k, j);
    }
    assert(rs.drop_last() =~= rs.take(k as int));
    assert(rs.last() == rs[k as int]);
    if k > 0 {
        lemma_throttle_prefix(req, rs, k, k as nat);
    } else {
        assert(rs.take(0) =~= Seq::<Reply>::empty());
    }
}

/// A page after the first whose body is JSON but not an array ends the
/// fetch with `JsonValueNotArray`, and hands back none of the values
/// gathered before.
pub proof fn lemma_page_not_array(
    req: Request,
    f: FetchView,
    status: u16,
    headers: Seq<(Seq<char>, Seq<char>)>,
    body: Seq<u8>,
)
    requires
        f.phase == FetchPhase::Pages,
        status_ok(status),
    ensures
        page_step(req, f, status, headers, body, BodyView::NotArray).2 == StepView::Fail(ApiError::JsonValueNotArray),
{
}

} // verus!
