use vstd::prelude::*;

verus! {

/// Pagination request matching Zitadel Management API v2 semantics.
#[derive(Debug, Clone, Copy)]
pub struct PageRequest {
    pub offset: u64,
    pub limit: u32,
    pub asc: bool,
}

impl Default for PageRequest {
    fn default() -> (r: Self)
        ensures
            r.offset == 0,
            r.limit == 100,
            r.asc,
    {
        PageRequest { offset: 0, limit: 100, asc: true }
    }
}

/// One page of a list endpoint: its items and the total the server reports.
#[derive(Debug)]
pub struct Page<T> {
    pub items: Vec<T>,
    pub total: u64,
}

/// Progress of draining every page of a list endpoint: the request for the
/// next page and the items collected so far.
pub struct PageCursor<T> {
    next: PageRequest,
    collected: Vec<T>,
}

/// What to do after a page was accepted.
pub enum PageStep<T> {
    /// Fetch the cursor's next page.
    Continue(PageCursor<T>),
    /// Every page has been read: all items, in order.
    Done(Vec<T>),
}

/// Whether draining goes on after a page of `got` items, given the page size
/// `limit`, the server's `total` and the number `collected` of items held
/// once the page is added: it stops on an empty page, on a short page, and
/// once a positive total has been reached.
pub open spec fn spec_continues(got: nat, limit: nat, total: nat, collected: nat) -> bool {
    got != 0 && got >= limit && !(total > 0 && collected >= total)
}

/// One drain step: cursor `c` accepted a page of `items` reporting `total`
/// and answered `step`. Draining goes on with a cursor that holds every
/// item so far and asks for the page right after them; otherwise all items
/// so far are handed back, in order.
pub open spec fn spec_step<T>(c: PageCursor<T>, items: Seq<T>, total: u64, step: PageStep<T>) -> bool {
    let all = c.spec_collected() + items;
    let go = spec_continues(items.len(), c.spec_next().limit as nat, total as nat, all.len());
    match step {
        PageStep::Continue(n) => go && n.wf() && n.spec_collected() == all && n.spec_next().offset
            == c.spec_next().offset + items.len() && n.spec_next().limit == c.spec_next().limit
            && n.spec_next().asc == c.spec_next().asc,
        PageStep::Done(v) => !go && v@ == all,
    }
}

impl<T> PageCursor<T> {
    /// The request for the next page.
    pub closed spec fn spec_next(&self) -> PageRequest {
        self.next
    }

    /// The items collected so far.
    pub closed spec fn spec_collected(&self) -> Seq<T> {
        self.collected@
    }

    /// The next page starts right after the items already collected, with
    /// the default page size and ascending order.
    pub closed spec fn wf(&self) -> bool {
        &&& self.next.offset == self.collected@.len()
        &&& self.next.limit == 100
        &&& self.next.asc
    }

    /// A well-formed cursor requests the page that starts right after the
    /// items already collected, with the default page size, ascending.
    pub proof fn lemma_next_follows_collected(&self)
        requires
            self.wf(),
        ensures
            self.spec_next().offset == self.spec_collected().len(),
            self.spec_next().limit == 100,
            self.spec_next().asc,
    {
    }

    /// A cursor before the first page.
    pub fn new() -> (c: Self)
        ensures
            c.wf(),
            c.spec_collected().len() == 0,
            c.spec_next().offset == 0,
    {
        PageCursor { next: PageRequest::default(), collected: Vec::new() }
    }

    /// The request for the next page.
    pub fn request(&self) -> (r: PageRequest)
        ensures
            r == self.spec_next(),
    {
        self.next
    }

    /// Adds a fetched page and decides whether to fetch another one.
    pub fn accept(self, page: Page<T>) -> (step: PageStep<T>)
        requires
            self.wf(),
        ensures
            spec_step(self, page.items@, page.total, step),
    {
        let PageCursor { next, mut collected } = self;
        let Page { mut items, total } = page;
        let got: usize = items.len();
        collected.append(&mut items);
        let count: usize = collected.len();
        if got == 0 {
            return PageStep::Done(collected);
        }
        if (got as u64) < (next.limit as u64) {
            return PageStep::Done(collected);
        }
        if total > 0 && (count as u64) >= total {
            return PageStep::Done(collected);
        }
        let req = PageRequest { offset: count as u64, limit: next.limit, asc: next.asc };
        PageStep::Continue(PageCursor { next: req, collected })
    }
}

/// Draining is bounded by a positive total: once the collected items reach
/// it, no further page is requested.
pub proof fn lemma_stops_at_total(got: nat, limit: nat, total: nat, collected: nat)
    requires
        total > 0,
        collected >= total,
    ensures
        !spec_continues(got, limit, total, collected),
{
}

/// Under a positive total, each page after which draining goes on brings at
/// least a full page of items and leaves some still missing: the items still
/// missing shrink by at least the page size, so at most `total / limit + 1`
/// pages are fetched.
pub proof fn lemma_progress_toward_total(got: nat, limit: nat, total: nat, before: nat, collected: nat)
    requires
        total > 0,
        collected == before + got,
        spec_continues(got, limit, total, collected),
    ensures
        collected < total,
        total - collected <= total - before - limit,
{
}

/// A page shorter than the page size is the last one.
pub proof fn lemma_short_page_is_last(got: nat, limit: nat, total: nat, collected: nat)
    requires
        got < limit,
    ensures
        !spec_continues(got, limit, total, collected),
{
}

/// The items of the first `k` pages of a drain, in order.
pub open spec fn spec_drained<T>(pages: Seq<Seq<T>>, k: int) -> Seq<T>
    decreases k,
{
    if k <= 0 {
        Seq::empty()
    } else {
        spec_drained(pages, k - 1) + pages[k - 1]
    }
}

/// The number of items on the first `k` pages: `g_1 + ... + g_k`.
pub open spec fn spec_page_sum<T>(pages: Seq<Seq<T>>, k: int) -> nat
    decreases k,
{
    if k <= 0 {
        0
    } else {
        spec_page_sum(pages, k - 1) + pages[k - 1].len()
    }
}

/// Whether draining goes on after the `k`-th page (counted from 1), whose
/// response reported the total `totals[k - 1]`.
pub open spec fn spec_goes_on<T>(pages: Seq<Seq<T>>, totals: Seq<u64>, k: int) -> bool {
    spec_continues(pages[k - 1].len(), 100, totals[k - 1] as nat, spec_drained(pages, k).len())
}

/// The first `k` pages hold `g_1 + ... + g_k` items.
pub proof fn lemma_drained_len<T>(pages: Seq<Seq<T>>, k: int)
    requires
        0 <= k <= pages.len(),
    ensures
        spec_drained(pages, k).len() == spec_page_sum(pages, k),
    decreases k,
{
    if k > 0 {
        lemma_drained_len(pages, k - 1);
    }
}

/// One step of draining every page from a fresh cursor: a cursor that holds
/// the first `k - 1` pages asks for the `k`-th one at offset
/// `g_1 + ... + g_(k-1)` with the default page size, ascending; accepting
/// that page leaves it with (or returns, when draining stops) the first `k`
/// pages in order.
pub proof fn lemma_drain_step<T>(c: PageCursor<T>, pages: Seq<Seq<T>>, k: int)
    requires
        c.wf(),
        1 <= k <= pages.len(),
        c.spec_collected() == spec_drained(pages, k - 1),
    ensures
        c.spec_next().offset == spec_page_sum(pages, k - 1),
        c.spec_next().limit == 100,
        c.spec_next().asc,
        c.spec_collected() + pages[k - 1] == spec_drained(pages, k),
{
    lemma_drained_len(pages, k - 1);
}

/// Draining is bounded by a positive total `t` reported by every page: when
/// draining went on after each of the first `k - 1` pages, every one of them
/// was a full page and their items stayed below `t`, so the `k`-th fetch is
/// at most the `ceil(t / 100)`-th.
pub proof fn lemma_drain_bounded<T>(pages: Seq<Seq<T>>, totals: Seq<u64>, t: nat, k: int)
    requires
        t > 0,
        1 <= k <= pages.len(),
        totals.len() == pages.len(),
        forall|j: int| 0 <= j < totals.len() ==> totals[j] == t,
        forall|j: int| 1 <= j < k ==> #[trigger] spec_goes_on(pages, totals, j),
    ensures
        k <= (t + 99) / 100,
{
    lemma_full_pages(pages, totals, k - 1);
    if k >= 2 {
        assert(spec_goes_on(pages, totals, k - 1));
        assert(spec_drained(pages, k - 1).len() < t);
    }
    let m = k - 1;
    let d = spec_drained(pages, m).len() as int;
    assert(k <= (t + 99) / 100) by (nonlinear_arith)
        requires
            m == k - 1,
            m >= 0,
            t > 0,
            d >= 100 * m,
            m >= 1 ==> d < t,
    ;
}

/// Pages after which draining went on were full: the first `m` such pages
/// hold at least `100 * m` items.
proof fn lemma_full_pages<T>(pages: Seq<Seq<T>>, totals: Seq<u64>, m: int)
    requires
        0 <= m < pages.len(),
        totals.len() == pages.len(),
        forall|j: int| 1 <= j <= m ==> #[trigger] spec_goes_on(pages, totals, j),
    ensures
        spec_drained(pages, m).len() >= 100 * m,
    decreases m,
{
    if m > 0 {
        lemma_full_pages(pages, totals, m - 1);
        assert(spec_goes_on(pages, totals, m));
    }
}

/// The cursors of a drain run from a fresh cursor through `pages`, whose
/// responses reported `totals`, up to the cursor that accepted the last page.
proof fn lemma_run_prefix<T>(cursors: Seq<PageCursor<T>>, pages: Seq<Seq<T>>, totals: Seq<u64>, j: int)
    requires
        cursors.len() == pages.len(),
        totals.len() == pages.len(),
        cursors[0].wf(),
        cursors[0].spec_collected().len() == 0,
        cursors[0].spec_next().offset == 0,
        forall|i: int|
            1 <= i < cursors.len() ==> #[trigger] spec_step(
                cursors[i - 1],
                pages[i - 1],
                totals[i - 1],
                PageStep::Continue(cursors[i]),
            ),
        0 <= j < cursors.len(),
    ensures
        cursors[j].wf(),
        cursors[j].spec_collected() == spec_drained(pages, j),
        forall|i: int| 1 <= i <= j ==> #[trigger] spec_goes_on(pages, totals, i),
    decreases j,
{
    if j == 0 {
        assert(cursors[0].spec_collected() =~= spec_drained(pages, 0));
    } else {
        lemma_run_prefix(cursors, pages, totals, j - 1);
        assert(spec_step(cursors[j - 1], pages[j - 1], totals[j - 1], PageStep::Continue(cursors[j])));
        cursors[j - 1].lemma_next_follows_collected();
        assert(spec_goes_on(pages, totals, j));
    }
}

/// Draining went on after the `k`-th page (counted from 1): it was a full
/// page, and a positive total it reported was not yet reached.
pub open spec fn spec_went_on<T>(pages: Seq<Seq<T>>, totals: Seq<u64>, k: int) -> bool {
    &&& pages[k - 1].len() >= 100
    &&& spec_goes_on(pages, totals, k)
    &&& !(totals[k - 1] > 0 && spec_drained(pages, k).len() >= totals[k - 1])
}

/// A whole drain of a list endpoint: from a fresh cursor, the `k`-th fetched
/// page (counted from 0) holds `pages[k]` and reported the total `totals[k]`;
/// draining went on after every page but the last, and `last` is what the
/// last page was answered with. Then:
/// - the `k`-th request asks for offset `g_1 + ... + g_k` (the sizes of the
///   earlier pages), with page size 100, ascending;
/// - draining went on only after full pages that left a reported positive
///   total unreached;
/// - when the run ends, it hands back all pages' items in order, and it ended
///   because the last page was empty or short or reached a positive total;
/// - when every page reported the same positive total `t`, at most
///   `max(1, ceil(t / 100))` pages were fetched (`(t + 99) / 100`).
pub proof fn lemma_drain_run<T>(
    cursors: Seq<PageCursor<T>>,
    pages: Seq<Seq<T>>,
    totals: Seq<u64>,
    last: PageStep<T>,
)
    requires
        1 <= pages.len(),
        cursors.len() == pages.len(),
        totals.len() == pages.len(),
        cursors[0].wf(),
        cursors[0].spec_collected().len() == 0,
        cursors[0].spec_next().offset == 0,
        forall|i: int|
            1 <= i < cursors.len() ==> #[trigger] spec_step(
                cursors[i - 1],
                pages[i - 1],
                totals[i - 1],
                PageStep::Continue(cursors[i]),
            ),
        spec_step(cursors[cursors.len() - 1], pages[pages.len() - 1], totals[totals.len() - 1], last),
    ensures
        forall|k: int|
            0 <= k < cursors.len() ==> (#[trigger] cursors[k]).spec_next().offset == spec_page_sum(pages, k)
                && cursors[k].spec_next().limit == 100 && cursors[k].spec_next().asc,
        forall|k: int| 1 <= k < pages.len() ==> #[trigger] spec_went_on(pages, totals, k),
        last matches PageStep::Done(v) ==> v@ == spec_drained(pages, pages.len() as int) && !spec_goes_on(
            pages,
            totals,
            pages.len() as int,
        ),
        totals[0] > 0 && (forall|k: int| 0 <= k < totals.len() ==> #[trigger] totals[k] == totals[0])
            ==> pages.len() <= (totals[0] + 99) / 100,
{
    let n = pages.len() as int;
    assert forall|k: int| 0 <= k < cursors.len() implies (#[trigger] cursors[k]).spec_next().offset
        == spec_page_sum(pages, k) && cursors[k].spec_next().limit == 100 && cursors[k].spec_next().asc by {
        lemma_run_prefix(cursors, pages, totals, k);
        cursors[k].lemma_next_follows_collected();
        lemma_drained_len(pages, k);
    }
    assert(last matches PageStep::Done(v) ==> v@ == spec_drained(pages, n) && !spec_goes_on(pages, totals, n))
        by {
        lemma_run_prefix(cursors, pages, totals, n - 1);
        cursors[n - 1].lemma_next_follows_collected();
    }
    if totals[0] > 0 && (forall|k: int| 0 <= k < totals.len() ==> #[trigger] totals[k] == totals[0]) {
        lemma_run_prefix(cursors, pages, totals, n - 1);
        lemma_drain_bounded(pages, totals, totals[0] as nat, n);
    }
    assert forall|k: int| 1 <= k < pages.len() implies #[trigger] spec_went_on(pages, totals, k) by {
        lemma_run_prefix(cursors, pages, totals, k);
        assert(spec_goes_on(pages, totals, k));
        assert(spec_continues(pages[k - 1].len(), 100, totals[k - 1] as nat, spec_drained(pages, k).len()));
    }
}

} // verus!
