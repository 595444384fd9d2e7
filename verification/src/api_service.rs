//! The paged fetch aggregators.
//!
//! Both aggregators are written against a *page store*: a vector whose
//! element `i` holds the server's response to a request for page `i + 1`.
//! A page past the end of the store is an end-of-stream page (no records).
//! The store stands for one stable view of the remote catalog, so a caller
//! that drives real requests feeds the responses it received; the incremental
//! `SerialAggregator` and `ParallelAggregator` state machines carry the same
//! logic one event at a time for such callers.

use vstd::prelude::*;
use crate::model::{APIResponse, APIResponseV, Course, CourseV};

verus! {

/// Number of records requested per page: the server's documented ceiling.
pub const PAGE_SIZE: u32 = 100;

/// Width of one dispatch batch of the threaded aggregator: the most page
/// fetches ever in flight at once.
pub const WORKERS: u32 = 8;

/// The envelope the store answers for page `n`: the stored envelope when the
/// store holds page `n`, and an end-of-stream envelope past the end.
pub open spec fn page_envelope(pages: Seq<APIResponseV>, n: int) -> APIResponseV {
    if 1 <= n <= pages.len() {
        pages[n - 1]
    } else {
        APIResponseV { page_size: PAGE_SIZE, page_number: n as u32, total: 0, classes: Seq::empty() }
    }
}

/// The records the store answers for page `n`.
pub open spec fn page_classes(pages: Seq<APIResponseV>, n: int) -> Seq<CourseV> {
    page_envelope(pages, n).classes
}

/// The `total` field of the probe (page 1) envelope.
pub open spec fn probe_total(pages: Seq<APIResponseV>) -> u32 {
    page_envelope(pages, 1).total
}

/// What serial aggregation collects from page `n` on: each page's records in
/// page order, up to (and excluding) the first empty page.
pub open spec fn serial_from(pages: Seq<APIResponseV>, n: int) -> Seq<CourseV>
    decreases pages.len() - n + 1,
{
    if n < 1 || n > pages.len() {
        Seq::empty()
    } else if page_classes(pages, n).len() == 0 {
        Seq::empty()
    } else {
        page_classes(pages, n) + serial_from(pages, n + 1)
    }
}

/// Everything serial aggregation returns: pages 1, 2, 3, ... until the first
/// empty page, concatenated in page order.
pub open spec fn serial_classes(pages: Seq<APIResponseV>) -> Seq<CourseV> {
    serial_from(pages, 1)
}

/// How many pages the parallel aggregator plans to fetch: enough for `total`
/// records plus one page of conservative overshoot, so that the workers meet
/// the empty end-of-stream page themselves.
pub open spec fn spec_total_pages(total: int, page_size: int) -> int
    recommends
        page_size >= 1,
{
    total / page_size + (if total % page_size > 0 { 1int } else { 0int }) + 1
}

/// The page plan of the parallel aggregator, computed from the probed total.
pub fn plan_total_pages(total: u32, page_size: u32) -> (r: u32)
    requires
        page_size >= 1,
        spec_total_pages(total as int, page_size as int) <= u32::MAX as int,
    ensures
        r as int == spec_total_pages(total as int, page_size as int),
{
    let quotient = total / page_size;
    let remainder: u32 = if total % page_size > 0 { 1 } else { 0 };
    quotient + remainder + 1
}

/// The records of the batch of `WORKERS` pages starting at page `cur`, one
/// page per worker.
pub open spec fn batch_parts(pages: Seq<APIResponseV>, cur: int) -> Seq<Seq<CourseV>> {
    Seq::new(WORKERS as nat, |i: int| page_classes(pages, cur + i))
}

/// The per-page results the parallel aggregator fetches from page `cur` on,
/// batch by batch, until the cursor passes `total_pages`.
pub open spec fn fetched_parts(pages: Seq<APIResponseV>, cur: int, total_pages: int) -> Seq<
    Seq<CourseV>,
>
    decreases total_pages + WORKERS - cur,
{
    if cur > total_pages {
        Seq::empty()
    } else {
        batch_parts(pages, cur) + fetched_parts(pages, cur + WORKERS as int, total_pages)
    }
}

/// What parallel aggregation collects from page `cur` on when every batch
/// arrives in page order.
pub open spec fn parallel_from(pages: Seq<APIResponseV>, cur: int, total_pages: int) -> Seq<
    CourseV,
>
    decreases total_pages + WORKERS - cur,
{
    if cur > total_pages {
        Seq::empty()
    } else {
        batch_parts(pages, cur).flatten() + parallel_from(pages, cur + WORKERS as int, total_pages)
    }
}

/// Everything the threaded aggregator returns over a store, with in-order
/// arrival inside every batch.
pub open spec fn parallel_classes(pages: Seq<APIResponseV>) -> Seq<CourseV> {
    parallel_from(
        pages,
        1,
        spec_total_pages(probe_total(pages) as int, PAGE_SIZE as int),
    )
}

/// One page fetch against the store: the envelope for `page_number`.
///
/// The result is a function of the store and the page number alone, so two
/// fetches of the same page against the same store answer the same envelope.
pub fn get_responses_paged(pages: Vec<APIResponse>, page_number: u32) -> (response: APIResponse)
    requires
        1 <= page_number,
    ensures
        response.deep_view() == page_envelope(pages.deep_view(), page_number as int),
{
    let ghost gpages = pages.deep_view();
    let mut rest = pages;
    let n = page_number as usize;
    if n <= rest.len() {
        let response = rest.remove(n - 1);
        proof {
            assert(response.deep_view() == gpages[n as int - 1]);
        }
        response
    } else {
        let response = APIResponse {
            page_size: PAGE_SIZE,
            page_number,
            total: 0,
            classes: Vec::new(),
        };
        proof {
            assert(response.deep_view().classes =~= Seq::<CourseV>::empty());
            assert(response.deep_view() =~= page_envelope(gpages, page_number as int));
        }
        response
    }
}

/// One page fetch, keeping only the records.
pub fn get_classes_paged(pages: Vec<APIResponse>, page_number: u32) -> (classes: Vec<Course>)
    requires
        1 <= page_number,
    ensures
        classes.deep_view() == page_classes(pages.deep_view(), page_number as int),
{
    let response = get_responses_paged(pages, page_number);
    response.classes
}

/// Serial aggregation: walk pages 1, 2, 3, ... of the store and concatenate
/// each page's records, in page order, until the first empty page.
pub fn get_classes_serially(pages: Vec<APIResponse>) -> (classes: Vec<Course>)
    ensures
        classes.deep_view() == serial_classes(pages.deep_view()),
{
    let ghost gpages = pages.deep_view();
    let mut rest = pages;
    let mut classes: Vec<Course> = Vec::new();
    let ghost mut page_number: int = 1;
    let mut done = false;
    proof {
        assert(classes.deep_view() =~= Seq::<CourseV>::empty());
        assert(classes.deep_view() + serial_from(gpages, 1) =~= serial_from(gpages, 1));
    }
    while !done
        invariant
            1 <= page_number <= gpages.len() + 1,
            !done ==> rest@.len() == gpages.len() + 1 - page_number,
            !done ==> forall|i: int|
                0 <= i < rest@.len() ==> rest@[i].deep_view() == gpages[page_number - 1 + i],
            !done ==> classes.deep_view() + serial_from(gpages, page_number)
                == serial_classes(gpages),
            done ==> classes.deep_view() == serial_classes(gpages),
        decreases (if done { 0int } else { gpages.len() + 2 - page_number }),
    {
        if rest.len() == 0 {
            proof {
                assert(serial_from(gpages, page_number) =~= Seq::<CourseV>::empty());
                assert(classes.deep_view() + serial_from(gpages, page_number)
                    =~= classes.deep_view());
            }
            done = true;
        } else {
            let ghost old_rest = rest@;
            let mut response = rest.remove(0);
            let ghost page_records = response.classes.deep_view();
            proof {
                assert(response.deep_view() == gpages[page_number - 1]);
                assert(page_records == page_classes(gpages, page_number));
                assert(forall|i: int|
                    0 <= i < rest@.len() ==> rest@[i] == old_rest[i + 1]);
            }
            if response.classes.len() == 0 {
                proof {
                    assert(serial_from(gpages, page_number) =~= Seq::<CourseV>::empty());
                    assert(classes.deep_view() + serial_from(gpages, page_number)
                        =~= classes.deep_view());
                }
                done = true;
            } else {
                let ghost old_classes = classes.deep_view();
                classes.append(&mut response.classes);
                proof {
                    assert(classes.deep_view() =~= old_classes + page_records);
                    assert(serial_from(gpages, page_number) == page_records + serial_from(
                        gpages,
                        page_number + 1,
                    ));
                    assert(classes.deep_view() + serial_from(gpages, page_number + 1)
                        =~= old_classes + serial_from(gpages, page_number));
                    page_number = page_number + 1;
                }
            }
        }
    }
    classes
}

/// The serial aggregator as a state machine, for callers that fetch each page
/// themselves: ask `next_request` which page to fetch, answer with `on_page`.
pub struct SerialAggregator {
    next_page: u32,
    finished: bool,
    classes: Vec<Course>,
}

impl SerialAggregator {
    /// The page the aggregator asks for next.
    pub closed spec fn next_page_spec(&self) -> u32 {
        self.next_page
    }

    /// Whether end-of-stream has been seen.
    pub closed spec fn is_done_spec(&self) -> bool {
        self.finished
    }

    /// Everything collected so far, in page order.
    pub closed spec fn collected(&self) -> Seq<CourseV> {
        self.classes.deep_view()
    }

    /// A fresh aggregation: nothing collected, page 1 up next.
    pub fn new() -> (s: Self)
        ensures
            !s.is_done_spec(),
            s.next_page_spec() == 1,
            s.collected() == Seq::<CourseV>::empty(),
    {
        let s = SerialAggregator { next_page: 1, finished: false, classes: Vec::new() };
        proof {
            assert(s.collected() =~= Seq::<CourseV>::empty());
        }
        s
    }

    /// The page to fetch next, or `None` once the first empty page arrived.
    /// After an empty page no further request is ever issued.
    pub fn next_request(&self) -> (r: Option<u32>)
        ensures
            r == (if self.is_done_spec() {
                None::<u32>
            } else {
                Some(self.next_page_spec())
            }),
    {
        if self.finished {
            None
        } else {
            Some(self.next_page)
        }
    }

    /// Feed the envelope fetched for the requested page. An empty page ends
    /// the aggregation and contributes nothing; any other page's records are
    /// appended in page order and the cursor moves one page on.
    pub fn on_page(&mut self, response: APIResponse)
        requires
            !old(self).is_done_spec(),
            old(self).next_page_spec() < u32::MAX,
        ensures
            if response.deep_view().classes.len() == 0 {
                &&& final(self).is_done_spec()
                &&& final(self).collected() == old(self).collected()
                &&& final(self).next_page_spec() == old(self).next_page_spec()
            } else {
                &&& !final(self).is_done_spec()
                &&& final(self).collected() == old(self).collected() + response.deep_view().classes
                &&& final(self).next_page_spec() == old(self).next_page_spec() + 1
            },
    {
        let mut response = response;
        let ghost page_records = response.classes.deep_view();
        if response.classes.len() == 0 {
            self.finished = true;
        } else {
            let ghost old_collected = self.classes.deep_view();
            self.classes.append(&mut response.classes);
            proof {
                assert(self.classes.deep_view() =~= old_collected + page_records);
            }
            self.next_page = self.next_page + 1;
        }
    }

    /// Hand the collected records out.
    pub fn into_classes(self) -> (classes: Vec<Course>)
        ensures
            classes.deep_view() == self.collected(),
    {
        self.classes
    }
}

/// The parallel aggregator as a state machine. `next_batch` hands out the
/// next `WORKERS` page numbers, one per worker; the caller joins the batch
/// and feeds the per-worker results, in arrival order, to `on_batch`.
pub struct ParallelAggregator {
    cur_page: u32,
    total_pages: u32,
    classes: Vec<Course>,
}

impl ParallelAggregator {
    /// The first page of the next batch.
    pub closed spec fn cur_page_spec(&self) -> u32 {
        self.cur_page
    }

    /// The planned fetch horizon.
    pub closed spec fn total_pages_spec(&self) -> u32 {
        self.total_pages
    }

    /// Everything merged so far, in arrival order.
    pub closed spec fn collected(&self) -> Seq<CourseV> {
        self.classes.deep_view()
    }

    /// Bounds every state of the aggregator keeps: the cursor never runs more
    /// than one batch past the horizon, and no page number overflows.
    pub closed spec fn wf(&self) -> bool {
        &&& 1 <= self.cur_page
        &&& self.cur_page as int <= self.total_pages as int + WORKERS as int
        &&& self.total_pages as int + WORKERS as int <= u32::MAX as int
    }

    /// Plan a fetch from the probed `total`: records seen so far tell how
    /// many pages exist, plus one page of overshoot (see `spec_total_pages`).
    pub fn start(total: u32) -> (s: Self)
        ensures
            s.wf(),
            s.cur_page_spec() == 1,
            s.collected() == Seq::<CourseV>::empty(),
            s.total_pages_spec() as int == spec_total_pages(total as int, PAGE_SIZE as int),
    {
        proof {
            assert(total as int / PAGE_SIZE as int <= total as int && total as int
                / PAGE_SIZE as int >= 0) by (nonlinear_arith)
                requires PAGE_SIZE as int >= 1 && total as int >= 0;
        }
        let total_pages = plan_total_pages(total, PAGE_SIZE);
        let s = ParallelAggregator { cur_page: 1, total_pages, classes: Vec::new() };
        proof {
            assert(s.collected() =~= Seq::<CourseV>::empty());
        }
        s
    }

    /// Whether another batch is still to dispatch.
    pub fn has_more(&self) -> (r: bool)
        ensures
            r == (self.cur_page_spec() <= self.total_pages_spec()),
    {
        self.cur_page <= self.total_pages
    }

    /// The next batch of page numbers, one per worker — never more than
    /// `WORKERS` fetches in flight — or `None` once the cursor passed the
    /// horizon.
    pub fn next_batch(&self) -> (r: Option<Vec<u32>>)
        requires
            self.wf(),
        ensures
            match r {
                Some(batch) => {
                    &&& self.cur_page_spec() <= self.total_pages_spec()
                    &&& batch@.len() == WORKERS as int
                    &&& forall|i: int|
                        0 <= i < batch@.len() ==> batch@[i] as int == self.cur_page_spec() as int
                            + i
                },
                None => self.cur_page_spec() > self.total_pages_spec(),
            },
    {
        if self.cur_page > self.total_pages {
            return None;
        }
        let mut batch: Vec<u32> = Vec::new();
        let mut i: u32 = 0;
        while i < WORKERS
            invariant
                0 <= i <= WORKERS,
                batch@.len() == i as int,
                forall|k: int|
                    0 <= k < i as int ==> batch@[k] as int == self.cur_page_spec() as int + k,
                self.wf(),
                self.cur_page_spec() <= self.total_pages_spec(),
            decreases WORKERS as int - i as int,
        {
            batch.push(self.cur_page + i);
            i = i + 1;
        }
        Some(batch)
    }

    /// Merge one joined batch: each worker's result, in arrival order, is
    /// appended whole; the cursor moves one batch on.
    pub fn on_batch(&mut self, results: Vec<Vec<Course>>)
        requires
            old(self).wf(),
            old(self).cur_page_spec() <= old(self).total_pages_spec(),
            results@.len() == WORKERS as int,
        ensures
            final(self).wf(),
            final(self).total_pages_spec() == old(self).total_pages_spec(),
            final(self).cur_page_spec() as int == old(self).cur_page_spec() as int + WORKERS as int,
            final(self).collected() == old(self).collected() + results.deep_view().flatten(),
    {
        let ghost gresults = results.deep_view();
        let ghost old_collected = self.classes.deep_view();
        let mut results = results;
        let ghost mut k: int = 0;
        proof {
            assert(gresults.take(0) =~= Seq::<Seq<CourseV>>::empty());
            assert(self.classes.deep_view() =~= old_collected + gresults.take(0).flatten());
        }
        while results.len() > 0
            invariant
                0 <= k,
                k + results@.len() == gresults.len(),
                forall|i: int|
                    0 <= i < results@.len() ==> results@[i].deep_view() == gresults[k + i],
                self.classes.deep_view() == old_collected + gresults.take(k).flatten(),
                self.cur_page == old(self).cur_page,
                self.total_pages == old(self).total_pages,
            decreases results@.len(),
        {
            let ghost old_rest = results@;
            let mut part = results.remove(0);
            let ghost gpart = part.deep_view();
            proof {
                assert(gpart == gresults[k]);
                assert(forall|i: int| 0 <= i < results@.len() ==> results@[i] == old_rest[i + 1]);
            }
            let ghost before = self.classes.deep_view();
            self.classes.append(&mut part);
            proof {
                assert(self.classes.deep_view() =~= before + gresults[k]);
                assert(gresults.take(k + 1) =~= gresults.take(k).push(gresults[k]));
                gresults.take(k).lemma_flatten_push(gresults[k]);
                assert(self.classes.deep_view() =~= old_collected + gresults.take(k + 1).flatten());
                k = k + 1;
            }
        }
        proof {
            assert(gresults.take(k) =~= gresults);
        }
        self.cur_page = self.cur_page + WORKERS;
    }

    /// Hand the merged records out.
    pub fn finish(self) -> (classes: Vec<Course>)
        ensures
            classes.deep_view() == self.collected(),
    {
        self.classes
    }
}

/// The threaded aggregation over a store, with in-order arrival inside every
/// batch: probe page 1 for `total`, plan the horizon, then fetch batch by
/// batch and merge every worker's result.
pub fn get_classes_threaded(pages: Vec<APIResponse>) -> (classes: Vec<Course>)
    ensures
        classes.deep_view() == parallel_classes(pages.deep_view()),
{
    let ghost gpages = pages.deep_view();
    let total = if pages.len() >= 1 { pages[0].total } else { 0 };
    proof {
        assert(total == probe_total(gpages));
    }
    let mut agg = ParallelAggregator::start(total);
    let ghost tp = agg.total_pages_spec() as int;
    let mut rest = pages;
    let mut consumed: usize = 0;
    let mut more = agg.has_more();
    proof {
        assert(agg.collected() + parallel_from(gpages, 1, tp) =~= parallel_from(gpages, 1, tp));
    }
    while more
        invariant
            agg.wf(),
            more == (agg.cur_page_spec() <= agg.total_pages_spec()),
            agg.total_pages_spec() as int == tp,
            agg.collected() + parallel_from(gpages, agg.cur_page_spec() as int, tp)
                == parallel_from(gpages, 1, tp),
            consumed as int == (if agg.cur_page_spec() as int - 1 <= gpages.len() {
                agg.cur_page_spec() as int - 1
            } else {
                gpages.len() as int
            }),
            rest@.len() == gpages.len() - consumed as int,
            forall|i: int|
                0 <= i < rest@.len() ==> rest@[i].deep_view() == gpages[consumed as int + i],
        decreases (if more { tp + WORKERS as int - agg.cur_page_spec() as int } else { 0int }),
    {
        let ghost cur = agg.cur_page_spec() as int;
        let batch_opt = agg.next_batch();
        if let Some(batch) = batch_opt {
            let mut results: Vec<Vec<Course>> = Vec::new();
            let mut i: usize = 0;
            while i < batch.len()
                invariant
                    batch@.len() == WORKERS as int,
                    0 <= i as int <= WORKERS as int,
                    cur == agg.cur_page_spec() as int,
                    agg.wf(),
                    cur <= agg.total_pages_spec() as int,
                    agg.total_pages_spec() as int == tp,
                    results.deep_view() =~= Seq::new(
                        i as nat,
                        |x: int| page_classes(gpages, cur + x),
                    ),
                    consumed as int == (if cur - 1 + i as int <= gpages.len() {
                        cur - 1 + i as int
                    } else {
                        gpages.len() as int
                    }),
                    rest@.len() == gpages.len() - consumed as int,
                    forall|x: int|
                        0 <= x < rest@.len() ==> rest@[x].deep_view() == gpages[consumed as int
                            + x],
                decreases WORKERS as int - i as int,
            {
                let part: Vec<Course> = if rest.len() > 0 {
                    let ghost old_rest = rest@;
                    let response = rest.remove(0);
                    proof {
                        assert(response.deep_view() == gpages[consumed as int]);
                        assert(forall|x: int|
                            0 <= x < rest@.len() ==> rest@[x] == old_rest[x + 1]);
                    }
                    consumed = consumed + 1;
                    response.classes
                } else {
                    Vec::new()
                };
                let ghost gpart = part.deep_view();
                proof {
                    assert(gpart =~= page_classes(gpages, cur + i as int));
                }
                let ghost old_results = results.deep_view();
                proof {
                    assert(results.deep_view().len() == i as int);
                    assert(results@.len() == i as int);
                }
                results.push(part);
                proof {
                    assert(results@.len() == i + 1);
                    assert(forall|x: int|
                        0 <= x < i as int ==> results.deep_view()[x] == old_results[x]);
                    assert(results.deep_view()[i as int] == gpart);
                    assert forall|x: int| 0 <= x < i as int + 1 implies results.deep_view()[x]
                        == page_classes(gpages, cur + x) by {
                        if x < i as int {
                            assert(results.deep_view()[x] == old_results[x]);
                            assert(old_results[x] == page_classes(gpages, cur + x));
                        }
                    }
                    assert(results.deep_view().len() == i as int + 1);
                    assert(results.deep_view() =~= Seq::new(
                        (i + 1) as nat,
                        |x: int| page_classes(gpages, cur + x),
                    ));
                }
                i = i + 1;
            }
            proof {
                assert(results.deep_view() =~= batch_parts(gpages, cur));
            }
            let ghost before = agg.collected();
            agg.on_batch(results);
            proof {
                assert(agg.collected() =~= before + batch_parts(gpages, cur).flatten());
                assert(parallel_from(gpages, cur, tp) == batch_parts(gpages, cur).flatten()
                    + parallel_from(gpages, cur + WORKERS as int, tp));
                assert(agg.collected() + parallel_from(gpages, cur + WORKERS as int, tp)
                    =~= before + parallel_from(gpages, cur, tp));
            }
        } else {
            proof {
                assert(false);
            }
        }
        more = agg.has_more();
    }
    proof {
        assert(parallel_from(gpages, agg.cur_page_spec() as int, tp) =~= Seq::<CourseV>::empty());
        assert(agg.collected() =~= parallel_from(gpages, 1, tp));
    }
    agg.finish()
}

} // verus!
