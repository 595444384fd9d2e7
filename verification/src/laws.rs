//! The laws the aggregators obey, stated over the page-store model and
//! proved from the specifications in `api_service`.

use vstd::prelude::*;
use vstd::seq_lib::lemma_multiset_commutative;
use vstd::seq_lib::lemma_flatten_concat;
use vstd::seq_lib::group_to_multiset_ensures;
use vstd::multiset::group_multiset_axioms;
use vstd::arithmetic::div_mod::lemma_fundamental_div_mod_converse;
use crate::model::APIResponseV;
use crate::model::CourseV;
use crate::api_service::{
    page_classes, probe_total, serial_from, serial_classes, spec_total_pages, batch_parts,
    fetched_parts, parallel_from, parallel_classes, PAGE_SIZE, WORKERS,
};

verus! {

/// The records the store answers for pages `a ..= b`, in page order.
pub open spec fn concat_pages(pages: Seq<APIResponseV>, a: int, b: int) -> Seq<CourseV>
    decreases b - a + 1,
{
    if a > b {
        Seq::empty()
    } else {
        page_classes(pages, a) + concat_pages(pages, a + 1, b)
    }
}

/// How many records the store answers for pages `a ..= b`.
pub open spec fn size_pages(pages: Seq<APIResponseV>, a: int, b: int) -> int
    decreases b - a + 1,
{
    if a > b {
        0
    } else {
        page_classes(pages, a).len() + size_pages(pages, a + 1, b)
    }
}

/// How many records the store holds in all: its pages 1 ..= m.
pub open spec fn catalog_size(pages: Seq<APIResponseV>, m: int) -> int {
    size_pages(pages, 1, m)
}

/// A store whose catalog ends at page `m`: pages 1 ..= m carry records and
/// every later page is empty.
pub open spec fn bounded_store(pages: Seq<APIResponseV>, m: int) -> bool {
    &&& 0 <= m <= pages.len()
    &&& forall|n: int| 1 <= n <= m ==> page_classes(pages, n).len() > 0
    &&& forall|n: int| n > m ==> page_classes(pages, n).len() == 0
}

/// A bounded store that pages its records the way the remote service does:
/// every page before the last is full, no page is over-full, and the probed
/// `total` counts the catalog exactly.
pub open spec fn packed_store(pages: Seq<APIResponseV>, m: int) -> bool {
    &&& bounded_store(pages, m)
    &&& forall|n: int| 1 <= n < m ==> page_classes(pages, n).len() == PAGE_SIZE as int
    &&& (m > 0 ==> page_classes(pages, m).len() <= PAGE_SIZE as int)
    &&& probe_total(pages) as int == catalog_size(pages, m)
}

/// `concat_pages` splits at any cut point.
proof fn lemma_concat_split(pages: Seq<APIResponseV>, a: int, b: int, c: int)
    requires
        a - 1 <= b <= c,
    ensures
        concat_pages(pages, a, c) == concat_pages(pages, a, b) + concat_pages(pages, b + 1, c),
    decreases b - a + 1,
{
    if a > b {
        assert(concat_pages(pages, a, b) =~= Seq::<CourseV>::empty());
        assert(concat_pages(pages, a, c) =~= concat_pages(pages, a, b) + concat_pages(
            pages,
            b + 1,
            c,
        ));
    } else {
        lemma_concat_split(pages, a + 1, b, c);
        assert(concat_pages(pages, a, c) =~= concat_pages(pages, a, b) + concat_pages(
            pages,
            b + 1,
            c,
        ));
    }
}

/// Pages that lie wholly past the catalog contribute nothing.
proof fn lemma_concat_beyond_empty(pages: Seq<APIResponseV>, a: int, b: int, m: int)
    requires
        a > m,
        forall|n: int| n > m ==> page_classes(pages, n).len() == 0,
    ensures
        concat_pages(pages, a, b) == Seq::<CourseV>::empty(),
    decreases b - a + 1,
{
    if a <= b {
        lemma_concat_beyond_empty(pages, a + 1, b, m);
        assert(concat_pages(pages, a, b) =~= Seq::<CourseV>::empty());
    }
}

/// Serial aggregation over a bounded store, resumed at page `n`, collects
/// exactly pages `n ..= m`.
proof fn lemma_serial_from_bounded(pages: Seq<APIResponseV>, n: int, m: int)
    requires
        bounded_store(pages, m),
        1 <= n <= m + 1,
    ensures
        serial_from(pages, n) == concat_pages(pages, n, m),
    decreases m - n + 1,
{
    if n > m {
        assert(serial_from(pages, n) =~= Seq::<CourseV>::empty());
    } else {
        lemma_serial_from_bounded(pages, n + 1, m);
        assert(serial_from(pages, n) =~= concat_pages(pages, n, m));
    }
}

/// `concat_pages` and `size_pages` agree.
proof fn lemma_concat_size(pages: Seq<APIResponseV>, a: int, b: int)
    ensures
        concat_pages(pages, a, b).len() == size_pages(pages, a, b),
        size_pages(pages, a, b) >= 0,
    decreases b - a + 1,
{
    if a <= b {
        lemma_concat_size(pages, a + 1, b);
    }
}

/// Serial completeness: over a bounded store, serial aggregation returns the
/// whole catalog — every record of pages 1 ..= m, in page order, and so
/// exactly as many records as the store holds.
pub proof fn lemma_serial_completeness(pages: Seq<APIResponseV>, m: int)
    requires
        bounded_store(pages, m),
    ensures
        serial_classes(pages) == concat_pages(pages, 1, m),
        serial_classes(pages).len() == catalog_size(pages, m),
{
    lemma_serial_from_bounded(pages, 1, m);
    lemma_concat_size(pages, 1, m);
}

/// Empty-first termination: if page 1 is already empty, serial aggregation
/// returns nothing.
pub proof fn lemma_empty_first_page(pages: Seq<APIResponseV>)
    requires
        page_classes(pages, 1).len() == 0,
    ensures
        serial_classes(pages) == Seq::<CourseV>::empty(),
{
    assert(serial_classes(pages) =~= Seq::<CourseV>::empty());
}

/// On a packed store the page plan lands exactly one page past the catalog:
/// the planned horizon covers every page that carries records, plus the
/// end-of-stream page the workers are meant to meet.
proof fn lemma_plan_covers(pages: Seq<APIResponseV>, m: int)
    requires
        packed_store(pages, m),
    ensures
        spec_total_pages(probe_total(pages) as int, PAGE_SIZE as int) == m + 1,
{
    let k = probe_total(pages) as int;
    if m == 0 {
        lemma_fundamental_div_mod_converse(k, PAGE_SIZE as int, 0, 0);
    } else {
        lemma_packed_size(pages, m, 1);
        let last = page_classes(pages, m).len() as int;
        assert(k == PAGE_SIZE * (m - 1) + last);
        if last == PAGE_SIZE as int {
            assert(k == m * (PAGE_SIZE as int)) by (nonlinear_arith)
                requires
                    k == PAGE_SIZE * (m - 1) + (PAGE_SIZE as int),
            ;
            lemma_fundamental_div_mod_converse(k, PAGE_SIZE as int, m, 0);
        } else {
            lemma_fundamental_div_mod_converse(k, PAGE_SIZE as int, m - 1, last);
        }
    }
}

/// On a packed store, pages `n ..= m` hold one full page of records each
/// until the last, which holds the remainder.
proof fn lemma_packed_size(pages: Seq<APIResponseV>, m: int, n: int)
    requires
        packed_store(pages, m),
        1 <= n <= m,
    ensures
        size_pages(pages, n, m) == PAGE_SIZE * (m - n) + page_classes(pages, m).len(),
    decreases m - n,
{
    if n == m {
        assert(size_pages(pages, m + 1, m) == 0);
    } else {
        lemma_packed_size(pages, m, n + 1);
        assert(PAGE_SIZE * (m - n) == PAGE_SIZE * (m - n - 1) + PAGE_SIZE) by (nonlinear_arith);
    }
}

/// A batch of `w` consecutive pages, flattened, is those pages concatenated.
proof fn lemma_window_flatten(pages: Seq<APIResponseV>, a: int, w: nat)
    ensures
        Seq::new(w, |i: int| page_classes(pages, a + i)).flatten() == concat_pages(
            pages,
            a,
            a + w - 1,
        ),
    decreases w,
{
    let s = Seq::new(w, |i: int| page_classes(pages, a + i));
    if w == 0 {
        assert(s.flatten() =~= concat_pages(pages, a, a - 1));
    } else {
        lemma_window_flatten(pages, a + 1, (w - 1) as nat);
        let t = Seq::new((w - 1) as nat, |i: int| page_classes(pages, a + 1 + i));
        assert(s.drop_first() =~= t);
        assert(s.first() == page_classes(pages, a));
        assert(s.flatten() == page_classes(pages, a) + t.flatten());
        assert(concat_pages(pages, a, a + w - 1) == page_classes(pages, a) + concat_pages(
            pages,
            a + 1,
            a + w - 1,
        ));
    }
}

/// In-order parallel aggregation from page `cur` on collects exactly the
/// catalog pages `cur ..= m`, as long as the horizon covers the catalog.
proof fn lemma_parallel_from_bounded(pages: Seq<APIResponseV>, cur: int, tp: int, m: int)
    requires
        1 <= cur,
        m <= tp,
        forall|n: int| n > m ==> page_classes(pages, n).len() == 0,
    ensures
        parallel_from(pages, cur, tp) == concat_pages(pages, cur, m),
    decreases tp + WORKERS - cur,
{
    let w = WORKERS as int;
    if cur > tp {
        lemma_concat_beyond_empty(pages, cur, m, m);
    } else {
        lemma_parallel_from_bounded(pages, cur + w, tp, m);
        lemma_window_flatten(pages, cur, WORKERS as nat);
        assert(batch_parts(pages, cur) =~= Seq::new(
            WORKERS as nat,
            |i: int| page_classes(pages, cur + i),
        ));
        assert(parallel_from(pages, cur, tp) == concat_pages(pages, cur, cur + w - 1)
            + concat_pages(pages, cur + w, m));
        if m < cur {
            lemma_concat_beyond_empty(pages, cur, cur + w - 1, m);
            lemma_concat_beyond_empty(pages, cur + w, m, m);
            lemma_concat_beyond_empty(pages, cur, m, m);
            assert(concat_pages(pages, cur, cur + w - 1) + concat_pages(pages, cur + w, m)
                =~= concat_pages(pages, cur, m));
        } else if m <= cur + w - 1 {
            lemma_concat_split(pages, cur, m, cur + w - 1);
            lemma_concat_beyond_empty(pages, m + 1, cur + w - 1, m);
            lemma_concat_beyond_empty(pages, cur + w, m, m);
            assert(concat_pages(pages, cur, cur + w - 1) =~= concat_pages(pages, cur, m)
                + concat_pages(pages, m + 1, cur + w - 1));
            assert(concat_pages(pages, cur, cur + w - 1) + concat_pages(pages, cur + w, m)
                =~= concat_pages(pages, cur, m));
        } else {
            lemma_concat_split(pages, cur, cur + w - 1, m);
            assert(concat_pages(pages, cur, cur + w - 1) + concat_pages(pages, cur + w, m)
                =~= concat_pages(pages, cur, m));
        }
    }
}

/// Parallel and serial aggregation agree record for record on a packed
/// store with in-order arrival: the overshoot pages past the catalog are
/// empty and contribute nothing.
pub proof fn lemma_parallel_serial_agree(pages: Seq<APIResponseV>, m: int)
    requires
        packed_store(pages, m),
    ensures
        parallel_classes(pages) == serial_classes(pages),
{
    let tp = spec_total_pages(probe_total(pages) as int, PAGE_SIZE as int);
    lemma_plan_covers(pages, m);
    lemma_parallel_from_bounded(pages, 1, tp, m);
    lemma_serial_from_bounded(pages, 1, m);
}

/// The parallel fetch, page by page, is the flattening of its per-page
/// parts.
pub proof fn lemma_parallel_is_flatten(pages: Seq<APIResponseV>, cur: int, tp: int)
    ensures
        parallel_from(pages, cur, tp) == fetched_parts(pages, cur, tp).flatten(),
    decreases tp + WORKERS - cur,
{
    let w = WORKERS as int;
    if cur > tp {
        assert(fetched_parts(pages, cur, tp).flatten() =~= Seq::<CourseV>::empty());
    } else {
        lemma_parallel_is_flatten(pages, cur + w, tp);
        lemma_flatten_concat(batch_parts(pages, cur), fetched_parts(pages, cur + w, tp));
    }
}

/// Removing one part of a concatenation moves exactly that part's records
/// out of the whole's multiset.
proof fn lemma_flatten_remove_part<A>(parts: Seq<Seq<A>>, j: int)
    requires
        0 <= j < parts.len(),
    ensures
        parts.flatten().to_multiset() == parts[j].to_multiset().add(
            parts.remove(j).flatten().to_multiset(),
        ),
    decreases j,
{
    broadcast use group_multiset_axioms;

    let rest = parts.drop_first();
    if j == 0 {
        assert(parts.remove(0) =~= rest);
        assert(parts.flatten() == parts[0] + rest.flatten());
        lemma_multiset_commutative(parts[0], rest.flatten());
    } else {
        lemma_flatten_remove_part(rest, j - 1);
        assert(parts.flatten() == parts[0] + rest.flatten());
        lemma_multiset_commutative(parts[0], rest.flatten());
        assert(parts.remove(j).drop_first() =~= rest.remove(j - 1));
        assert(parts.remove(j)[0] == parts[0]);
        assert(parts.remove(j).flatten() == parts[0] + rest.remove(j - 1).flatten());
        lemma_multiset_commutative(parts[0], rest.remove(j - 1).flatten());
        assert(parts.flatten().to_multiset() =~= parts[j].to_multiset().add(
            parts.remove(j).flatten().to_multiset(),
        ));
    }
}

/// Arrival order does not matter to the merge: any two part lists that hold
/// the same parts (as a multiset) flatten to the same records (as a
/// multiset).
pub proof fn lemma_flatten_multiset_invariant<A>(ss: Seq<Seq<A>>, ts: Seq<Seq<A>>)
    requires
        ss.to_multiset() == ts.to_multiset(),
    ensures
        ss.flatten().to_multiset() == ts.flatten().to_multiset(),
    decreases ss.len(),
{
    broadcast use group_to_multiset_ensures;
    broadcast use group_multiset_axioms;

    ss.to_multiset_ensures();
    ts.to_multiset_ensures();
    if ss.len() == 0 {
        assert(ts.len() == 0);
        assert(ss.flatten() =~= Seq::<Seq<A>>::empty().flatten());
    } else {
        let x = ss[0];
        assert(ss.contains(x));
        assert(ts.to_multiset().count(x) > 0);
        assert(ts.contains(x));
        let j = choose|j: int| 0 <= j < ts.len() && ts[j] == x;
        assert(ss.remove(0) =~= ss.drop_first());
        assert(ss.drop_first().to_multiset() == ss.to_multiset().remove(x));
        assert(ts.remove(j).to_multiset() == ts.to_multiset().remove(x));
        lemma_flatten_multiset_invariant(ss.drop_first(), ts.remove(j));
        assert(ss.flatten() == x + ss.drop_first().flatten());
        lemma_multiset_commutative(x, ss.drop_first().flatten());
        lemma_flatten_remove_part(ts, j);
        assert(ss.flatten().to_multiset() =~= ts.flatten().to_multiset());
    }
}

/// Parallel multiset equality: on a packed store, however the workers'
/// results arrive — any arrival order of the per-page parts the batches
/// fetched — the merged records are the serial aggregation's records as a
/// multiset.
pub proof fn lemma_parallel_multiset_equality(
    pages: Seq<APIResponseV>,
    m: int,
    arrivals: Seq<Seq<CourseV>>,
)
    requires
        packed_store(pages, m),
        arrivals.to_multiset() == fetched_parts(
            pages,
            1,
            spec_total_pages(probe_total(pages) as int, PAGE_SIZE as int),
        ).to_multiset(),
    ensures
        arrivals.flatten().to_multiset() == serial_classes(pages).to_multiset(),
{
    let tp = spec_total_pages(probe_total(pages) as int, PAGE_SIZE as int);
    lemma_flatten_multiset_invariant(arrivals, fetched_parts(pages, 1, tp));
    lemma_parallel_is_flatten(pages, 1, tp);
    lemma_parallel_serial_agree(pages, m);
}


} // verus!
