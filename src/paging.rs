use vstd::prelude::*;

use crate::error::Error;

verus! {

/// One response of a paged list endpoint.
#[derive(Debug)]
pub struct Page<T> {
    pub items: Vec<T>,
    /// 1-based index of this page.
    pub page: u32,
    pub per_page: u32,
    pub total_pages: u32,
    pub total_entries: u32,
}

/// The items that one fetch contributed: none for a failed fetch.
pub open spec fn outcome_items<T>(o: Result<Page<T>, Error>) -> Seq<T> {
    match o {
        Ok(p) => p.items@,
        Err(_) => Seq::empty(),
    }
}

/// The items of a run of fetches, concatenated in fetch order.
pub open spec fn flatten_items<T>(outs: Seq<Result<Page<T>, Error>>) -> Seq<T>
    decreases outs.len(),
{
    if outs.len() == 0 {
        Seq::empty()
    } else {
        flatten_items(outs.drop_last()) + outcome_items(outs.last())
    }
}

/// After `fetched` pages, the outcome `o` of the last one calls for another fetch.
pub open spec fn asks_for_more<T>(o: Result<Page<T>, Error>, fetched: nat) -> bool {
    match o {
        Ok(p) => fetched < p.total_pages,
        Err(_) => false,
    }
}

/// `outs[k]` is the outcome of fetching page `k + 1`, and the walk fetched
/// exactly these pages: every page but the last succeeded and reported more
/// pages than fetched so far, and the last one failed or reported no more.
pub open spec fn is_complete_walk<T>(outs: Seq<Result<Page<T>, Error>>) -> bool {
    &&& outs.len() >= 1
    &&& forall|k: int| 0 <= k < outs.len() - 1 ==> asks_for_more(#[trigger] outs[k], (k + 1) as nat)
    &&& !asks_for_more(outs.last(), outs.len())
}

/// What a walk yields: the first failure, or all items in page order.
pub open spec fn walk_result<T>(outs: Seq<Result<Page<T>, Error>>) -> Result<Seq<T>, Error> {
    match outs.last() {
        Err(e) => Err(e),
        Ok(_) => Ok(flatten_items(outs)),
    }
}

/// The outcomes are those that `server` gives for pages 1, 2, ...
pub open spec fn answers<T>(
    outs: Seq<Result<Page<T>, Error>>,
    server: spec_fn(nat) -> Result<Page<T>, Error>,
) -> bool {
    forall|k: int| 0 <= k < outs.len() ==> #[trigger] outs[k] == server((k + 1) as nat)
}

pub open spec fn result_view<T>(r: Result<Vec<T>, Error>) -> Result<Seq<T>, Error> {
    match r {
        Ok(v) => Ok(v@),
        Err(e) => Err(e),
    }
}

/// Fetches page 1, then page after page while the total most recently
/// reported is larger than the number of pages fetched, and returns all items
/// in page order. The first failed fetch ends the walk and is returned.
///
/// Pages are asked for in order 1, 2, ..., one call each: there is some run of
/// outcomes, each one a possible answer of `fetch_page` to its page, that forms
/// a complete walk and whose result is returned.
pub fn collect<T, F>(fetch_page: F) -> (r: Result<Vec<T>, Error>) where
    F: Fn(u32) -> Result<Page<T>, Error>,

    requires
        forall|n: u32| 1 <= n ==> call_requires(fetch_page, (n,)),
    ensures
        exists|outs: Seq<Result<Page<T>, Error>>|
            {
                &&& is_complete_walk(outs)
                &&& forall|k: int|
                    0 <= k < outs.len() ==> call_ensures(
                        fetch_page,
                        (((k + 1) as u32),),
                        #[trigger] outs[k],
                    )
                &&& result_view(r) == walk_result(outs)
            },
{
    let first = fetch_page(1);
    let ghost mut outs: Seq<Result<Page<T>, Error>> = seq![first];
    let mut page_one = match first {
        Err(e) => {
            assert(is_complete_walk(outs));
            return Err(e);
        },
        Ok(p) => p,
    };
    let ghost first_items = page_one.items@;
    let mut items: Vec<T> = Vec::new();
    items.append(&mut page_one.items);
    proof {
        assert(outs.drop_last() =~= Seq::<Result<Page<T>, Error>>::empty());
        assert(outcome_items(outs.last()) == first_items);
        assert(flatten_items(outs.drop_last()) =~= Seq::<T>::empty());
        assert(flatten_items(outs) =~= items@);
    }
    // The first page's entry count sizes the result; a server that
    // overstates it must not make the walk fail, hence `try_reserve`.
    if (page_one.total_entries as usize) > items.len() {
        let _ = items.try_reserve(page_one.total_entries as usize - items.len());
    }
    let mut total: u32 = page_one.total_pages;
    let mut page: u32 = 1;
    while page < total
        invariant
            forall|n: u32| 1 <= n ==> call_requires(fetch_page, (n,)),
            1 <= page,
            outs.len() == page,
            forall|k: int| 0 <= k < outs.len() - 1 ==> asks_for_more(#[trigger] outs[k], (k + 1) as nat),
            outs.last() is Ok,
            outs.last()->Ok_0.total_pages == total,
            items@ == flatten_items(outs),
            forall|k: int|
                0 <= k < outs.len() ==> call_ensures(
                    fetch_page,
                    (((k + 1) as u32),),
                    #[trigger] outs[k],
                ),
        decreases u32::MAX - page,
    {
        let next: u32 = page + 1;
        let r = fetch_page(next);
        let ghost before = outs;
        proof {
            outs = outs.push(r);
            assert(outs.drop_last() =~= before);
            assert(asks_for_more(before.last(), page as nat));
        }
        match r {
            Err(e) => {
                assert(is_complete_walk(outs));
                return Err(e);
            },
            Ok(mut p) => {
                assert(outcome_items(outs.last()) == p.items@);
                items.append(&mut p.items);
                total = p.total_pages;
                page = next;
            },
        }
    }
    assert(is_complete_walk(outs));
    Ok(items)
}

/// A walk whose first page reports a single page fetches that page alone and
/// yields exactly its items.
pub proof fn lemma_single_page<T>(outs: Seq<Result<Page<T>, Error>>)
    requires
        is_complete_walk(outs),
        outs[0] is Ok,
        outs[0]->Ok_0.total_pages == 1,
    ensures
        outs.len() == 1,
        walk_result(outs) == Ok::<Seq<T>, Error>(outs[0]->Ok_0.items@),
{
    if outs.len() > 1 {
        assert(asks_for_more(outs[0], 1));
    }
    assert(outs.drop_last() =~= Seq::<Result<Page<T>, Error>>::empty());
    assert(flatten_items(outs.drop_last()) =~= Seq::<T>::empty());
    assert(flatten_items(outs) =~= outs[0]->Ok_0.items@);
}

/// When every page succeeds and reports the same total `n > 1`, the walk
/// fetches exactly pages 1 to `n` and yields their items in page order.
pub proof fn lemma_static_pages<T>(outs: Seq<Result<Page<T>, Error>>, n: u32)
    requires
        is_complete_walk(outs),
        n > 1,
        forall|k: int| 0 <= k < outs.len() ==> (#[trigger] outs[k]) is Ok && outs[k]->Ok_0.total_pages == n,
    ensures
        outs.len() == n,
        walk_result(outs) == Ok::<Seq<T>, Error>(flatten_items(outs)),
{
    if outs.len() > n {
        assert(asks_for_more(outs[n - 1], n as nat));
    }
    assert(outs.last() == outs[outs.len() - 1]);
}

/// When page 1 reports 2 pages and page 2 then reports 3, page 3 is fetched
/// too; with page 3 reporting no more than 3, the walk makes exactly three
/// fetches and yields the items of all three pages.
pub proof fn lemma_growing_total<T>(
    outs: Seq<Result<Page<T>, Error>>,
    server: spec_fn(nat) -> Result<Page<T>, Error>,
)
    requires
        is_complete_walk(outs),
        answers(outs, server),
        server(1) is Ok && server(1)->Ok_0.total_pages == 2,
        server(2) is Ok && server(2)->Ok_0.total_pages == 3,
        server(3) is Ok && server(3)->Ok_0.total_pages <= 3,
    ensures
        outs.len() == 3,
        walk_result(outs) == Ok::<Seq<T>, Error>(
            server(1)->Ok_0.items@ + server(2)->Ok_0.items@ + server(3)->Ok_0.items@,
        ),
{
    assert(outs[0] == server(1));
    if outs.len() == 1 {
        assert(!asks_for_more(outs.last(), 1));
    }
    assert(outs[1] == server(2));
    if outs.len() == 2 {
        assert(!asks_for_more(outs.last(), 2));
    }
    assert(outs[2] == server(3));
    if outs.len() > 3 {
        assert(asks_for_more(outs[2], 3));
    }
    assert(outs.len() == 3);
    let o2 = outs.drop_last();
    assert(o2.len() == 2);
    let o1 = o2.drop_last();
    let o0 = o1.drop_last();
    assert(o0 =~= Seq::<Result<Page<T>, Error>>::empty());
    assert(flatten_items(o0) =~= Seq::<T>::empty());
    assert(o1.last() == server(1));
    assert(o2.last() == server(2));
    assert(outs.last() == server(3));
    assert(flatten_items(o1) =~= server(1)->Ok_0.items@);
    assert(flatten_items(o2) =~= server(1)->Ok_0.items@ + server(2)->Ok_0.items@);
    assert(flatten_items(outs) =~= server(1)->Ok_0.items@ + server(2)->Ok_0.items@
        + server(3)->Ok_0.items@);
}

/// When page 1 succeeds and reports more than one page and page 2 fails, the
/// walk stops after that second fetch and yields page 2's error.
pub proof fn lemma_failure_stops_walk<T>(
    outs: Seq<Result<Page<T>, Error>>,
    server: spec_fn(nat) -> Result<Page<T>, Error>,
)
    requires
        is_complete_walk(outs),
        answers(outs, server),
        server(1) is Ok && server(1)->Ok_0.total_pages >= 2,
        server(2) is Err,
    ensures
        outs.len() == 2,
        walk_result(outs) == Err::<Seq<T>, Error>(server(2)->Err_0),
{
    assert(outs[0] == server(1));
    if outs.len() == 1 {
        assert(!asks_for_more(outs.last(), 1));
    }
    assert(outs[1] == server(2));
    if outs.len() > 2 {
        assert(asks_for_more(outs[1], 2));
    }
}

/// Two walks over the same server fetch the same pages and yield the same
/// result: a walk depends on the answers it gets and on nothing else.
pub proof fn lemma_walk_deterministic<T>(
    a: Seq<Result<Page<T>, Error>>,
    b: Seq<Result<Page<T>, Error>>,
    server: spec_fn(nat) -> Result<Page<T>, Error>,
)
    requires
        is_complete_walk(a),
        is_complete_walk(b),
        answers(a, server),
        answers(b, server),
    ensures
        a == b,
        walk_result(a) == walk_result(b),
{
    if a.len() < b.len() {
        assert(a[a.len() - 1] == b[a.len() - 1]);
        assert(asks_for_more(b[a.len() - 1], a.len()));
    }
    if b.len() < a.len() {
        assert(a[b.len() - 1] == b[b.len() - 1]);
        assert(asks_for_more(a[b.len() - 1], b.len()));
    }
    assert forall|k: int| 0 <= k < a.len() implies a[k] == b[k] by {
        assert(a[k] == server((k + 1) as nat));
        assert(b[k] == server((k + 1) as nat));
    }
    assert(a =~= b);
}

} // verus!
