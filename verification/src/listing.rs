//! Ordered listings of a keyed collection, and pages cut from them.

use vstd::prelude::*;
use crate::order::bytes_lt;
use crate::order::lemma_lt_asymmetric;
use crate::order::lemma_lt_irreflexive;

verus! {

/// The number of rows of a page when the caller names none.
pub const DEFAULT_LIMIT: u64 = 10;

/// Whether a key, in its stored form, lies at or after `lo` and before `hi`.
/// A bound that is `None` does not restrict.
pub open spec fn within(raw: Seq<u8>, lo: Option<Seq<u8>>, hi: Option<Seq<u8>>) -> bool {
    &&& lo matches Some(l) ==> !bytes_lt(raw, l)
    &&& hi matches Some(h) ==> bytes_lt(raw, h)
}

/// `rows` lists, in strictly ascending order of the stored form `raw` of their
/// keys, exactly the entries of `m` whose keys lie within the bounds.
pub open spec fn is_listing<K, V>(
    rows: Seq<(K, V)>,
    m: Map<K, V>,
    raw: spec_fn(K) -> Seq<u8>,
    lo: Option<Seq<u8>>,
    hi: Option<Seq<u8>>,
) -> bool {
    &&& forall|i: int, j: int|
        0 <= i < j < rows.len() ==> bytes_lt(raw(#[trigger] rows[i].0), raw(#[trigger] rows[j].0))
    &&& forall|i: int|
        0 <= i < rows.len() ==> m.contains_key(#[trigger] rows[i].0) && m[rows[i].0] == rows[i].1
            && within(raw(rows[i].0), lo, hi)
    &&& forall|k: K| #[trigger]
        m.contains_key(k) && within(raw(k), lo, hi) ==> exists|i: int|
            0 <= i < rows.len() && (#[trigger] rows[i]).0 == k
}

proof fn lemma_listings_agree<K, V>(
    r1: Seq<(K, V)>,
    r2: Seq<(K, V)>,
    m: Map<K, V>,
    raw: spec_fn(K) -> Seq<u8>,
    lo: Option<Seq<u8>>,
    hi: Option<Seq<u8>>,
    n: nat,
)
    requires
        is_listing(r1, m, raw, lo, hi),
        is_listing(r2, m, raw, lo, hi),
        n <= r1.len(),
    ensures
        n <= r2.len(),
        forall|i: int| 0 <= i < n ==> r1[i] == r2[i],
    decreases n,
{
    if n > 0 {
        let p = (n - 1) as int;
        lemma_listings_agree(r1, r2, m, raw, lo, hi, (n - 1) as nat);
        let k = r1[p].0;
        assert(m.contains_key(k));
        let j = choose|j: int| 0 <= j < r2.len() && (#[trigger] r2[j]).0 == k;
        if j < p {
            assert(r1[j] == r2[j]);
            assert(bytes_lt(raw(r1[j].0), raw(r1[p].0)));
            lemma_lt_irreflexive(raw(k));
            assert(false);
        }
        let k2 = r2[p].0;
        assert(m.contains_key(k2));
        let i = choose|i: int| 0 <= i < r1.len() && (#[trigger] r1[i]).0 == k2;
        if i < p {
            assert(r1[i] == r2[i]);
            assert(bytes_lt(raw(r2[i].0), raw(r2[p].0)));
            lemma_lt_irreflexive(raw(k2));
            assert(false);
        }
        if j > p {
            assert(bytes_lt(raw(r2[p].0), raw(r2[j].0)));
            if i > p {
                assert(bytes_lt(raw(r1[p].0), raw(r1[i].0)));
                lemma_lt_asymmetric(raw(k), raw(k2));
            } else {
                lemma_lt_irreflexive(raw(k));
            }
            assert(false);
        }
        assert(r1[p].0 == r2[p].0);
        assert(r1[p] == r2[p]);
    }
}

/// A collection has one listing within given bounds: two listings of it are
/// the same sequence.
pub proof fn lemma_listing_unique<K, V>(
    r1: Seq<(K, V)>,
    r2: Seq<(K, V)>,
    m: Map<K, V>,
    raw: spec_fn(K) -> Seq<u8>,
    lo: Option<Seq<u8>>,
    hi: Option<Seq<u8>>,
)
    requires
        is_listing(r1, m, raw, lo, hi),
        is_listing(r2, m, raw, lo, hi),
    ensures
        r1 == r2,
{
    lemma_listings_agree(r1, r2, m, raw, lo, hi, r1.len());
    lemma_listings_agree(r2, r1, m, raw, lo, hi, r2.len());
    assert(r1 =~= r2);
}

/// The listing of `m` within the bounds, where it has one.
pub open spec fn listing<K, V>(
    m: Map<K, V>,
    raw: spec_fn(K) -> Seq<u8>,
    lo: Option<Seq<u8>>,
    hi: Option<Seq<u8>>,
) -> Seq<(K, V)> {
    choose|rows: Seq<(K, V)>| is_listing(rows, m, raw, lo, hi)
}

/// Whatever lists `m` within the bounds is its listing.
pub proof fn lemma_listing_is<K, V>(
    rows: Seq<(K, V)>,
    m: Map<K, V>,
    raw: spec_fn(K) -> Seq<u8>,
    lo: Option<Seq<u8>>,
    hi: Option<Seq<u8>>,
)
    requires
        is_listing(rows, m, raw, lo, hi),
    ensures
        rows == listing(m, raw, lo, hi),
{
    lemma_listing_unique(rows, listing(m, raw, lo, hi), m, raw, lo, hi);
}

/// Listing is a function of what is listed: two listings of one collection
/// within the same bounds give the same page for the same `skip` and `limit`.
/// The rows of a page are entries of the collection within the bounds, in
/// strictly ascending order of their stored keys.
pub proof fn lemma_pages_are_determined<K, V>(
    first: Seq<(K, V)>,
    second: Seq<(K, V)>,
    m: Map<K, V>,
    raw: spec_fn(K) -> Seq<u8>,
    lo: Option<Seq<u8>>,
    hi: Option<Seq<u8>>,
    skip: nat,
    limit: nat,
)
    requires
        is_listing(first, m, raw, lo, hi),
        is_listing(second, m, raw, lo, hi),
    ensures
        page_of(first, skip, limit) == page_of(second, skip, limit),
        forall|i: int, j: int|
            0 <= i < j < page_of(first, skip, limit).len() ==> bytes_lt(
                raw(#[trigger] page_of(first, skip, limit)[i].0),
                raw(#[trigger] page_of(first, skip, limit)[j].0),
            ),
        forall|i: int|
            0 <= i < page_of(first, skip, limit).len() ==> {
                let row = #[trigger] page_of(first, skip, limit)[i];
                m.contains_key(row.0) && m[row.0] == row.1 && within(raw(row.0), lo, hi)
            },
{
    lemma_listing_unique(first, second, m, raw, lo, hi);
    let start = page_start(first.len(), skip);
    let page = page_of(first, skip, limit);
    assert forall|i: int, j: int| 0 <= i < j < page.len() implies bytes_lt(
        raw(#[trigger] page[i].0),
        raw(#[trigger] page[j].0),
    ) by {
        assert(page[i] == first[start + i]);
        assert(page[j] == first[start + j]);
    }
    assert forall|i: int| 0 <= i < page.len() implies {
        let row = #[trigger] page[i];
        m.contains_key(row.0) && m[row.0] == row.1 && within(raw(row.0), lo, hi)
    } by {
        assert(page[i] == first[start + i]);
    }
}

/// Where a page that skips `skip` rows starts in a listing of `len` rows.
pub open spec fn page_start(len: nat, skip: nat) -> int {
    if skip <= len {
        skip as int
    } else {
        len as int
    }
}

/// Where a page of at most `limit` rows that skips `skip` rows ends.
pub open spec fn page_end(len: nat, skip: nat, limit: nat) -> int {
    if skip + limit <= len {
        (skip + limit) as int
    } else {
        len as int
    }
}

/// The page of `rows` that leaves out the first `skip` rows and holds the next
/// `limit` rows, or as many as are left.
pub open spec fn page_of<T>(rows: Seq<T>, skip: nat, limit: nat) -> Seq<T> {
    rows.subrange(page_start(rows.len(), skip), page_end(rows.len(), skip, limit))
}

/// The first and the past-the-end position of a page in a listing of `len` rows.
/// A missing `skip` is 0 and a missing `limit` is [`DEFAULT_LIMIT`].
pub fn page_bounds(len: usize, skip: Option<u64>, limit: Option<u64>) -> (r: (usize, usize))
    ensures
        r.0 == page_start(len as nat, skip.unwrap_or(0) as nat),
        r.1 == page_end(len as nat, skip.unwrap_or(0) as nat, limit.unwrap_or(DEFAULT_LIMIT) as nat),
        r.0 <= r.1 <= len,
{
    let skip: u64 = match skip {
        Some(s) => s,
        None => 0,
    };
    let limit: u64 = match limit {
        Some(l) => l,
        None => DEFAULT_LIMIT,
    };
    let len64: u64 = len as u64;
    if skip >= len64 {
        (len, len)
    } else {
        let start: usize = skip as usize;
        let left: u64 = len64 - skip;
        if limit >= left {
            (start, len)
        } else {
            (start, start + limit as usize)
        }
    }
}

/// The first `pages` pages of `size` rows each, one after the other.
pub open spec fn first_pages<T>(rows: Seq<T>, size: nat, pages: nat) -> Seq<T>
    decreases pages,
{
    if pages == 0 {
        Seq::empty()
    } else {
        first_pages(rows, size, (pages - 1) as nat) + page_of(
            rows,
            ((pages - 1) * size) as nat,
            size,
        )
    }
}

/// Consecutive pages of one size, put one after the other, are the listing up
/// to where the last of them ends; once they reach its end they are the whole
/// listing.
pub proof fn lemma_pages_concatenate<T>(rows: Seq<T>, size: nat, pages: nat)
    ensures
        first_pages(rows, size, pages) == page_of(rows, 0, pages * size),
        pages * size >= rows.len() ==> first_pages(rows, size, pages) == rows,
    decreases pages,
{
    if pages == 0 {
        assert(page_of(rows, 0, 0) =~= Seq::<T>::empty());
        assert(0 * size == 0);
    } else {
        let before = (pages - 1) as nat;
        lemma_pages_concatenate(rows, size, before);
        assert(before * size + size == pages * size) by (nonlinear_arith)
            requires
                before + 1 == pages,
        ;
        assert(first_pages(rows, size, pages) =~= page_of(rows, 0, pages * size));
    }
    if pages * size >= rows.len() {
        assert(page_of(rows, 0, pages * size) =~= rows);
    }
}

} // verus!
