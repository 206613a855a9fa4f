//! Lists that are handed out page by page.
//!
//! The rows come in the order of their ids. One row more than a page holds is asked for; where it
//! comes, there is another page, and the token for it is the id of the last row handed out.
use vstd::prelude::*;

use crate::ids::{parse_id, uuid_value};

verus! {

/// How many rows a page holds: as many as the request asks for, but at least 1 and at most 100.
pub open spec fn page_limit(page_size: int) -> int {
    if page_size > 100 {
        100
    } else if page_size < 1 {
        1
    } else {
        page_size
    }
}

/// The id that a token names. A token that names none counts as no token.
pub open spec fn token_id(token: Option<&str>) -> Option<u128> {
    match token {
        Some(t) => uuid_value(t@),
        None => None,
    }
}

/// The rows of a page, out of those that were fetched for it.
pub open spec fn page_rows<T>(rows: Seq<T>, limit: int) -> Seq<T> {
    if rows.len() > limit {
        rows.take(limit)
    } else {
        rows
    }
}

/// How many rows a page holds.
pub fn limit_of(page_size: i32) -> (r: i32)
    ensures
        r == page_limit(page_size as int),
{
    let capped: i32 = if page_size < 100 {
        page_size
    } else {
        100
    };
    if capped > 1 {
        capped
    } else {
        1
    }
}

/// The id that a token names.
pub fn token_to_id(token: Option<&str>) -> (r: Option<u128>)
    ensures
        r == token_id(token),
{
    match token {
        Some(t) => parse_id(t),
        None => None,
    }
}

/// The rows of a page, and whether more were fetched than it holds.
pub fn cut<T>(page_size: i32, rows: Vec<T>) -> (r: (Vec<T>, bool))
    ensures
        r.0@ == page_rows(rows@, page_limit(page_size as int)),
        r.1 == (rows@.len() > page_limit(page_size as int)),
{
    let limit = limit_of(page_size) as usize;
    let mut page = rows;
    if page.len() > limit {
        page.truncate(limit);
        (page, true)
    } else {
        (page, false)
    }
}

/// How many rows pass the filters in all: none where the count is missing.
pub open spec fn total_count(total: Option<i32>) -> i32 {
    match total {
        Some(n) => n,
        None => 0,
    }
}

/// How many rows pass the filters in all.
pub fn count_or_zero(total: Option<i32>) -> (r: i32)
    ensures
        r == total_count(total),
{
    match total {
        Some(n) => n,
        None => 0,
    }
}

/// Whether keys are in strictly ascending order.
pub open spec fn ascending(keys: Seq<int>) -> bool {
    forall|i: int, j: int| 0 <= i < j < keys.len() ==> keys[i] < keys[j]
}

/// The keys that come after a given one.
pub open spec fn keys_after(keys: Seq<int>, after: Option<int>) -> Seq<int> {
    match after {
        None => keys,
        Some(a) => keys.filter(|k: int| k > a),
    }
}

/// All that is handed out by asking for page after page, each with the token of the one before,
/// until a page comes without a token. At most `pages` are asked for.
pub open spec fn handed_out(keys: Seq<int>, after: Option<int>, limit: int, pages: nat) -> Seq<int>
    decreases pages,
{
    if pages == 0 {
        Seq::empty()
    } else {
        let rows = keys_after(keys, after).take(
            if keys_after(keys, after).len() > limit + 1 {
                limit + 1
            } else {
                keys_after(keys, after).len() as int
            },
        );
        if rows.len() > limit {
            page_rows(rows, limit) + handed_out(
                keys,
                Some(page_rows(rows, limit).last()),
                limit,
                (pages - 1) as nat,
            )
        } else {
            page_rows(rows, limit)
        }
    }
}

proof fn lemma_filter_none(keys: Seq<int>, a: int)
    requires
        forall|i: int| 0 <= i < keys.len() ==> keys[i] <= a,
    ensures
        keys.filter(|k: int| k > a) == Seq::<int>::empty(),
    decreases keys.len(),
{
    reveal(Seq::filter);
    if keys.len() > 0 {
        lemma_filter_none(keys.drop_last(), a);
    }
}

/// The keys after the one at a given place are those that stand behind it.
proof fn lemma_keys_after(keys: Seq<int>, n: int)
    requires
        ascending(keys),
        0 < n <= keys.len(),
    ensures
        keys_after(keys, Some(keys[n - 1])) == keys.skip(n),
    decreases keys.len(),
{
    reveal(Seq::filter);
    let a = keys[n - 1];
    if n == keys.len() {
        lemma_filter_none(keys, a);
        assert(keys.skip(n) =~= Seq::<int>::empty());
    } else {
        let before = keys.drop_last();
        assert(before[n - 1] == a);
        lemma_keys_after(before, n);
        assert(keys.last() > a);
        assert(keys.skip(n) =~= before.skip(n).push(keys.last()));
    }
}

proof fn lemma_handed_out_from(keys: Seq<int>, n: int, limit: int, pages: nat)
    requires
        ascending(keys),
        0 <= n <= keys.len(),
        limit >= 1,
        pages > keys.len() - n,
    ensures
        handed_out(
            keys,
            if n == 0 {
                None
            } else {
                Some(keys[n - 1])
            },
            limit,
            pages,
        ) == keys.skip(n),
    decreases keys.len() - n,
{
    if n > 0 {
        lemma_keys_after(keys, n);
    } else {
        assert(keys.skip(0) =~= keys);
    }
    let rest = keys.skip(n);
    if rest.len() > limit {
        let rows = rest.take(limit + 1);
        assert(page_rows(rows, limit) =~= rest.take(limit));
        assert(rest.take(limit).last() == keys[n + limit - 1]);
        lemma_handed_out_from(keys, n + limit, limit, (pages - 1) as nat);
        assert(rest.take(limit) + keys.skip(n + limit) =~= rest);
        if rest.len() == limit + 1 {
            assert(rest.take(limit + 1) =~= rest);
        }
    } else {
        assert(rest.take(rest.len() as int) =~= rest);
    }
}

/// Going through a list page by page hands out every row, each exactly once, in order, whatever
/// the page size is. The keys are the ids where the list ascends, and the ids with their signs
/// turned where it descends.
pub proof fn law_pages_hand_out_every_row_once(keys: Seq<int>, page_size: int, pages: nat)
    requires
        ascending(keys),
        pages > keys.len(),
    ensures
        handed_out(keys, None, page_limit(page_size), pages) == keys,
{
    lemma_handed_out_from(keys, 0, page_limit(page_size), pages);
    assert(keys.skip(0) =~= keys);
}

/// A page is never empty where there are rows, and never longer than 100 rows.
pub proof fn law_page_limits(page_size: int)
    ensures
        1 <= page_limit(page_size) <= 100,
        1 <= page_size <= 100 ==> page_limit(page_size) == page_size,
{
}

} // verus!
