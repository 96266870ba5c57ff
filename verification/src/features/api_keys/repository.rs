//! The API key store's handle and what its listing decides before and after the
//! query: the filter it runs with and how the fetched rows become a page.
use crate::common::types::{kept_rows, take_page};
use crate::features::api_keys::models::{ApiKey, ApiKeyStatus};
use vstd::prelude::*;

verus! {

/// The API key store, over a database handle `P`.
pub struct ApiKeyRepository<P> {
    pub pool: P,
}

/// The filter an API key listing runs with: live keys of the tenant, optionally
/// of one user, environment and status and containing the given tags, with ids
/// after the cursor, in id order, at most `fetch_limit` of them.
pub struct ApiKeyListFilter {
    pub tenant_id: u128,
    pub user_id: Option<u128>,
    pub environment_id: Option<String>,
    pub status: Option<ApiKeyStatus>,
    pub tags: Option<Vec<(String, String)>>,
    pub cursor: Option<u128>,
    pub fetch_limit: i64,
}

impl<P> ApiKeyRepository<P> {
    pub fn new(pool: P) -> (r: Self)
        ensures
            r.pool == pool,
    {
        ApiKeyRepository { pool }
    }

    /// The filter of a listing of at most `limit` keys: one row more is fetched
    /// so that a further page can be told apart.
    pub fn list_filter(
        tenant_id: u128,
        user_id: Option<u128>,
        environment_id: Option<String>,
        status: Option<ApiKeyStatus>,
        limit: i64,
        cursor: Option<u128>,
        tags: Option<Vec<(String, String)>>,
    ) -> (r: ApiKeyListFilter)
        requires
            limit < i64::MAX,
        ensures
            r.tenant_id == tenant_id,
            r.user_id == user_id,
            r.environment_id == environment_id,
            r.status == status,
            r.tags == tags,
            r.cursor == cursor,
            r.fetch_limit == limit + 1,
    {
        ApiKeyListFilter { tenant_id, user_id, environment_id, status, tags, cursor, fetch_limit: limit + 1 }
    }

    /// The page made of the fetched keys: when more than `limit` came back the
    /// last is dropped, and the next page starts after the last key kept.
    pub fn finish_page(rows: Vec<ApiKey>, limit: i64) -> (r: (Vec<ApiKey>, Option<u128>))
        ensures
            r.0@ == kept_rows(rows@, limit as int),
            rows@.len() > limit && rows@.len() > 1 ==> r.1 == Some(rows@[rows@.len() - 2].id),
            !(rows@.len() > limit && rows@.len() > 1) ==> r.1 is None,
            r.1 == next_page_cursor(rows@.map_values(|k: ApiKey| k.id), limit as int),
    {
        let (items, extra) = take_page(rows, limit);
        let next = if extra.is_some() && items.len() > 0 {
            Some(items[items.len() - 1].id)
        } else {
            None
        };
        (items, next)
    }
}

/// Ids in strictly ascending order, as the listing reads them.
pub open spec fn ascending(ids: Seq<u128>) -> bool {
    forall|i: int, j: int| 0 <= i < j < ids.len() ==> ids[i] < ids[j]
}

/// The ids a listing with `cursor` reads: those greater than the cursor, in
/// order, or all of them on the first page.
pub open spec fn ids_after(ids: Seq<u128>, cursor: Option<u128>) -> Seq<u128> {
    match cursor {
        None => ids,
        Some(c) => ids.filter(|x: u128| x > c),
    }
}

/// The rows one page fetches: up to `limit + 1` of the ids after its cursor.
pub open spec fn fetched_page(ids: Seq<u128>, cursor: Option<u128>, limit: int) -> Seq<u128> {
    let after = ids_after(ids, cursor);
    if after.len() > limit + 1 {
        after.take(limit + 1)
    } else {
        after
    }
}

/// The next cursor [`ApiKeyRepository::finish_page`] gives for the fetched ids:
/// the last id kept, when more than `limit` came back.
pub open spec fn next_page_cursor(fetched: Seq<u128>, limit: int) -> Option<u128> {
    if fetched.len() > limit && fetched.len() > 1 {
        Some(fetched[fetched.len() - 2])
    } else {
        None
    }
}

/// For ids in ascending order, the ids after a cursor are a suffix of them:
/// those from the position `k` on, where every id before `k` is at most the
/// cursor and every id from `k` on exceeds it.
pub proof fn lemma_ids_after_suffix(ids: Seq<u128>, c: u128) -> (k: int)
    requires
        ascending(ids),
    ensures
        0 <= k <= ids.len(),
        ids_after(ids, Some(c)) == ids.subrange(k, ids.len() as int),
        forall|j: int| 0 <= j < k ==> ids[j] <= c,
        forall|j: int| k <= j < ids.len() ==> ids[j] > c,
    decreases ids.len(),
{
    reveal(Seq::filter);
    if ids.len() == 0 {
        assert(ids.subrange(0, 0) =~= ids);
        0
    } else {
        let rest = ids.drop_last();
        let k0 = lemma_ids_after_suffix(rest, c);
        assert(ids.filter(|x: u128| x > c) == if ids.last() > c {
            rest.filter(|x: u128| x > c).push(ids.last())
        } else {
            rest.filter(|x: u128| x > c)
        });
        if ids.last() > c {
            assert(ids.subrange(k0, ids.len() as int) =~= rest.subrange(k0, rest.len() as int).push(ids.last()));
            assert forall|j: int| 0 <= j < k0 implies ids[j] <= c by {
                assert(rest[j] == ids[j]);
            }
            assert forall|j: int| k0 <= j < ids.len() implies ids[j] > c by {
                if j < ids.len() - 1 {
                    assert(rest[j] == ids[j]);
                }
            }
            k0
        } else {
            assert forall|j: int| 0 <= j < ids.len() implies ids[j] <= c by {
                if j < ids.len() - 1 {
                    assert(ids[j] < ids[ids.len() - 1]);
                }
            }
            if k0 < rest.len() {
                assert(rest[k0] > c);
            }
            assert(ids.subrange(ids.len() as int, ids.len() as int) =~= rest.subrange(k0, rest.len() as int));
            ids.len() as int
        }
    }
}

/// Where the ids after a cursor start: `ids_after(ids, cursor)` is the suffix of
/// `ids` from the returned position.
pub proof fn lemma_after_start(ids: Seq<u128>, cursor: Option<u128>) -> (k: int)
    requires
        ascending(ids),
    ensures
        0 <= k <= ids.len(),
        ids_after(ids, cursor) == ids.subrange(k, ids.len() as int),
{
    match cursor {
        None => {
            assert(ids.subrange(0, ids.len() as int) =~= ids);
            0
        },
        Some(c) => lemma_ids_after_suffix(ids, c),
    }
}

/// Each further page reads strictly fewer ids than the one before it.
pub proof fn lemma_next_page_reads_less(ids: Seq<u128>, cursor: Option<u128>, limit: int)
    requires
        ascending(ids),
        1 <= limit,
        next_page_cursor(fetched_page(ids, cursor, limit), limit) is Some,
    ensures
        ({
            let after = ids_after(ids, cursor);
            let next = next_page_cursor(fetched_page(ids, cursor, limit), limit);
            &&& after.len() > limit
            &&& ids_after(ids, next) == after.skip(limit)
            &&& ids_after(ids, next).len() < after.len()
        }),
{
    let k = lemma_after_start(ids, cursor);
    let after = ids_after(ids, cursor);
    let c = ids[k + limit - 1];
    assert(fetched_page(ids, cursor, limit)[limit - 1] == c);
    let k2 = lemma_ids_after_suffix(ids, c);
    if k2 < k + limit {
        if k2 < k + limit - 1 {
            assert(ids[k2] < ids[k + limit - 1]);
        }
        assert(ids[k2] > c);
    }
    if k2 > k + limit {
        assert(ids[k + limit] <= c);
        assert(ids[k + limit - 1] < ids[k + limit]);
    }
    assert(ids.subrange(k2, ids.len() as int) =~= after.skip(limit));
}

/// The ids all pages of a listing show, one page after the other, starting at
/// `cursor`: each page keeps up to `limit` fetched ids, and the next page
/// starts at the cursor the page gives, until a page gives none.
pub open spec fn listing(ids: Seq<u128>, cursor: Option<u128>, limit: int) -> Seq<u128>
    decreases ids_after(ids, cursor).len(),
    when ascending(ids) && 1 <= limit
{
    let fetched = fetched_page(ids, cursor, limit);
    match next_page_cursor(fetched, limit) {
        Some(c) => {
            proof {
                lemma_next_page_reads_less(ids, cursor, limit);
            }
            kept_rows(fetched, limit) + listing(ids, Some(c), limit)
        },
        None => kept_rows(fetched, limit),
    }
}

/// Paging on from `cursor` shows exactly the ids after it.
proof fn lemma_listing_from(ids: Seq<u128>, cursor: Option<u128>, limit: int)
    requires
        ascending(ids),
        1 <= limit,
    ensures
        listing(ids, cursor, limit) == ids_after(ids, cursor),
    decreases ids_after(ids, cursor).len(),
{
    let after = ids_after(ids, cursor);
    let fetched = fetched_page(ids, cursor, limit);
    if after.len() > limit {
        assert(kept_rows(fetched, limit) =~= after.take(limit));
        lemma_next_page_reads_less(ids, cursor, limit);
        lemma_listing_from(ids, next_page_cursor(fetched, limit), limit);
        assert(after.take(limit) + after.skip(limit) =~= after);
    } else {
        assert(kept_rows(fetched, limit) =~= after);
    }
}

/// Cursor pages list every key exactly once: paging through a listing from
/// its first page (no cursor), with each page's next cursor, until a page gives
/// none, shows exactly the matching ids in order, and so does paging on from
/// any cursor with the ids after it. Each page shows at most `limit` ids, the
/// first ones after its cursor, and it gives a next cursor exactly when more
/// ids remain after it.
pub proof fn law_cursor_listing_shows_every_key_once(ids: Seq<u128>, cursor: Option<u128>, limit: int)
    requires
        ascending(ids),
        1 <= limit,
    ensures
        listing(ids, None, limit) == ids,
        listing(ids, cursor, limit) == ids_after(ids, cursor),
        kept_rows(fetched_page(ids, cursor, limit), limit).len() <= limit,
        kept_rows(fetched_page(ids, cursor, limit), limit) == ids_after(ids, cursor).take(
            if ids_after(ids, cursor).len() > limit { limit } else { ids_after(ids, cursor).len() as int }),
        next_page_cursor(fetched_page(ids, cursor, limit), limit) is Some <==> ids_after(ids, cursor).len() > limit,
{
    lemma_listing_from(ids, None, limit);
    lemma_listing_from(ids, cursor, limit);
    let after = ids_after(ids, cursor);
    let fetched = fetched_page(ids, cursor, limit);
    if after.len() > limit {
        assert(kept_rows(fetched, limit) =~= after.take(limit));
    } else {
        assert(kept_rows(fetched, limit) =~= after);
        assert(after.take(after.len() as int) =~= after);
    }
}

} // verus!
