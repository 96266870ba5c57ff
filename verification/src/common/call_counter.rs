//! Per-request counters of database and Redis calls. A request scope holds the
//! counts; outside a scope counting is a silent no-op and the counts read as zero.
use vstd::prelude::*;

verus! {

/// The counts of one request scope.
#[derive(Debug, Clone, Copy)]
pub struct CallCounts {
    pub db: u32,
    pub redis: u32,
}

/// A fresh request scope with both counters at zero.
pub fn scoped() -> (r: Option<CallCounts>)
    ensures
        r == scoped_counts(),
        r == Some(CallCounts { db: 0, redis: 0 }),
{
    Some(CallCounts { db: 0, redis: 0 })
}

/// A scope after one more call, to the database (`db`) or to Redis: the
/// counter wraps around as atomic additions do; outside a scope nothing changes.
pub open spec fn bumped(scope: Option<CallCounts>, db: bool) -> Option<CallCounts> {
    match scope {
        None => None,
        Some(c) => Some(if db {
            CallCounts { db: if c.db == u32::MAX { 0 } else { (c.db + 1) as u32 }, redis: c.redis }
        } else {
            CallCounts { db: c.db, redis: if c.redis == u32::MAX { 0 } else { (c.redis + 1) as u32 } }
        }),
    }
}

/// A scope after the calls `calls` in order (`true` for a database call, `false` for Redis).
pub open spec fn after_calls(scope: Option<CallCounts>, calls: Seq<bool>) -> Option<CallCounts>
    decreases calls.len(),
{
    if calls.len() == 0 {
        scope
    } else {
        bumped(after_calls(scope, calls.drop_last()), calls.last())
    }
}

/// How many of `calls` are of the given kind.
pub open spec fn calls_of(calls: Seq<bool>, db: bool) -> nat
    decreases calls.len(),
{
    if calls.len() == 0 {
        0
    } else {
        calls_of(calls.drop_last(), db) + if calls.last() == db { 1nat } else { 0nat }
    }
}

/// Counting inside a scope: after any sequence of calls made since the scope
/// began, its counters hold the number of database and of Redis calls (modulo
/// 2^32, as they wrap); outside a scope nothing is ever counted.
pub proof fn law_scope_counts_calls(calls: Seq<bool>)
    ensures
        after_calls(scoped_counts(), calls) == Some(CallCounts {
            db: (calls_of(calls, true) % 0x1_0000_0000) as u32,
            redis: (calls_of(calls, false) % 0x1_0000_0000) as u32,
        }),
        after_calls(None, calls) is None,
    decreases calls.len(),
{
    if calls.len() > 0 {
        law_scope_counts_calls(calls.drop_last());
        let n = calls_of(calls.drop_last(), true);
        let m = calls_of(calls.drop_last(), false);
        assert(n % 0x1_0000_0000 == 0xffff_ffff ==> (n + 1) % 0x1_0000_0000 == 0);
        assert(n % 0x1_0000_0000 < 0xffff_ffff ==> (n + 1) % 0x1_0000_0000 == n % 0x1_0000_0000 + 1);
        assert(m % 0x1_0000_0000 == 0xffff_ffff ==> (m + 1) % 0x1_0000_0000 == 0);
        assert(m % 0x1_0000_0000 < 0xffff_ffff ==> (m + 1) % 0x1_0000_0000 == m % 0x1_0000_0000 + 1);
    }
}

/// The counters a fresh scope starts with.
pub open spec fn scoped_counts() -> Option<CallCounts> {
    Some(CallCounts { db: 0, redis: 0 })
}

/// One more database call. Counters wrap around as atomic additions do; outside a scope nothing changes.
pub fn inc_db(scope: &mut Option<CallCounts>)
    ensures
        *final(scope) == bumped(*old(scope), true),
        *old(scope) is None ==> *final(scope) is None,
        *old(scope) matches Some(c) ==> *final(scope) == Some(CallCounts {
            db: if c.db == u32::MAX { 0 } else { (c.db + 1) as u32 },
            redis: c.redis,
        }),
{
    if let Some(c) = scope {
        c.db = c.db.wrapping_add(1);
    }
}

/// One more Redis call. Counters wrap around as atomic additions do; outside a scope nothing changes.
pub fn inc_redis(scope: &mut Option<CallCounts>)
    ensures
        *final(scope) == bumped(*old(scope), false),
        *old(scope) is None ==> *final(scope) is None,
        *old(scope) matches Some(c) ==> *final(scope) == Some(CallCounts {
            db: c.db,
            redis: if c.redis == u32::MAX { 0 } else { (c.redis + 1) as u32 },
        }),
{
    if let Some(c) = scope {
        c.redis = c.redis.wrapping_add(1);
    }
}

/// `(db_calls, redis_calls)` of the scope, `(0, 0)` outside one.
pub fn counts(scope: &Option<CallCounts>) -> (r: (u32, u32))
    ensures
        scope matches Some(c) ==> r == (c.db, c.redis),
        scope is None ==> r == (0u32, 0u32),
{
    match scope {
        Some(c) => (c.db, c.redis),
        None => (0, 0),
    }
}

} // verus!
