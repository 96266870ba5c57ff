//! The handler name a route reports to the access log.
use crate::common::text::{chars_of, occurs_at, string_from_chars, sub_chars};
use vstd::prelude::*;

verus! {

/// Last index at or before `i` where `needle` occurs in `hay`.
pub open spec fn rfind_from(hay: Seq<char>, needle: Seq<char>, i: int) -> Option<int>
    decreases i + 1,
{
    if i < 0 {
        None
    } else if occurs_at(hay, needle, i) {
        Some(i)
    } else {
        rfind_from(hay, needle, i - 1)
    }
}

/// The last `::`-separated segment of a path (the whole text when it has no `::`).
pub open spec fn last_path_segment(full: Seq<char>) -> Seq<char> {
    match rfind_from(full, "::"@, full.len() - 2) {
        Some(k) => full.subrange(k + 2, full.len() as int),
        None => full,
    }
}

/// Request extension carrying the handler function name.
#[derive(Debug)]
pub struct HandlerName(pub String);

/// Layer settings that inject a [`HandlerName`] into every request of a route.
#[derive(Debug)]
pub struct SetHandlerName {
    name: String,
}

/// The service a [`SetHandlerName`] layer wraps around `inner`.
pub struct SetHandlerNameService<S> {
    pub inner: S,
    pub name: String,
}

proof fn lemma_rfind_from_occurs(hay: Seq<char>, needle: Seq<char>, i: int)
    ensures
        rfind_from(hay, needle, i) matches Some(k) ==> occurs_at(hay, needle, k) && k <= i,
    decreases i + 1,
{
    if i >= 0 && !occurs_at(hay, needle, i) {
        lemma_rfind_from_occurs(hay, needle, i - 1);
    }
}

impl SetHandlerName {
    /// Takes the handler's full type name (e.g. `crate::features::x::handlers::list_things`)
    /// and keeps its last path segment (`list_things`).
    pub fn of(full_type_name: &str) -> (r: Self)
        ensures
            r.name() == last_path_segment(full_type_name@),
    {
        let full = chars_of(full_type_name);
        let sep = chars_of("::");
        proof {
            reveal_strlit("::");
            assert(sep@ =~= seq![':', ':']);
        }
        if full.len() < 2 {
            return SetHandlerName { name: full_type_name.to_string() };
        }
        let mut i: usize = full.len() - 2;
        loop
            invariant
                full@ == full_type_name@,
                sep@ == "::"@,
                sep@ == seq![':', ':'],
                full@.len() == full.len(),
                i + 2 <= full@.len(),
                rfind_from(full@, sep@, full@.len() - 2) == rfind_from(full@, sep@, i as int),
            decreases i,
        {
            if full[i] == ':' && full[i + 1] == ':' {
                assert(full@.subrange(i as int, i + 2) =~= sep@);
                let seg = sub_chars(&full, i + 2, full.len());
                return SetHandlerName { name: string_from_chars(seg.as_slice()) };
            }
            assert(!occurs_at(full@, sep@, i as int)) by {
                if occurs_at(full@, sep@, i as int) {
                    assert(full@.subrange(i as int, i + 2)[0] == sep@[0]);
                    assert(full@.subrange(i as int, i + 2)[1] == sep@[1]);
                }
            }
            if i == 0 {
                assert(rfind_from(full@, sep@, -1) is None);
                assert(rfind_from(full@, sep@, 0) is None);
                return SetHandlerName { name: full_type_name.to_string() };
            }
            i = i - 1;
        }
    }

    pub closed spec fn name(self) -> Seq<char> {
        self.name@
    }

    /// The name this layer injects.
    pub fn handler_name(&self) -> (r: HandlerName)
        ensures
            r.0@ == self.name(),
    {
        HandlerName(self.name.clone())
    }

    /// Wraps `inner` so that each request it handles carries this handler name.
    pub fn layer<S>(&self, inner: S) -> (r: SetHandlerNameService<S>)
        ensures
            r.inner == inner,
            r.name@ == self.name(),
    {
        SetHandlerNameService { inner, name: self.name.clone() }
    }
}

} // verus!
