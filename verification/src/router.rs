//! The router: a declarative mapping from request method and target to one
//! of the two handlers, or to a canonical rejection.
//!
//! Dispatch is an exact match on the path: `GET /` is served by the root
//! handler and `POST /collect` by the collect handler. The query string is
//! ignored, one trailing slash is not significant, and comparison is
//! case-sensitive. A known path reached with another method is rejected
//! with 405; anything else with 404.

use vstd::prelude::*;
use vstd::string::StrSliceExecFns;
use vstd::string::StringSliceAdditionalSpecFns;

verus! {

/// An HTTP request method.
#[derive(Clone, Copy, Debug, PartialEq, Eq, Structural)]
pub enum Method {
    Get,
    Head,
    Post,
    Put,
    Delete,
    Options,
    Patch,
    Other,
}

/// Where a request is dispatched.
#[derive(Clone, Copy, Debug, PartialEq, Eq, Structural)]
pub enum RouteMatch {
    /// `GET /`: the root health probe.
    Root,
    /// `POST /collect`: the ingestion sink.
    Collect,
    /// The path is served, but not with this method.
    MethodNotAllowed,
    /// No route serves the path.
    NotFound,
}

/// Position of the first `'?'` of `t` at or after `from`, or the length of
/// `t` when there is none.
pub open spec fn query_start(t: Seq<u8>, from: int) -> int
    decreases t.len() - from when 0 <= from <= t.len()
{
    if from < t.len() {
        if t[from] == 0x3f {
            from
        } else {
            query_start(t, from + 1)
        }
    } else {
        from
    }
}

/// The path of a request target: everything before the query string, with
/// one trailing slash dropped (except on `/` itself).
pub open spec fn normalized_path(t: Seq<u8>) -> Seq<u8> {
    let p = t.take(query_start(t, 0));
    if p.len() > 1 && p.last() == 0x2f {
        p.drop_last()
    } else {
        p
    }
}

/// The path `/`.
pub open spec fn root_path() -> Seq<u8> {
    "/".spec_bytes()
}

/// The path `/collect`.
pub open spec fn collect_path() -> Seq<u8> {
    "/collect".spec_bytes()
}

/// The dispatch table: `GET /` to the root handler, `POST /collect` to the
/// collect handler, 405 for a served path under another method, 404
/// otherwise.
pub open spec fn route_of(m: Method, t: Seq<u8>) -> RouteMatch {
    let p = normalized_path(t);
    if p == root_path() {
        if m == Method::Get {
            RouteMatch::Root
        } else {
            RouteMatch::MethodNotAllowed
        }
    } else if p == collect_path() {
        if m == Method::Post {
            RouteMatch::Collect
        } else {
            RouteMatch::MethodNotAllowed
        }
    } else {
        RouteMatch::NotFound
    }
}

proof fn lemma_query_start(t: Seq<u8>, from: int, end: int)
    requires
        0 <= from <= end <= t.len(),
        forall|i: int| from <= i < end ==> t[i] != 0x3f,
        end == t.len() || t[end] == 0x3f,
    ensures
        query_start(t, from) == end,
    decreases end - from,
{
    if from < end {
        lemma_query_start(t, from + 1, end);
    }
}

/// Whether the first `p_end` bytes of `t` are exactly `pat`.
fn prefix_is(t: &Vec<u8>, p_end: usize, pat: &Vec<u8>) -> (r: bool)
    requires
        p_end <= t.len(),
    ensures
        r == (t@.subrange(0, p_end as int) == pat@),
{
    if p_end != pat.len() {
        return false;
    }
    let mut i: usize = 0;
    while i < p_end
        invariant
            0 <= i <= p_end <= t@.len(),
            p_end == pat@.len(),
            forall|j: int| 0 <= j < i ==> t@[j] == pat@[j],
        decreases p_end - i,
    {
        if t[i] != pat[i] {
            return false;
        }
        i = i + 1;
    }
    proof {
        assert(t@.subrange(0, p_end as int) =~= pat@);
    }
    true
}

/// Routes one request: the executable form of [`route_of`].
pub fn route(m: Method, target: &Vec<u8>) -> (r: RouteMatch)
    ensures
        r == route_of(m, target@),
{
    let mut q: usize = 0;
    while q < target.len() && target[q] != 0x3f
        invariant
            0 <= q <= target@.len(),
            forall|i: int| 0 <= i < q ==> target@[i] != 0x3f,
        decreases target@.len() - q,
    {
        q = q + 1;
    }
    proof {
        lemma_query_start(target@, 0, q as int);
    }
    let p_end: usize = if q > 1 && target[q - 1] == 0x2f {
        q - 1
    } else {
        q
    };
    let ghost p = normalized_path(target@);
    proof {
        assert(p =~= target@.subrange(0, p_end as int));
    }
    let pat_root = "/".as_bytes_vec();
    let pat_collect = "/collect".as_bytes_vec();
    if prefix_is(target, p_end, &pat_root) {
        if let Method::Get = m {
            RouteMatch::Root
        } else {
            RouteMatch::MethodNotAllowed
        }
    } else if prefix_is(target, p_end, &pat_collect) {
        if let Method::Post = m {
            RouteMatch::Collect
        } else {
            RouteMatch::MethodNotAllowed
        }
    } else {
        RouteMatch::NotFound
    }
}

} // verus!
