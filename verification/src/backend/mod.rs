//! The three flavours of a query request, and the routes that select them.

pub mod consult;
pub mod requests;

use vstd::prelude::*;
use vstd::string::StrSliceExecFns;
use crate::search::same_text;

verus! {

/// What a request asks for: the verdict alone, the verdict with the search
/// results, or the verdict with a summary of them.
#[derive(Clone, Copy, Debug, PartialEq, Eq, Structural)]
pub enum QueryType {
    Decision,
    Complete,
    Summarize,
}

/// The flavour that a request path selects; `None` for every other path.
pub open spec fn query_type_at(path: Seq<char>) -> Option<QueryType> {
    if path == "/query/decide"@ {
        Some(QueryType::Decision)
    } else if path == "/query/complete"@ {
        Some(QueryType::Complete)
    } else if path == "/query/summarize"@ {
        Some(QueryType::Summarize)
    } else {
        None
    }
}

/// Selects the flavour of a request by its path. A path that selects none is
/// not served.
pub fn handle_query_request(path: &str) -> (r: Option<QueryType>)
    ensures
        r == query_type_at(path@),
{
    if same_text(path, "/query/decide") {
        Some(QueryType::Decision)
    } else if same_text(path, "/query/complete") {
        Some(QueryType::Complete)
    } else if same_text(path, "/query/summarize") {
        Some(QueryType::Summarize)
    } else {
        None
    }
}

/// What a request path leads to.
#[derive(Clone, Copy, Debug, PartialEq, Eq, Structural)]
pub enum Route {
    /// The liveness probe, answered with a fixed text.
    Echo,
    /// One of the three query routes.
    Query(QueryType),
    /// Nothing is served there.
    NotImplemented,
}

/// The first position at or after `from` that holds no slash.
pub open spec fn segment_start(path: Seq<char>, from: int) -> int
    decreases path.len() - from,
{
    if 0 <= from < path.len() && path[from] == '/' {
        segment_start(path, from + 1)
    } else {
        from
    }
}

/// The first position at or after `from` that holds a slash, or the end.
pub open spec fn segment_end(path: Seq<char>, from: int) -> int
    decreases path.len() - from,
{
    if 0 <= from < path.len() && path[from] != '/' {
        segment_end(path, from + 1)
    } else {
        from
    }
}

/// The first segment of a path: what stands between its leading slashes and
/// the next slash. A segment that is a single dot is a segment like any other.
pub open spec fn first_segment(path: Seq<char>) -> Seq<char> {
    let start = segment_start(path, 0);
    path.subrange(start, segment_end(path, start))
}

/// Where a path leads: the three query paths to their flavour, every path
/// whose first segment is `echo` to the probe, and every other path nowhere.
pub open spec fn route_at(path: Seq<char>) -> Route {
    match query_type_at(path) {
        Some(query_type) => Route::Query(query_type),
        None => if first_segment(path) == "echo"@ {
            Route::Echo
        } else {
            Route::NotImplemented
        },
    }
}

/// Finds where a request path leads.
pub fn handle_request(path: &str) -> (r: Route)
    ensures
        r == route_at(path@),
{
    match handle_query_request(path) {
        Some(query_type) => Route::Query(query_type),
        None => {
            let n = path.unicode_len();
            let mut start: usize = 0;
            while start < n && path.get_char(start) == '/'
                invariant
                    start <= n,
                    n == path@.len(),
                    segment_start(path@, 0) == segment_start(path@, start as int),
                decreases n - start,
            {
                start += 1;
            }
            let mut end: usize = start;
            while end < n && path.get_char(end) != '/'
                invariant
                    start <= end <= n,
                    n == path@.len(),
                    segment_end(path@, start as int) == segment_end(path@, end as int),
                decreases n - end,
            {
                end += 1;
            }
            let segment = path.substring_char(start, end);
            if same_text(segment, "echo") {
                Route::Echo
            } else {
                Route::NotImplemented
            }
        },
    }
}

} // verus!
