//! The route table: which method and path reach which handler.

use vstd::prelude::*;
use vstd::string::StrSliceExecFns;

use crate::model::Method;
use crate::text::str_eq;

verus! {

/// The query greeting route: `GET /hello`.
pub open spec fn is_hello_query_route(m: Method, path: Seq<char>) -> bool {
    m is Get && path == "/hello"@
}

/// A path of the form `/hello/` followed by one non-empty segment
/// containing no further `/`.
pub open spec fn is_greet_segment_path(path: Seq<char>) -> bool {
    &&& path.len() > 7
    &&& path.subrange(0, 7) == "/hello/"@
    &&& forall|i: int| 7 <= i < path.len() ==> path[i] != '/'
}

/// The name captured by the path greeting route: everything after
/// `/hello/`.
pub open spec fn greet_segment(path: Seq<char>) -> Seq<char> {
    path.subrange(7, path.len() as int)
}

/// The path greeting route: `GET /hello/{name}`.
pub open spec fn is_hello_path_route(m: Method, path: Seq<char>) -> bool {
    m is Get && is_greet_segment_path(path)
}

/// The fixed JSON route: `GET /api/hello/json`.
pub open spec fn is_api_json_route(m: Method, path: Seq<char>) -> bool {
    m is Get && path == "/api/hello/json"@
}

/// The POST route: `POST /api/hello/post`.
pub open spec fn is_api_post_route(m: Method, path: Seq<char>) -> bool {
    m is Post && path == "/api/hello/post"@
}

/// Whether any route matches the method and path.
pub open spec fn routes(m: Method, path: Seq<char>) -> bool {
    ||| is_hello_query_route(m, path)
    ||| is_hello_path_route(m, path)
    ||| is_api_json_route(m, path)
    ||| is_api_post_route(m, path)
}

/// The route a request is dispatched to.
#[derive(Clone, Copy, PartialEq, Eq, Structural, Debug)]
pub enum Route {
    HelloQuery,
    HelloPath,
    ApiJson,
    ApiPost,
    NoMatch,
}

/// The route the table selects for a method and path.
pub open spec fn spec_route(m: Method, path: Seq<char>) -> Route {
    if is_hello_query_route(m, path) {
        Route::HelloQuery
    } else if is_hello_path_route(m, path) {
        Route::HelloPath
    } else if is_api_json_route(m, path) {
        Route::ApiJson
    } else if is_api_post_route(m, path) {
        Route::ApiPost
    } else {
        Route::NoMatch
    }
}

/// Decides whether a path has the `/hello/{name}` shape.
pub fn is_greet_path(path: &str) -> (r: bool)
    ensures
        r == is_greet_segment_path(path@),
{
    let n = path.unicode_len();
    if n <= 7 {
        return false;
    }
    let prefix = path.substring_char(0, 7);
    if !str_eq(prefix, "/hello/") {
        return false;
    }
    let mut i: usize = 7;
    while i < n
        invariant
            7 <= i <= n,
            n == path@.len(),
            forall|j: int| 7 <= j < i ==> path@[j] != '/',
        decreases n - i,
    {
        if path.get_char(i) == '/' {
            return false;
        }
        i += 1;
    }
    true
}

/// Selects the route for a method and path.
pub fn match_route(m: &Method, path: &str) -> (r: Route)
    ensures
        r == spec_route(*m, path@),
{
    match m {
        Method::Get => {
            if str_eq(path, "/hello") {
                Route::HelloQuery
            } else if is_greet_path(path) {
                Route::HelloPath
            } else if str_eq(path, "/api/hello/json") {
                Route::ApiJson
            } else {
                Route::NoMatch
            }
        },
        Method::Post => {
            if str_eq(path, "/api/hello/post") {
                Route::ApiPost
            } else {
                Route::NoMatch
            }
        },
    }
}

/// Extracts the name segment of a `/hello/{name}` path.
pub fn greet_path_name(path: &str) -> (r: String)
    requires
        is_greet_segment_path(path@),
    ensures
        r@ == greet_segment(path@),
{
    let n = path.unicode_len();
    let segment = path.substring_char(7, n);
    segment.to_owned()
}

} // verus!
