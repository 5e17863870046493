//! The laws the service keeps, each proved of the dispatch model.

use vstd::prelude::*;

use crate::handlers::hello_html;
use crate::handlers::json_hello_text;
use crate::handlers::post_success_text;
use crate::model::BodyModel;
use crate::model::ContentKind;
use crate::model::Method;
use crate::model::OutcomeModel;
use crate::model::PayloadModel;
use crate::model::RequestModel;
use crate::model::ResponseModel;
use crate::router::routes;
use crate::server::spec_handle;

verus! {

/// For every non-empty name offered in the query string, a GET of the
/// query greeting route replies 200 with the HTML greeting for exactly
/// that name, whatever the body held.
pub proof fn law_query_greeting(name: Seq<char>, b: BodyModel)
    requires
        name.len() > 0,
    ensures
        spec_handle(
            RequestModel {
                method: Method::Get,
                path: "/hello"@,
                query_name: Some(name),
                body: b,
            },
        ) == OutcomeModel::Reply(
            ResponseModel { status: 200, content: ContentKind::Html, body: hello_html(name) },
        ),
{
}

/// A GET of the query greeting route without a name replies 200 with
/// the greeting for the default name, `World`.
pub proof fn law_query_default(b: BodyModel)
    ensures
        spec_handle(
            RequestModel { method: Method::Get, path: "/hello"@, query_name: None, body: b },
        ) == OutcomeModel::Reply(
            ResponseModel { status: 200, content: ContentKind::Html, body: hello_html("World"@) },
        ),
{
}

/// For every non-empty path segment free of `/`, a GET of the path
/// greeting route replies 200 with the HTML greeting for exactly that
/// segment, whatever the query string or body held.
pub proof fn law_path_greeting(name: Seq<char>, q: Option<Seq<char>>, b: BodyModel)
    requires
        name.len() > 0,
        forall|i: int| 0 <= i < name.len() ==> name[i] != '/',
    ensures
        spec_handle(
            RequestModel { method: Method::Get, path: "/hello/"@ + name, query_name: q, body: b },
        ) == OutcomeModel::Reply(
            ResponseModel { status: 200, content: ContentKind::Html, body: hello_html(name) },
        ),
{
    reveal_strlit("/hello");
    reveal_strlit("/hello/");
    let path = "/hello/"@ + name;
    assert(path.subrange(0, 7) =~= "/hello/"@);
    assert(forall|i: int| 7 <= i < path.len() ==> path[i] == name[i - 7]);
    assert(path.subrange(7, path.len() as int) =~= name);
}

/// The fixed JSON route replies 200 with the same document whatever
/// the query string or body held.
pub proof fn law_json_fixed(q: Option<Seq<char>>, b: BodyModel)
    ensures
        spec_handle(
            RequestModel { method: Method::Get, path: "/api/hello/json"@, query_name: q, body: b },
        ) == OutcomeModel::Reply(
            ResponseModel { status: 200, content: ContentKind::Json, body: json_hello_text() },
        ),
{
    reveal_strlit("/hello");
    reveal_strlit("/hello/");
    reveal_strlit("/api/hello/json");
    let path = "/api/hello/json"@;
    assert(path.subrange(0, 7) != "/hello/"@) by {
        assert(path.subrange(0, 7)[1] == 'a');
    }
}

/// The POST route acknowledges every body that parsed, whatever its
/// payload held and whatever the query string was.
pub proof fn law_post_accepts_any_payload(payload: PayloadModel, q: Option<Seq<char>>)
    ensures
        spec_handle(
            RequestModel {
                method: Method::Post,
                path: "/api/hello/post"@,
                query_name: q,
                body: BodyModel::Valid(payload),
            },
        ) == OutcomeModel::Reply(
            ResponseModel { status: 200, content: ContentKind::Json, body: post_success_text() },
        ),
{
}

/// The POST route answers a missing or malformed body with a client
/// error, never with an acknowledgement.
pub proof fn law_post_rejects_bad_body(b: BodyModel, q: Option<Seq<char>>)
    requires
        !(b is Valid),
    ensures
        spec_handle(
            RequestModel { method: Method::Post, path: "/api/hello/post"@, query_name: q, body: b },
        ) == OutcomeModel::Reply(
            ResponseModel { status: 400, content: ContentKind::Text, body: Seq::empty() },
        ),
{
}

/// A request that no route matches is handed to static file serving.
pub proof fn law_unrouted_falls_back(req: RequestModel)
    requires
        !routes(req.method, req.path),
    ensures
        spec_handle(req) == OutcomeModel::Fallback,
{
}

} // verus!
