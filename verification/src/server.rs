//! The dispatcher: the response the service owes for each request.

use vstd::prelude::*;

use crate::handlers::chosen_name;
use crate::handlers::hello_body;
use crate::handlers::hello_html;
use crate::handlers::hello_post_response;
use crate::handlers::hello_query_body;
use crate::handlers::json_hello_body;
use crate::handlers::json_hello_text;
use crate::handlers::post_success_text;
use crate::model::ContentKind;
use crate::model::Outcome;
use crate::model::OutcomeModel;
use crate::model::Request;
use crate::model::RequestModel;
use crate::model::Response;
use crate::model::ResponseModel;
use crate::router::Route;
use crate::router::greet_path_name;
use crate::router::greet_segment;
use crate::router::is_api_json_route;
use crate::router::is_api_post_route;
use crate::router::is_hello_path_route;
use crate::router::is_hello_query_route;
use crate::router::match_route;

verus! {

/// The outcome the service owes for a request: each route's reply, or
/// the hand-off to static file serving when no route matches.
pub open spec fn spec_handle(req: RequestModel) -> OutcomeModel {
    if is_hello_query_route(req.method, req.path) {
        OutcomeModel::Reply(
            ResponseModel {
                status: 200,
                content: ContentKind::Html,
                body: hello_html(chosen_name(req.query_name)),
            },
        )
    } else if is_hello_path_route(req.method, req.path) {
        OutcomeModel::Reply(
            ResponseModel {
                status: 200,
                content: ContentKind::Html,
                body: hello_html(greet_segment(req.path)),
            },
        )
    } else if is_api_json_route(req.method, req.path) {
        OutcomeModel::Reply(
            ResponseModel { status: 200, content: ContentKind::Json, body: json_hello_text() },
        )
    } else if is_api_post_route(req.method, req.path) {
        if req.body is Valid {
            OutcomeModel::Reply(
                ResponseModel { status: 200, content: ContentKind::Json, body: post_success_text() },
            )
        } else {
            OutcomeModel::Reply(
                ResponseModel { status: 400, content: ContentKind::Text, body: Seq::empty() },
            )
        }
    } else {
        OutcomeModel::Fallback
    }
}

/// Maps a request to the outcome the service owes for it.
pub fn handle_request(req: &Request) -> (r: Outcome)
    ensures
        r@ == spec_handle(req@),
{
    let route = match_route(&req.method, req.path.as_str());
    match route {
        Route::HelloQuery => Outcome::Reply(
            Response {
                status: 200,
                content: ContentKind::Html,
                body: hello_query_body(&req.query_name),
            },
        ),
        Route::HelloPath => {
            let name = greet_path_name(req.path.as_str());
            Outcome::Reply(
                Response { status: 200, content: ContentKind::Html, body: hello_body(name.as_str()) },
            )
        },
        Route::ApiJson => Outcome::Reply(
            Response { status: 200, content: ContentKind::Json, body: json_hello_body() },
        ),
        Route::ApiPost => Outcome::Reply(hello_post_response(&req.body)),
        Route::NoMatch => Outcome::Fallback,
    }
}

} // verus!
