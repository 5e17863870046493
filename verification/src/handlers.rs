//! The bodies each route replies with.

use vstd::prelude::*;
use vstd::string::StrSliceExecFns;
use vstd::string::StringExecFns;

use crate::model::Body;
use crate::model::ContentKind;
use crate::model::Response;
use crate::model::opt_name_view;

verus! {

/// The HTML greeting document for a name.
pub open spec fn hello_html(name: Seq<char>) -> Seq<char> {
    "<b>Hello "@ + name + "</b>"@
}

/// The name an optional `name` query parameter selects: absent or
/// empty means the default, `World`.
pub open spec fn chosen_name(query_name: Option<Seq<char>>) -> Seq<char> {
    match query_name {
        Some(n) => if n.len() == 0 {
            "World"@
        } else {
            n
        },
        None => "World"@,
    }
}

/// The fixed document of the JSON route.
pub open spec fn json_hello_text() -> Seq<char> {
    "{\"Message\":\"Hello Wyrld JSON\",\"Data\":{\"number\":69}}"@
}

/// The acknowledgement document of the POST route.
pub open spec fn post_success_text() -> Seq<char> {
    "{\"message\":\"Success\"}"@
}

/// Builds the HTML greeting for a name.
pub fn hello_body(name: &str) -> (r: String)
    ensures
        r@ == hello_html(name@),
{
    let mut s = String::from_str("<b>Hello ");
    s.append(name);
    s.append("</b>");
    s
}

/// Builds the body of the query greeting route for an optional `name`
/// query parameter.
pub fn hello_query_body(query_name: &Option<String>) -> (r: String)
    ensures
        r@ == hello_html(chosen_name(opt_name_view(*query_name))),
{
    match query_name {
        Some(n) => {
            if n.as_str().is_empty() {
                hello_body("World")
            } else {
                hello_body(n.as_str())
            }
        },
        None => hello_body("World"),
    }
}

/// Builds the fixed document of the JSON route.
pub fn json_hello_body() -> (r: String)
    ensures
        r@ == json_hello_text(),
{
    String::from_str("{\"Message\":\"Hello Wyrld JSON\",\"Data\":{\"number\":69}}")
}

/// Builds the acknowledgement document of the POST route.
pub fn post_success_body() -> (r: String)
    ensures
        r@ == post_success_text(),
{
    String::from_str("{\"message\":\"Success\"}")
}

/// The response of the POST route for a body-parse outcome: a parsed
/// payload is acknowledged, a missing or malformed body is a client
/// error, answered with an empty body since the service adds no
/// message of its own.
pub fn hello_post_response(body: &Body) -> (r: Response)
    ensures
        body@ is Valid ==> r@.status == 200 && r@.content is Json && r@.body == post_success_text(),
        !(body@ is Valid) ==> r@.status == 400 && r@.content is Text && r@.body == Seq::<char>::empty(),
{
    match body {
        Body::Valid(_) => Response {
            status: 200,
            content: ContentKind::Json,
            body: post_success_body(),
        },
        _ => Response { status: 400, content: ContentKind::Text, body: String::new() },
    }
}

} // verus!
