//! The request and response data of the service, with the mathematical
//! models that the contracts speak of.

use vstd::prelude::*;

verus! {

/// The two request methods the service distinguishes.
#[derive(Clone, Copy, PartialEq, Eq, Structural, Debug)]
pub enum Method {
    Get,
    Post,
}

/// How a response body is to be labelled.
#[derive(Clone, Copy, PartialEq, Eq, Structural, Debug)]
pub enum ContentKind {
    Html,
    Json,
    Text,
}

/// The payload the POST route accepts: both fields optional, and
/// neither used to compute the response.
pub struct PostPayload {
    pub word: Option<String>,
    pub number: Option<i64>,
}

/// What parsing the request body as JSON yielded. A GET request
/// carries no body at all; a POST body either parsed into a payload or
/// did not.
pub enum Body {
    Missing,
    Valid(PostPayload),
    Malformed,
}

/// A request, reduced to what the service reads of it: the method, the
/// path, the `name` query parameter if one was given, and the body.
pub struct Request {
    pub method: Method,
    pub path: String,
    pub query_name: Option<String>,
    pub body: Body,
}

/// A response the service produces itself.
pub struct Response {
    pub status: u16,
    pub content: ContentKind,
    pub body: String,
}

/// What the service does with a request: answer it, or hand it to the
/// surrounding program's static file serving.
pub enum Outcome {
    Reply(Response),
    Fallback,
}

/// Model of a parsed POST payload.
#[verifier::ext_equal]
pub struct PayloadModel {
    pub word: Option<Seq<char>>,
    pub number: Option<i64>,
}

/// Model of a request body.
#[verifier::ext_equal]
pub enum BodyModel {
    Missing,
    Valid(PayloadModel),
    Malformed,
}

/// Model of a request.
#[verifier::ext_equal]
pub struct RequestModel {
    pub method: Method,
    pub path: Seq<char>,
    pub query_name: Option<Seq<char>>,
    pub body: BodyModel,
}

/// Model of a response.
#[verifier::ext_equal]
pub struct ResponseModel {
    pub status: u16,
    pub content: ContentKind,
    pub body: Seq<char>,
}

/// Model of an outcome.
#[verifier::ext_equal]
pub enum OutcomeModel {
    Reply(ResponseModel),
    Fallback,
}

/// The view of an optional query parameter: its characters, if present.
pub open spec fn opt_name_view(q: Option<String>) -> Option<Seq<char>> {
    match q {
        Some(s) => Some(s@),
        None => None,
    }
}

impl View for PostPayload {
    type V = PayloadModel;

    open spec fn view(&self) -> PayloadModel {
        PayloadModel { word: opt_name_view(self.word), number: self.number }
    }
}

impl View for Body {
    type V = BodyModel;

    open spec fn view(&self) -> BodyModel {
        match self {
            Body::Missing => BodyModel::Missing,
            Body::Valid(p) => BodyModel::Valid(p@),
            Body::Malformed => BodyModel::Malformed,
        }
    }
}

impl View for Request {
    type V = RequestModel;

    open spec fn view(&self) -> RequestModel {
        RequestModel {
            method: self.method,
            path: self.path@,
            query_name: opt_name_view(self.query_name),
            body: self.body@,
        }
    }
}

impl View for Response {
    type V = ResponseModel;

    open spec fn view(&self) -> ResponseModel {
        ResponseModel { status: self.status, content: self.content, body: self.body@ }
    }
}

impl View for Outcome {
    type V = OutcomeModel;

    open spec fn view(&self) -> OutcomeModel {
        match self {
            Outcome::Reply(resp) => OutcomeModel::Reply(resp@),
            Outcome::Fallback => OutcomeModel::Fallback,
        }
    }
}

} // verus!
