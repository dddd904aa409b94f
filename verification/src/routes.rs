//! The route table: method/path matching, the discovery redirect for GET
//! requests, and the accept/reject decision for POST query execution.

use vstd::prelude::*;

verus! {

/// The HTTP method of an inbound request, as far as routing cares.
#[derive(Clone, Copy, PartialEq, Eq, Structural, Debug)]
pub enum Method {
    Get,
    Post,
    Options,
    Other,
}

/// The `Host` request header as the transport layer hands it over:
/// present and valid UTF-8, present but not decodable, or absent.
pub enum HostHeader {
    Valid(String),
    NotUtf8,
    Missing,
}

/// Which of the two routes an inbound request matches.
#[derive(Clone, Copy, PartialEq, Eq, Structural, Debug)]
pub enum Route {
    DiscoveryRedirect,
    QueryExecution,
    NoMatch,
}

/// The paths both routes serve: the bare root and the query endpoint.
pub open spec fn spec_is_served_path(path: Seq<char>) -> bool {
    path == "/"@ || path == "/graphql"@
}

pub fn is_served_path(path: &String) -> (r: bool)
    ensures
        r == spec_is_served_path(path@),
{
    *path == String::from_str("/") || *path == String::from_str("/graphql")
}

/// Route dispatch: GET on a served path goes to the discovery redirect,
/// POST on a served path goes to query execution, everything else is
/// rejected by the framework's default (never silently dropped).
pub fn match_route(method: Method, path: &String) -> (r: Route)
    ensures
        (r == Route::DiscoveryRedirect) <==> (method == Method::Get
            && spec_is_served_path(path@)),
        (r == Route::QueryExecution) <==> (method == Method::Post
            && spec_is_served_path(path@)),
{
    if is_served_path(path) {
        match method {
            Method::Get => Route::DiscoveryRedirect,
            Method::Post => Route::QueryExecution,
            _ => Route::NoMatch,
        }
    } else {
        Route::NoMatch
    }
}

/// A fully decided reply for the discovery route.
pub enum ReplyPlan {
    /// A temporary redirect (status 307) with this `Location` value.
    TemporaryRedirect { location: String },
    /// A bad request (status 400) with this plain-text body.
    BadRequest { body: String },
}

impl ReplyPlan {
    /// The HTTP status the plan stands for.
    pub fn status(&self) -> (s: u16)
        ensures
            (self matches ReplyPlan::TemporaryRedirect { .. }) ==> s == 307,
            (self matches ReplyPlan::BadRequest { .. }) ==> s == 400,
    {
        match self {
            ReplyPlan::TemporaryRedirect { .. } => 307,
            ReplyPlan::BadRequest { .. } => 400,
        }
    }
}

/// The fixed discovery URL, up to the endpoint parameter.
pub open spec fn studio_url_prefix() -> Seq<char> {
    "https://studio.apollographql.com/sandbox?endpoint=http://"@
}

/// Decide the reply for a GET on a served path. A present, decodable
/// `Host` value h is answered with a redirect whose location is exactly
/// the discovery URL parameterized by h, verbatim; a missing or
/// undecodable header is answered 400 with a non-empty explanation.
/// The request body plays no part in the decision.
pub fn redirect_reply(host: &HostHeader) -> (r: ReplyPlan)
    ensures
        match host {
            HostHeader::Valid(h) => (r matches ReplyPlan::TemporaryRedirect { location }
                && location@ == studio_url_prefix() + h@),
            _ => (r matches ReplyPlan::BadRequest { body }
                && body@ == "Invalid request Host header"@
                && body@.len() > 0),
        },
{
    match host {
        HostHeader::Valid(h) => {
            let location = String::from_str(
                "https://studio.apollographql.com/sandbox?endpoint=http://",
            ).concat(h.as_str());
            ReplyPlan::TemporaryRedirect { location }
        },
        _ => {
            proof {
                reveal_strlit("Invalid request Host header");
            }
            ReplyPlan::BadRequest { body: String::from_str("Invalid request Host header") }
        },
    }
}

/// An inbound query payload, immutable once constructed.
pub struct GraphQLRequest {
    pub query: String,
    pub operation_name: Option<String>,
}

/// What the framework's attempt to read the POST body as JSON produced.
pub enum BodyParse {
    /// The body did not deserialize.
    NotJson,
    /// The body deserialized into a request.
    Parsed(GraphQLRequest),
}

/// The decision for a POST on a served path.
pub enum ExecDecision {
    /// Answer with this status and do nothing else.
    Reject { status: u16 },
    /// Hand this request to the fetcher capability and stream the result.
    Invoke(GraphQLRequest),
}

/// Decide a POST on a served path: a body that deserialized is handed to
/// the fetcher, and only such a body ever is; a malformed body is
/// rejected with 400 before the fetcher is consulted.
pub fn query_reply(body: BodyParse) -> (d: ExecDecision)
    ensures
        (body matches BodyParse::Parsed(p) ==> (d matches ExecDecision::Invoke(q)
            && q == p)),
        (d matches ExecDecision::Invoke(q) ==> (body matches BodyParse::Parsed(p)
            && p == q)),
        (body matches BodyParse::NotJson) ==> (d matches ExecDecision::Reject { status }
            && status == 400),
{
    match body {
        BodyParse::Parsed(q) => ExecDecision::Invoke(q),
        BodyParse::NotJson => ExecDecision::Reject { status: 400 },
    }
}

/// What the composed route table decides for one inbound request,
/// before any fetcher work happens.
pub enum RequestDecision {
    /// The discovery route answered: a redirect or a Host rejection.
    Reply(ReplyPlan),
    /// The execution route accepted: hand this request to the fetcher.
    Execute(GraphQLRequest),
    /// No route matched, or the execution route rejected the body.
    Reject { status: u16 },
}

/// The composed route table. The two routes are mutually exclusive by
/// method, the fetcher is reached exactly by a POST on a served path
/// whose body deserialized, and an unmatched request is rejected with a
/// status, never silently dropped.
pub fn handle_request(
    method: Method,
    path: &String,
    host: &HostHeader,
    body: BodyParse,
) -> (d: RequestDecision)
    ensures
        (d matches RequestDecision::Execute(q) ==> (method == Method::Post
            && spec_is_served_path(path@) && (body matches BodyParse::Parsed(p) && p == q))),
        method == Method::Post && spec_is_served_path(path@) ==> (body matches BodyParse::Parsed(
            p,
        ) ==> (d matches RequestDecision::Execute(q) && q == p)),
        method == Method::Post && spec_is_served_path(path@) && body is NotJson ==> (d
            matches RequestDecision::Reject { status } && status == 400),
        method == Method::Get && spec_is_served_path(path@) ==> match host {
            HostHeader::Valid(h) => (d matches RequestDecision::Reply(plan)
                && (plan matches ReplyPlan::TemporaryRedirect { location }
                && location@ == studio_url_prefix() + h@)),
            _ => (d matches RequestDecision::Reply(plan)
                && (plan matches ReplyPlan::BadRequest { body: text } && text@.len() > 0)),
        },
        !spec_is_served_path(path@) ==> (d matches RequestDecision::Reject { status }
            && status == 404),
        spec_is_served_path(path@) && method != Method::Get && method != Method::Post ==> (d
            matches RequestDecision::Reject { status } && status == 405),
{
    if !is_served_path(path) {
        return RequestDecision::Reject { status: 404 };
    }
    match match_route(method, path) {
        Route::DiscoveryRedirect => RequestDecision::Reply(redirect_reply(host)),
        Route::QueryExecution => match query_reply(body) {
            ExecDecision::Invoke(q) => RequestDecision::Execute(q),
            ExecDecision::Reject { status } => RequestDecision::Reject { status },
        },
        Route::NoMatch => RequestDecision::Reject { status: 405 },
    }
}

} // verus!
