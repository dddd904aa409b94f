use graph_gateway::cors::{effective_cors, preflight, CorsPolicy};
use graph_gateway::routes::{
    handle_request, is_served_path, match_route, query_reply, redirect_reply, BodyParse,
    ExecDecision, GraphQLRequest, HostHeader, Method, ReplyPlan, RequestDecision, Route,
};

#[test]
fn redirect_to_studio() {
    let listen_address = "127.0.0.1:4100";
    for path in [String::from("/"), String::from("/graphql")] {
        assert_eq!(match_route(Method::Get, &path), Route::DiscoveryRedirect);
        let host = HostHeader::Valid(String::from(listen_address));
        let reply = redirect_reply(&host);
        assert_eq!(reply.status(), 307);
        match reply {
            ReplyPlan::TemporaryRedirect { location } => {
                assert_eq!(
                    location,
                    format!(
                        "https://studio.apollographql.com/sandbox?endpoint=http://{}",
                        listen_address
                    ),
                    "Incorrect redirect url"
                );
            }
            ReplyPlan::BadRequest { .. } => panic!("expected a redirect"),
        }
    }
}

#[test]
fn malformed_request() {
    let path = String::from("/graphql");
    assert_eq!(match_route(Method::Post, &path), Route::QueryExecution);
    match query_reply(BodyParse::NotJson) {
        ExecDecision::Reject { status } => assert_eq!(status, 400),
        ExecDecision::Invoke(_) => panic!("a garbage body must never reach the fetcher"),
    }
}

#[test]
fn bad_host_header_is_rejected() {
    for host in [HostHeader::Missing, HostHeader::NotUtf8] {
        let reply = redirect_reply(&host);
        assert_eq!(reply.status(), 400);
        match reply {
            ReplyPlan::BadRequest { body } => {
                assert!(!body.is_empty());
                assert_eq!(body, "Invalid request Host header");
            }
            ReplyPlan::TemporaryRedirect { .. } => panic!("expected a rejection"),
        }
    }
}

#[test]
fn parsed_body_reaches_the_fetcher() {
    let request = GraphQLRequest {
        query: String::from("query"),
        operation_name: None,
    };
    match query_reply(BodyParse::Parsed(request)) {
        ExecDecision::Invoke(q) => assert_eq!(q.query, "query"),
        ExecDecision::Reject { .. } => panic!("a well-formed body must be executed"),
    }
}

#[test]
fn unmatched_requests_are_rejected() {
    let other = String::from("/other");
    let root = String::from("/");
    assert!(!is_served_path(&other));
    assert_eq!(match_route(Method::Get, &other), Route::NoMatch);
    assert_eq!(match_route(Method::Post, &other), Route::NoMatch);
    assert_eq!(match_route(Method::Options, &root), Route::NoMatch);
    assert_eq!(match_route(Method::Other, &root), Route::NoMatch);
}

#[test]
fn full_table_dispatch() {
    let path = String::from("/graphql");
    let host = HostHeader::Valid(String::from("127.0.0.1:4100"));
    match handle_request(Method::Get, &path, &host, BodyParse::NotJson) {
        RequestDecision::Reply(plan) => assert_eq!(plan.status(), 307),
        _ => panic!("GET on a served path must reach the discovery route"),
    }
    let request = GraphQLRequest {
        query: String::from("query"),
        operation_name: None,
    };
    match handle_request(Method::Post, &path, &host, BodyParse::Parsed(request)) {
        RequestDecision::Execute(q) => assert_eq!(q.query, "query"),
        _ => panic!("a well-formed POST must reach the fetcher"),
    }
    match handle_request(Method::Post, &path, &host, BodyParse::NotJson) {
        RequestDecision::Reject { status } => assert_eq!(status, 400),
        _ => panic!("a garbage POST body must be rejected"),
    }
    let other = String::from("/other");
    match handle_request(Method::Get, &other, &host, BodyParse::NotJson) {
        RequestDecision::Reject { status } => assert_eq!(status, 404),
        _ => panic!("an unserved path must be rejected"),
    }
    match handle_request(Method::Other, &path, &host, BodyParse::NotJson) {
        RequestDecision::Reject { status } => assert_eq!(status, 405),
        _ => panic!("an unserved method must be rejected"),
    }
}

#[test]
fn cors_preflight() {
    let policy = effective_cors(Some(CorsPolicy {
        origins: vec![String::from("http://studio")],
    }));
    for _path in [String::from("/"), String::from("/graphql")] {
        let origin = String::from("http://studio");
        let reply = preflight(&policy, &origin).expect("allowed origin must get CORS headers");
        assert_eq!(
            reply.allow_origin, "http://studio",
            "Incorrect access control allow origin header"
        );
        assert!(
            reply.allow_headers.iter().any(|h| h == "content-type"),
            "Incorrect access control allow header header"
        );
        for method in ["GET", "POST", "OPTIONS"] {
            assert!(
                reply.allow_methods.iter().any(|m| m == method),
                "Incorrect access control allow methods header"
            );
        }
    }
}

#[test]
fn cors_disallowed_origin_gets_no_headers() {
    let policy = CorsPolicy {
        origins: vec![String::from("http://studio")],
    };
    let origin = String::from("http://elsewhere");
    assert!(preflight(&policy, &origin).is_none());
}

#[test]
fn cors_default_policy_allows_nothing() {
    let policy = effective_cors(None);
    assert!(policy.origins.is_empty());
    let origin = String::from("http://studio");
    assert!(preflight(&policy, &origin).is_none());
}
