use jwaf::message::{
    InboundRequest, Level, LogEvent, OutboundRequest, ProxyError, ProxyResponse,
    FORWARD_FAILURE_STATUS, MALFORMED_BODY_STATUS, READ_FAILURE_STATUS, REJECTION_STATUS,
};
use jwaf::pattern::PatternMatcher;
use jwaf::proxy::{decide, filter, return_forbidden, Decision, FilterOutcome, Verdict};

fn request(method: &str, uri: &str, body: &str) -> InboundRequest {
    InboundRequest {
        method: method.to_string(),
        uri: uri.to_string(),
        body: body.as_bytes().to_vec(),
    }
}

#[test]
fn forbidden_response_is_bare_403() {
    assert_eq!(return_forbidden(), ProxyResponse { status: 403, headers: vec![], body: vec![] });
    assert_eq!(REJECTION_STATUS, 403);
}

#[test]
fn failures_have_their_own_statuses() {
    assert_eq!(ProxyError::MalformedBody.status(), 400);
    assert_eq!(ProxyError::TransportRead.status(), 500);
    assert_eq!(ProxyError::ForwardTransport.status(), 502);
    assert_eq!(MALFORMED_BODY_STATUS, 400);
    assert_eq!(READ_FAILURE_STATUS, 500);
    assert_eq!(FORWARD_FAILURE_STATUS, 502);
    for error in [ProxyError::MalformedBody, ProxyError::TransportRead, ProxyError::ForwardTransport]
    {
        assert_ne!(error.status(), REJECTION_STATUS);
        assert!(error.status() >= 400);
        assert_eq!(
            error.response(),
            ProxyResponse { status: error.status(), headers: vec![], body: vec![] }
        );
    }
}

#[test]
fn bare_response_has_nothing_but_its_status() {
    assert_eq!(ProxyResponse::bare(204), ProxyResponse { status: 204, headers: vec![], body: vec![] });
}

#[test]
fn events_are_logged_at_their_levels() {
    assert_eq!(LogEvent::Rejected { body: "{}".to_string() }.level(), Level::Critical);
    assert_eq!(LogEvent::Forwarding { uri: "/".to_string() }.level(), Level::Info);
    assert_eq!(
        LogEvent::Duplicate { uri: "/".to_string(), method: "GET".to_string() }.level(),
        Level::Warning
    );
    assert_eq!(
        LogEvent::ForwardFailed { uri: "/".to_string(), cause: "refused".to_string() }.level(),
        Level::Error
    );
}

#[test]
fn decide_answers_a_rejection_with_the_forbidden_response() {
    assert_eq!(
        decide(Verdict::Reject, "http://127.0.0.1:9000", "GET", "/"),
        Decision::Respond(ProxyResponse { status: 403, headers: vec![], body: vec![] })
    );
}

#[test]
fn decide_rebuilds_a_forwarded_request_for_the_backend() {
    assert_eq!(
        decide(
            Verdict::Forward("{\"message\":\"hi\"}".to_string()),
            "http://127.0.0.1:9000",
            "PUT",
            "/putpath?x=1&y=2"
        ),
        Decision::Forward(OutboundRequest {
            method: "PUT".to_string(),
            uri: "http://127.0.0.1:9000/putpath?x=1&y=2".to_string(),
            body: "{\"message\":\"hi\"}".to_string(),
        })
    );
}

#[test]
fn filter_forwards_a_clean_body_in_canonical_form() {
    let matcher = PatternMatcher::new().unwrap();
    let outcome = filter(
        "http://127.0.0.1:9000",
        &request("GET", "/", "{ \"message\": \"hi\" }"),
        &matcher,
    );
    assert_eq!(
        outcome,
        FilterOutcome {
            decision: Decision::Forward(OutboundRequest {
                method: "GET".to_string(),
                uri: "http://127.0.0.1:9000/".to_string(),
                body: "{\"message\":\"hi\"}".to_string(),
            }),
            event: Some(LogEvent::Forwarding { uri: "http://127.0.0.1:9000/".to_string() }),
        }
    );
}

#[test]
fn filter_rejects_a_marked_body_and_keeps_it_for_audit() {
    let matcher = PatternMatcher::new().unwrap();
    let outcome = filter(
        "http://127.0.0.1:9000",
        &request("GET", "/", "{ \"is_malicious\": true }"),
        &matcher,
    );
    assert_eq!(
        outcome,
        FilterOutcome {
            decision: Decision::Respond(ProxyResponse { status: 403, headers: vec![], body: vec![] }),
            event: Some(LogEvent::Rejected { body: "{\"is_malicious\":true}".to_string() }),
        }
    );
}

#[test]
fn filter_rejects_a_marker_nested_in_the_document() {
    let matcher = PatternMatcher::new().unwrap();
    let outcome = filter(
        "http://127.0.0.1:9000",
        &request("GET", "/", "{\"hidden\":{\"is_malicious\":true}}"),
        &matcher,
    );
    assert_eq!(
        outcome.decision,
        Decision::Respond(ProxyResponse { status: 403, headers: vec![], body: vec![] })
    );
}

#[test]
fn filter_answers_a_malformed_body_with_a_client_error() {
    let matcher = PatternMatcher::new().unwrap();
    let outcome = filter("http://127.0.0.1:9000", &request("POST", "/", "not-json"), &matcher);
    assert_eq!(
        outcome,
        FilterOutcome {
            decision: Decision::Respond(ProxyResponse { status: 400, headers: vec![], body: vec![] }),
            event: None,
        }
    );
    let empty = filter("http://127.0.0.1:9000", &request("GET", "/", ""), &matcher);
    assert_eq!(empty, outcome);
}

#[test]
fn filter_treats_a_string_true_as_innocent() {
    let matcher = PatternMatcher::new().unwrap();
    let outcome = filter(
        "http://127.0.0.1:9000",
        &request("PUT", "/putpath", "{\"is_malicious\":\"true\"}"),
        &matcher,
    );
    match outcome.decision {
        Decision::Forward(sent) => assert_eq!(sent.body, "{\"is_malicious\":\"true\"}"),
        Decision::Respond(response) => panic!("answered with {}", response.status),
    }
}

#[test]
fn bodies_that_hold_the_same_document_are_filtered_alike() {
    let matcher = PatternMatcher::new().unwrap();
    let pairs = [
        ("{\"b\":1,\"a\":{\"c\":[1,2]}}", " {\n \"a\" : { \"c\" : [ 1 , 2 ] } ,\t\"b\" : 1 } "),
        ("{\"is_malicious\":true}", "{ \"is_malicious\"\n:\ntrue }"),
        ("{\"hidden\":{\"is_malicious\":true}}", "{\"hidden\": {\"is_malicious\": true}}"),
    ];
    for (compact, spread) in pairs {
        let first = filter("http://127.0.0.1:9000", &request("PUT", "/p?q=1", compact), &matcher);
        let second = filter("http://127.0.0.1:9000", &request("PUT", "/p?q=1", spread), &matcher);
        assert_eq!(first, second);
    }
    let sent = filter(
        "http://127.0.0.1:9000",
        &request("PUT", "/p", " { \"b\" : 1 , \"a\" : 2 } "),
        &matcher,
    );
    match sent.decision {
        Decision::Forward(outbound) => {
            assert_eq!(outbound.body, "{\"a\":2,\"b\":1}");
            let again = filter("http://127.0.0.1:9000", &request("PUT", "/p", &outbound.body), &matcher);
            assert_eq!(
                again.decision,
                Decision::Forward(OutboundRequest {
                    method: "PUT".to_string(),
                    uri: "http://127.0.0.1:9000/p".to_string(),
                    body: "{\"a\":2,\"b\":1}".to_string(),
                })
            );
        }
        Decision::Respond(response) => panic!("answered with {}", response.status),
    }
}
