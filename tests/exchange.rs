use request_bridge::error::ExecutionError;
use request_bridge::exchange::{Action, Event, Exchange};
use request_bridge::method::{parse_method, Verb};
use request_bridge::request::{names_content_type, plan_request, RequestDescription};
use request_bridge::response::{decode_header_value, normalize_headers};

fn request(method: &str, url: &str, headers: &[(&str, &str)], body: &str) -> RequestDescription {
    RequestDescription {
        method: method.to_string(),
        url: url.to_string(),
        headers: headers.iter().map(|(k, v)| (k.to_string(), v.to_string())).collect(),
        body: body.to_string(),
    }
}

fn pairs(hs: &[(String, String)]) -> Vec<(&str, &str)> {
    hs.iter().map(|(k, v)| (k.as_str(), v.as_str())).collect()
}

#[test]
fn recognised_methods_parse() {
    assert_eq!(parse_method("GET"), Some(Verb::Get));
    assert_eq!(parse_method("POST"), Some(Verb::Post));
    assert_eq!(parse_method("PUT"), Some(Verb::Put));
    assert_eq!(parse_method("DELETE"), Some(Verb::Delete));
    assert_eq!(parse_method("PATCH"), Some(Verb::Patch));
    assert_eq!(Verb::Delete.as_str(), "DELETE");
}

#[test]
fn method_match_is_case_sensitive() {
    assert_eq!(parse_method("get"), None);
    assert_eq!(parse_method("Post"), None);
    assert_eq!(parse_method("TRACE"), None);
    assert_eq!(parse_method(""), None);
    assert_eq!(parse_method("GET "), None);
}

#[test]
fn trace_is_refused_without_dispatch() {
    let (state, action) = Exchange::new().step(Event::Begin(request("TRACE", "http://localhost/echo", &[], "")));
    assert!(matches!(state, Exchange::Closed));
    match action {
        Action::Complete(Err(e)) => {
            assert!(matches!(e, ExecutionError::InvalidMethod));
            assert_eq!(e.message(), "Invalid HTTP Method");
        }
        other => panic!("unexpected action {:?}", other),
    }
}

#[test]
fn invalid_method_is_an_error_from_planning() {
    let r = plan_request(request("options", "http://x", &[("A", "b")], "{}"));
    assert!(matches!(r, Err(ExecutionError::InvalidMethod)));
}

#[test]
fn post_body_overrides_caller_content_type() {
    let r = plan_request(request(
        "POST",
        "http://localhost/echo",
        &[("Content-Type", "text/plain")],
        "{\"a\":1}",
    ))
    .unwrap();
    assert_eq!(r.verb, Verb::Post);
    assert_eq!(r.body.as_deref(), Some("{\"a\":1}"));
    assert_eq!(pairs(&r.headers), vec![("Content-Type", "application/json")]);
}

#[test]
fn body_keeps_other_headers_and_drops_any_case_of_content_type() {
    let r = plan_request(request(
        "PUT",
        "http://h/p",
        &[("X-One", "1"), ("content-TYPE", "text/xml"), ("Accept", "*/*")],
        "plain words",
    ))
    .unwrap();
    assert_eq!(
        pairs(&r.headers),
        vec![("X-One", "1"), ("Accept", "*/*"), ("Content-Type", "application/json")]
    );
    assert_eq!(r.body.as_deref(), Some("plain words"));
    assert_eq!(r.url, "http://h/p");
}

#[test]
fn empty_body_sends_headers_unchanged() {
    let r = plan_request(request(
        "DELETE",
        "http://h/item/3",
        &[("Content-Type", "text/plain"), ("X-Trace", "abc")],
        "",
    ))
    .unwrap();
    assert_eq!(r.verb, Verb::Delete);
    assert!(r.body.is_none());
    assert_eq!(pairs(&r.headers), vec![("Content-Type", "text/plain"), ("X-Trace", "abc")]);
}

#[test]
fn content_type_name_ignores_case() {
    assert!(names_content_type("Content-Type"));
    assert!(names_content_type("content-type"));
    assert!(names_content_type("CONTENT-TYPE"));
    assert!(!names_content_type("Content-Length"));
    assert!(!names_content_type("Content-Type "));
    assert!(!names_content_type(""));
}

#[test]
fn get_echo_round_trip() {
    let (state, action) = Exchange::new().step(Event::Begin(request("GET", "http://localhost/echo", &[], "")));
    assert!(matches!(state, Exchange::AwaitingResponse));
    let call = match action {
        Action::Dispatch(c) => c,
        other => panic!("unexpected action {:?}", other),
    };
    assert_eq!(call.verb, Verb::Get);
    assert_eq!(call.url, "http://localhost/echo");
    assert!(call.headers.is_empty());
    assert!(call.body.is_none());

    let raw = vec![
        ("content-type".to_string(), b"text/plain".to_vec()),
        ("x-echo".to_string(), b"yes".to_vec()),
    ];
    let (state, action) = state.step(Event::Responded { status: 200, headers: raw });
    assert!(matches!(action, Action::ReadBody));
    let (state, action) = state.step(Event::BodyRead {
        body: "GET /echo HTTP/1.1".to_string(),
        elapsed_ms: 7,
    });
    assert!(matches!(state, Exchange::Closed));
    match action {
        Action::Complete(Ok(resp)) => {
            assert_eq!(resp.status, 200);
            assert_eq!(resp.status_text, "200 OK");
            assert_eq!(pairs(&resp.headers), vec![("content-type", "text/plain"), ("x-echo", "yes")]);
            assert!(resp.body.contains("GET /echo"));
            assert_eq!(resp.duration, 7);
            assert!(resp.duration > 0);
        }
        other => panic!("unexpected action {:?}", other),
    }
}

#[test]
fn unreachable_server_is_transport_error() {
    let (state, _) = Exchange::new().step(Event::Begin(request("GET", "http://127.0.0.1:9/", &[], "")));
    let (state, action) = state.step(Event::SendFailed("error sending request".to_string()));
    assert!(matches!(state, Exchange::Closed));
    match action {
        Action::Complete(Err(e)) => {
            assert!(matches!(&e, ExecutionError::TransportError(m) if m == "error sending request"));
            assert_eq!(e.message(), "error sending request");
        }
        other => panic!("unexpected action {:?}", other),
    }
}

#[test]
fn unreadable_body_is_transport_error() {
    let (state, _) = Exchange::new().step(Event::Begin(request("GET", "http://h/", &[], "")));
    let (state, _) = state.step(Event::Responded { status: 204, headers: vec![] });
    let (state, action) = state.step(Event::BodyFailed("error decoding response body".to_string()));
    assert!(matches!(state, Exchange::Closed));
    assert!(matches!(
        action,
        Action::Complete(Err(ExecutionError::TransportError(ref m))) if m == "error decoding response body"
    ));
}

#[test]
fn status_text_comes_from_status_code() {
    let (state, _) = Exchange::new().step(Event::Begin(request("GET", "http://h/", &[], "")));
    let (state, _) = state.step(Event::Responded { status: 404, headers: vec![] });
    match state {
        Exchange::AwaitingBody { status, status_text, headers } => {
            assert_eq!(status, 404);
            assert_eq!(status_text, "404 Not Found");
            assert!(headers.is_empty());
        }
        other => panic!("unexpected state {:?}", other),
    }
}

#[test]
fn status_out_of_range_is_transport_error() {
    let (state, _) = Exchange::new().step(Event::Begin(request("GET", "http://h/", &[], "")));
    let (state, action) = state.step(Event::Responded { status: 1000, headers: vec![] });
    assert!(matches!(state, Exchange::Closed));
    assert!(matches!(
        action,
        Action::Complete(Err(ExecutionError::TransportError(ref m))) if m == "invalid status code"
    ));
}

#[test]
fn events_out_of_order_are_ignored() {
    let (state, action) = Exchange::new().step(Event::BodyFailed("x".to_string()));
    assert!(matches!(state, Exchange::Idle));
    assert!(matches!(action, Action::Ignore));
    let (state, _) = state.step(Event::Begin(request("GET", "http://h/", &[], "")));
    let (state, action) = state.step(Event::Begin(request("GET", "http://h/", &[], "")));
    assert!(matches!(state, Exchange::AwaitingResponse));
    assert!(matches!(action, Action::Ignore));
}

#[test]
fn header_values_that_are_not_text_become_empty() {
    assert_eq!(decode_header_value(b"abc def\tg"), "abc def\tg");
    assert_eq!(decode_header_value(&[0x61, 0xff, 0x62]), "");
    assert_eq!(decode_header_value(&[0x61, 0x01]), "");
    assert_eq!(decode_header_value(&[]), "");
}

#[test]
fn repeated_response_headers_keep_last_value() {
    let raw = vec![
        ("set-cookie".to_string(), b"a=1".to_vec()),
        ("x-bin".to_string(), vec![0xc3, 0xa9]),
        ("server".to_string(), b"echo".to_vec()),
        ("set-cookie".to_string(), b"b=2".to_vec()),
    ];
    let hs = normalize_headers(&raw);
    assert_eq!(pairs(&hs), vec![("set-cookie", "b=2"), ("x-bin", ""), ("server", "echo")]);
}
