use playleft_core::error::PlaywLeftError;
use playleft_core::json::{Json, JsonNumber};
use playleft_core::network::headers::{header_entries_json, headers_from};
use playleft_core::network::request::Request;
use playleft_core::network::response::{body_bytes, body_text, Response};
use playleft_core::network::route::Route;

fn obj(fields: Vec<(&str, Json)>) -> Json {
    Json::Object(fields.into_iter().map(|(k, v)| (k.to_string(), v)).collect())
}

fn s(v: &str) -> Json {
    Json::Str(v.to_string())
}

fn n(v: u64) -> Json {
    Json::Number(JsonNumber::PosInt(v))
}

fn pairs(items: &[(&str, &str)]) -> Vec<(String, String)> {
    items.iter().map(|(a, b)| (a.to_string(), b.to_string())).collect()
}

#[test]
fn request_from_event_reads_fields_and_defaults() {
    let full = obj(vec![
        ("requestId", s("R1")),
        ("type", s("Document")),
        (
            "request",
            obj(vec![
                ("url", s("https://example.com/")),
                ("method", s("POST")),
                ("headers", obj(vec![("Accept", s("*/*"))])),
                ("postData", s("a=1")),
            ]),
        ),
    ]);
    let r = Request::from_cdp_event(&full).unwrap();
    assert_eq!(r.id(), "R1");
    assert_eq!(r.url(), "https://example.com/");
    assert_eq!(r.method(), "POST");
    assert_eq!(r.headers(), &pairs(&[("Accept", "*/*")]));
    assert_eq!(r.post_data(), Some("a=1"));
    assert_eq!(r.resource_type(), "Document");
    assert!(!r.is_intercepted());

    let bare = obj(vec![("requestId", s("R2")), ("request", obj(vec![("url", s("about:blank"))]))]);
    let r = Request::from_cdp_event(&bare).unwrap();
    assert_eq!(r.method(), "GET");
    assert_eq!(r.resource_type(), "Other");
    assert_eq!(r.post_data(), None);
    assert!(r.headers().is_empty());

    assert!(Request::from_cdp_event(&obj(vec![("requestId", s("R3"))])).is_none());
    assert!(Request::from_cdp_event(&obj(vec![("request", obj(vec![("url", s("x"))]))])).is_none());
    assert!(Request::from_cdp_event(&obj(vec![("requestId", s("R4")), ("request", obj(vec![]))])).is_none());
}

#[test]
fn headers_with_a_non_string_value_read_as_none() {
    assert_eq!(
        headers_from(&obj(vec![("A", s("1")), ("B", s("2"))])),
        pairs(&[("A", "1"), ("B", "2")])
    );
    assert!(headers_from(&obj(vec![("A", s("1")), ("B", n(2))])).is_empty());
    assert!(headers_from(&Json::Null).is_empty());
    assert_eq!(
        header_entries_json(&pairs(&[("X-A", "1")])),
        Json::Array(vec![obj(vec![("name", s("X-A")), ("value", s("1"))])])
    );
}

fn response_event(status: Json) -> Json {
    obj(vec![
        ("requestId", s("R1")),
        (
            "response",
            obj(vec![
                ("url", s("https://example.com/")),
                ("status", status),
                ("statusText", s("OK")),
                ("headers", obj(vec![("Content-Type", s("text/html"))])),
                ("mimeType", s("text/html")),
                ("remoteIPAddress", s("93.184.216.34")),
            ]),
        ),
    ])
}

#[test]
fn response_from_event_reads_fields_and_defaults() {
    let r = Response::from_cdp_event(&response_event(n(200))).unwrap();
    assert_eq!(r.request_id(), "R1");
    assert_eq!(r.url(), "https://example.com/");
    assert_eq!(r.status(), 200);
    assert_eq!(r.status_text(), "OK");
    assert_eq!(r.mime_type(), "text/html");
    assert_eq!(r.remote_address(), Some("93.184.216.34"));
    assert!(r.ok());
    assert_eq!(r.body_params(), obj(vec![("requestId", s("R1"))]));

    let bare = obj(vec![("requestId", s("R2")), ("response", obj(vec![("url", s("x"))]))]);
    let r = Response::from_cdp_event(&bare).unwrap();
    assert_eq!(r.status(), 0);
    assert_eq!(r.status_text(), "");
    assert_eq!(r.mime_type(), "application/octet-stream");
    assert_eq!(r.remote_address(), None);
    assert!(!r.ok());
    assert!(Response::from_cdp_event(&obj(vec![("requestId", s("R3"))])).is_none());
}

#[test]
fn response_status_is_cut_to_sixteen_bits_and_ok_means_2xx() {
    assert_eq!(Response::from_cdp_event(&response_event(n(70000))).unwrap().status(), 4464);
    assert_eq!(Response::from_cdp_event(&response_event(s("200"))).unwrap().status(), 0);
    for (code, ok) in [(199, false), (200, true), (204, true), (299, true), (300, false), (404, false)] {
        assert_eq!(Response::from_cdp_event(&response_event(n(code))).unwrap().ok(), ok, "{code}");
    }
}

#[test]
fn header_lookup_ignores_case() {
    let r = Response::from_cdp_event(&response_event(n(200))).unwrap();
    assert_eq!(r.header("content-type"), Some("text/html"));
    assert_eq!(r.header("CONTENT-TYPE"), Some("text/html"));
    assert_eq!(r.header("Content-Type"), Some("text/html"));
    assert_eq!(r.header("content-length"), None);
    assert_eq!(r.headers(), &pairs(&[("Content-Type", "text/html")]));
}

#[test]
fn body_text_reads_plain_and_base64_bodies() {
    assert_eq!(body_text(&obj(vec![("body", s("hello")), ("base64Encoded", Json::Bool(false))])).unwrap(), "hello");
    assert_eq!(body_text(&obj(vec![("body", s("aGVsbG8="))])).unwrap(), "aGVsbG8=");
    assert_eq!(body_text(&obj(vec![("body", s("aGVsbG8=")), ("base64Encoded", Json::Bool(true))])).unwrap(), "hello");
    assert_eq!(body_text(&obj(vec![])).unwrap(), "");
    match body_text(&obj(vec![("body", s("!!!")), ("base64Encoded", Json::Bool(true))])) {
        Err(PlaywLeftError::Internal(m)) => assert!(m.starts_with("Failed to decode base64 body: "), "{m}"),
        other => panic!("unexpected {other:?}"),
    }
    match body_text(&obj(vec![("body", s("/w==")), ("base64Encoded", Json::Bool(true))])) {
        Err(PlaywLeftError::Internal(m)) => assert!(m.starts_with("Response body is not valid UTF-8: "), "{m}"),
        other => panic!("unexpected {other:?}"),
    }
}

#[test]
fn body_bytes_reads_plain_and_base64_bodies() {
    assert_eq!(body_bytes(&obj(vec![("body", s("hé"))])).unwrap(), "hé".as_bytes().to_vec());
    assert_eq!(body_bytes(&obj(vec![("body", s("/w==")), ("base64Encoded", Json::Bool(true))])).unwrap(), vec![255u8]);
    assert!(matches!(
        body_bytes(&obj(vec![("body", s("a")), ("base64Encoded", Json::Bool(true))])),
        Err(PlaywLeftError::Internal(_))
    ));
}

fn route() -> Route {
    Route::new("I1".to_string(), "https://example.com/api".to_string(), "GET".to_string(), pairs(&[("A", "b")]))
}

#[test]
fn route_accessors() {
    let r = route();
    assert_eq!(r.request_id(), "I1");
    assert_eq!(r.url(), "https://example.com/api");
    assert_eq!(r.method(), "GET");
    assert_eq!(r.headers(), &pairs(&[("A", "b")]));
}

#[test]
fn route_continue_params() {
    let r = route();
    assert_eq!(r.continue_params(), obj(vec![("requestId", s("I1"))]));
    assert_eq!(r.continue_with_params(None, None, None, None), obj(vec![("requestId", s("I1"))]));
    let h = pairs(&[("X-Test", "1")]);
    assert_eq!(
        r.continue_with_params(Some("https://other/"), Some("POST"), Some(&h), Some("hello")),
        obj(vec![
            ("requestId", s("I1")),
            ("url", s("https://other/")),
            ("method", s("POST")),
            ("headers", Json::Array(vec![obj(vec![("name", s("X-Test")), ("value", s("1"))])])),
            ("postData", s("aGVsbG8=")),
        ])
    );
    assert_eq!(
        r.continue_with_params(None, Some("PUT"), None, None),
        obj(vec![("requestId", s("I1")), ("method", s("PUT"))])
    );
}

#[test]
fn route_fulfill_and_abort_params() {
    let r = route();
    assert_eq!(
        r.fulfill_params(200, None, "hi"),
        obj(vec![("requestId", s("I1")), ("responseCode", n(200)), ("body", s("aGk="))])
    );
    let h = pairs(&[("Content-Type", "text/plain")]);
    assert_eq!(
        r.fulfill_params(404, Some(&h), ""),
        obj(vec![
            ("requestId", s("I1")),
            ("responseCode", n(404)),
            ("body", s("")),
            ("responseHeaders", Json::Array(vec![obj(vec![("name", s("Content-Type")), ("value", s("text/plain"))])])),
        ])
    );
    assert_eq!(
        r.abort_params(None),
        obj(vec![("requestId", s("I1")), ("errorReason", s("BlockedByClient"))])
    );
    assert_eq!(r.abort_params(Some("Failed")), obj(vec![("requestId", s("I1")), ("errorReason", s("Failed"))]));
}

#[test]
fn fulfilled_text_reads_back_through_body_text() {
    let r = route();
    for text in ["", "hello", "héllo wörld", "line\nbreak"] {
        let p = r.fulfill_params(200, None, text);
        let body = p.get("body").unwrap().duplicate();
        let reply = obj(vec![("body", body), ("base64Encoded", Json::Bool(true))]);
        assert_eq!(body_text(&reply).unwrap(), text);
    }
}
