use playleft_core::element::{
    attribute_function, attribute_value, child_query_all_function, child_query_function, flag_or, toggle_needed,
    AttributeValue, Element,
};
use playleft_core::error::PlaywLeftError;
use playleft_core::json::{Json, JsonNumber};
use playleft_core::page::frame::{
    call_arguments, call_error, content_from, element_handle, evaluate_params, evaluation_error, function_params,
    indexed_elements, properties_params, query_all_expression, query_expression, query_params, remote_part,
    selector_timeout_message, text_or_empty, Frame,
};
use playleft_core::page::page::{
    close_params, history_back_entry, history_entry_params, history_forward_entry, history_forward_overflows,
    init_script_params, key_press_params, main_frame_of, navigate_params, navigation_outcome, page_domains,
    parse_load_state, set_content_params, typing_params, validate_url, LoadState,
};
use playleft_core::protocol::types::RemoteObject;

fn obj(fields: Vec<(&str, Json)>) -> Json {
    Json::Object(fields.into_iter().map(|(k, v)| (k.to_string(), v)).collect())
}

fn s(v: &str) -> Json {
    Json::Str(v.to_string())
}

fn n(v: u64) -> Json {
    Json::Number(JsonNumber::PosInt(v))
}

fn neg(v: i64) -> Json {
    Json::Number(JsonNumber::NegInt(v))
}

#[test]
fn urls_are_checked_before_navigation() {
    assert!(validate_url("https://example.com/path?q=1").is_ok());
    assert!(validate_url("about:blank").is_ok());
    assert!(validate_url("data:text/html,<p>hi</p>").is_ok());
    match validate_url("not a url") {
        Err(PlaywLeftError::NavigationError(m)) => {
            assert_eq!(m, "Invalid URL: relative URL without a base");
        }
        other => panic!("unexpected {other:?}"),
    }
    match validate_url("http://[::1") {
        Err(PlaywLeftError::NavigationError(m)) => assert_eq!(m, "Invalid URL: invalid IPv6 address"),
        other => panic!("unexpected {other:?}"),
    }
}

#[test]
fn navigation_replies_with_error_text_fail() {
    assert!(navigation_outcome(&obj(vec![("frameId", s("F"))])).is_ok());
    assert!(navigation_outcome(&obj(vec![("errorText", s(""))])).is_ok());
    assert!(navigation_outcome(&obj(vec![("errorText", n(3))])).is_ok());
    match navigation_outcome(&obj(vec![("errorText", s("net::ERR_NAME_NOT_RESOLVED"))])) {
        Err(PlaywLeftError::NavigationError(m)) => assert_eq!(m, "net::ERR_NAME_NOT_RESOLVED"),
        other => panic!("unexpected {other:?}"),
    }
    assert_eq!(navigate_params("https://a/"), obj(vec![("url", s("https://a/"))]));
}

#[test]
fn page_setup_values() {
    assert_eq!(page_domains(), vec!["Page", "Runtime", "Network", "DOM"]);
    let f = main_frame_of(&obj(vec![("frameTree", obj(vec![("frame", obj(vec![("id", s("F1")), ("url", s("https://x/"))]))]))]));
    assert_eq!(f.id(), "F1");
    assert_eq!(f.url(), "https://x/");
    assert_eq!(f.name(), None);
    assert!(f.is_main_frame());
    let d = main_frame_of(&Json::Null);
    assert_eq!(d.id(), "main");
    assert_eq!(d.url(), "about:blank");
    assert_eq!(set_content_params("F1", "<b>x</b>"), obj(vec![("frameId", s("F1")), ("html", s("<b>x</b>"))]));
    assert_eq!(init_script_params("1+1"), obj(vec![("source", s("1+1"))]));
    assert_eq!(close_params("T1"), obj(vec![("targetId", s("T1"))]));
}

fn history(index: Json, ids: &[i64]) -> Json {
    obj(vec![
        ("currentIndex", index),
        ("entries", Json::Array(ids.iter().map(|i| obj(vec![("id", Json::signed(*i))])).collect())),
    ])
}

#[test]
fn history_back_and_forward_pick_neighbouring_entries() {
    let h = history(n(1), &[10, 11, 12]);
    assert_eq!(history_back_entry(&h), Some(10));
    assert!(!history_forward_overflows(&h));
    assert_eq!(history_forward_entry(&h), Some(12));
    let first = history(n(0), &[10, 11]);
    assert_eq!(history_back_entry(&first), None);
    assert_eq!(history_forward_entry(&first), Some(11));
    let last = history(n(1), &[10, 11]);
    assert_eq!(history_back_entry(&last), Some(10));
    assert_eq!(history_forward_entry(&last), None);
    let past_end = history(n(5), &[10, 11]);
    assert_eq!(history_back_entry(&past_end), None);
    assert_eq!(history_forward_entry(&past_end), None);
    let negative = history(neg(-3), &[10, 11]);
    assert_eq!(history_back_entry(&negative), None);
    assert_eq!(history_forward_entry(&negative), None);
    assert!(history_forward_overflows(&history(neg(-1), &[10])));
    let missing_index = obj(vec![("entries", Json::Array(vec![obj(vec![]), obj(vec![("id", n(4))])]))]);
    assert_eq!(history_forward_entry(&missing_index), Some(4));
    let no_id = history(n(1), &[10, 11]);
    let no_id = match no_id {
        Json::Object(mut f) => {
            f[1].1 = Json::Array(vec![obj(vec![]), obj(vec![])]);
            Json::Object(f)
        }
        other => other,
    };
    assert_eq!(history_back_entry(&no_id), Some(0));
    assert_eq!(history_entry_params(7), obj(vec![("entryId", n(7))]));
    assert_eq!(history_entry_params(-2), obj(vec![("entryId", neg(-2))]));
}

#[test]
fn load_states_by_name() {
    assert_eq!(parse_load_state("load").unwrap(), LoadState::Load);
    assert_eq!(parse_load_state("DOMContentLoaded").unwrap(), LoadState::DomContentLoaded);
    assert_eq!(parse_load_state("domcontentloaded").unwrap(), LoadState::DomContentLoaded);
    assert_eq!(parse_load_state("networkIdle").unwrap(), LoadState::NetworkIdle);
    assert_eq!(parse_load_state("networkidle").unwrap(), LoadState::NetworkIdle);
    match parse_load_state("idle") {
        Err(PlaywLeftError::Internal(m)) => assert_eq!(m, "Unknown load state: idle"),
        other => panic!("unexpected {other:?}"),
    }
    assert_eq!(LoadState::Load.event_method(), "Page.loadEventFired");
    assert_eq!(LoadState::NetworkIdle.event_method(), "Page.loadEventFired");
    assert_eq!(LoadState::DomContentLoaded.event_method(), "Page.domContentEventFired");
    assert_eq!(LoadState::NetworkIdle.settle_ms(), 500);
    assert_eq!(LoadState::Load.settle_ms(), 0);
}

#[test]
fn typing_sends_key_down_and_up_per_character() {
    let events = typing_params("hé");
    assert_eq!(
        events,
        vec![
            obj(vec![("type", s("keyDown")), ("text", s("h"))]),
            obj(vec![("type", s("keyUp")), ("text", s("h"))]),
            obj(vec![("type", s("keyDown")), ("text", s("é"))]),
            obj(vec![("type", s("keyUp")), ("text", s("é"))]),
        ]
    );
    assert!(typing_params("").is_empty());
    let mut split = typing_params("ab");
    split.extend(typing_params("cd"));
    assert_eq!(split, typing_params("abcd"));
    assert_eq!(typing_params("hello").len(), 10);
    assert_eq!(
        key_press_params("Enter"),
        vec![
            obj(vec![("type", s("keyDown")), ("key", s("Enter"))]),
            obj(vec![("type", s("keyUp")), ("key", s("Enter"))]),
        ]
    );
}

#[test]
fn evaluation_requests() {
    assert_eq!(
        evaluate_params("document.title"),
        obj(vec![("expression", s("document.title")), ("returnByValue", Json::Bool(true)), ("awaitPromise", Json::Bool(true))])
    );
    assert_eq!(call_arguments(vec![n(1), s("a")]), Json::Array(vec![obj(vec![("value", n(1))]), obj(vec![("value", s("a"))])]));
    assert_eq!(
        function_params("(a) => a", vec![Json::Bool(true)]),
        obj(vec![
            ("functionDeclaration", s("(a) => a")),
            ("arguments", Json::Array(vec![obj(vec![("value", Json::Bool(true))])])),
            ("returnByValue", Json::Bool(true)),
            ("awaitPromise", Json::Bool(true)),
            ("executionContextId", n(1)),
        ])
    );
}

#[test]
fn evaluation_errors_pick_the_best_message() {
    assert!(evaluation_error(&obj(vec![("result", obj(vec![]))])).is_none());
    let with_desc = obj(vec![(
        "exceptionDetails",
        obj(vec![("text", s("Uncaught")), ("exception", obj(vec![("description", s("ReferenceError: x"))]))]),
    )]);
    assert!(matches!(evaluation_error(&with_desc), Some(PlaywLeftError::EvaluationError(ref m)) if m == "ReferenceError: x"));
    assert!(matches!(call_error(&with_desc), Some(PlaywLeftError::EvaluationError(ref m)) if m == "Uncaught"));
    let text_only = obj(vec![("exceptionDetails", obj(vec![("text", s("Uncaught")), ("exception", obj(vec![]))]))]);
    assert!(matches!(evaluation_error(&text_only), Some(PlaywLeftError::EvaluationError(ref m)) if m == "Uncaught"));
    let nothing = obj(vec![("exceptionDetails", obj(vec![]))]);
    assert!(matches!(evaluation_error(&nothing), Some(PlaywLeftError::EvaluationError(ref m)) if m == "Unknown error"));
    assert!(matches!(call_error(&nothing), Some(PlaywLeftError::EvaluationError(ref m)) if m == "Unknown error"));
    assert!(call_error(&obj(vec![])).is_none());
}

#[test]
fn evaluation_values() {
    assert_eq!(remote_part(&obj(vec![("result", obj(vec![("type", s("string"))]))])), obj(vec![("type", s("string"))]));
    assert_eq!(remote_part(&obj(vec![])), Json::Null);
    assert_eq!(text_or_empty(&s("Title")), "Title");
    assert_eq!(text_or_empty(&n(1)), "");
    assert_eq!(content_from(&s("<html></html>")).unwrap(), "<html></html>");
    match content_from(&Json::Null) {
        Err(PlaywLeftError::EvaluationError(m)) => assert_eq!(m, "Failed to get page content"),
        other => panic!("unexpected {other:?}"),
    }
}

#[test]
fn queries_quote_their_selectors() {
    assert_eq!(query_expression("div.item"), "document.querySelector(\"div.item\")");
    assert_eq!(query_expression("a[href=\"x\"]"), "document.querySelector(\"a[href=\\\"x\\\"]\")");
    assert_eq!(query_all_expression("li"), "Array.from(document.querySelectorAll(\"li\"))");
    assert_eq!(query_params("1"), obj(vec![("expression", s("1")), ("returnByValue", Json::Bool(false))]));
    assert_eq!(properties_params("O1"), obj(vec![("objectId", s("O1")), ("ownProperties", Json::Bool(true))]));
    assert_eq!(selector_timeout_message("#x", 30000), "Selector '#x' not found within 30000ms");
}

fn remote(subtype: Option<&str>, object_id: Option<&str>) -> RemoteObject {
    RemoteObject {
        object_type: "object".to_string(),
        subtype: subtype.map(|x| x.to_string()),
        class_name: None,
        value: None,
        description: None,
        object_id: object_id.map(|x| x.to_string()),
        unserializable_value: None,
    }
}

#[test]
fn element_handles_from_query_results() {
    assert_eq!(element_handle(&remote(Some("node"), Some("O1"))), Some("O1".to_string()));
    assert_eq!(element_handle(&remote(None, Some("O2"))), Some("O2".to_string()));
    assert_eq!(element_handle(&remote(Some("null"), Some("O3"))), None);
    assert_eq!(element_handle(&remote(Some("node"), None)), None);
}

fn prop(name: &str, object_id: Option<&str>) -> Json {
    let value = match object_id {
        Some(o) => obj(vec![("type", s("object")), ("objectId", s(o))]),
        None => obj(vec![("type", s("number")), ("value", n(2))]),
    };
    obj(vec![("name", s(name)), ("value", value)])
}

#[test]
fn indexed_elements_keep_index_properties_only() {
    let props = obj(vec![(
        "result",
        Json::Array(vec![prop("0", Some("A")), prop("1", Some("B")), prop("length", None), prop("__proto__", Some("P"))]),
    )]);
    assert_eq!(
        indexed_elements("li", &props),
        vec![("A".to_string(), "li[0]".to_string()), ("B".to_string(), "li[1]".to_string())]
    );
    assert!(indexed_elements("li", &obj(vec![])).is_empty());
}

#[test]
fn element_requests() {
    let e = Element::new("O1".to_string(), "button".to_string());
    assert_eq!(e.object_id(), "O1");
    assert_eq!(e.selector(), "button");
    assert_eq!(
        e.call_params("function() { this.click(); }", vec![]),
        obj(vec![
            ("functionDeclaration", s("function() { this.click(); }")),
            ("objectId", s("O1")),
            ("arguments", Json::Array(vec![])),
            ("returnByValue", Json::Bool(true)),
            ("awaitPromise", Json::Bool(true)),
        ])
    );
    assert_eq!(
        e.sub_query_params("f"),
        obj(vec![("functionDeclaration", s("f")), ("objectId", s("O1")), ("returnByValue", Json::Bool(false))])
    );
    assert_eq!(attribute_function("href"), "function() { return this.getAttribute(\"href\"); }");
    assert_eq!(child_query_function("span"), "function() { return this.querySelector(\"span\"); }");
    assert_eq!(
        child_query_all_function("span"),
        "function() { return Array.from(this.querySelectorAll(\"span\")); }"
    );
}

#[test]
fn element_values() {
    assert_eq!(attribute_value(Json::Null), AttributeValue::Missing);
    assert_eq!(attribute_value(s("x")), AttributeValue::Text("x".to_string()));
    assert_eq!(attribute_value(n(3)), AttributeValue::Other(n(3)));
    assert!(flag_or(&Json::Bool(true), false));
    assert!(!flag_or(&Json::Bool(false), true));
    assert!(flag_or(&Json::Null, true));
    assert!(toggle_needed(false, true));
    assert!(!toggle_needed(true, true));
    assert!(toggle_needed(true, false));
    assert!(!toggle_needed(false, false));
    let f = Frame::new("F2".to_string(), "u".to_string(), Some("child".to_string()), Some("F1".to_string()));
    assert_eq!(f.name(), Some("child"));
    assert!(!f.is_main_frame());
}

#[test]
fn back_then_forward_returns_to_the_current_entry() {
    let ids = [10, 11, 12, 13];
    for current in 1..ids.len() {
        let back = history_back_entry(&history(n(current as u64), &ids)).unwrap();
        assert_eq!(back, ids[current - 1]);
        let forward = history_forward_entry(&history(n(current as u64 - 1), &ids)).unwrap();
        assert_eq!(forward, ids[current]);
    }
}

#[test]
fn distinct_selectors_give_distinct_queries() {
    let samples = ["a", "a\"", "a\\\"", "\n", "\\n", "\u{1}", "\\u0001", ""];
    for (i, x) in samples.iter().enumerate() {
        for (j, y) in samples.iter().enumerate() {
            assert_eq!(query_expression(x) == query_expression(y), i == j, "{x:?} {y:?}");
        }
    }
}
