use playleft_core::error::PlaywLeftError;
use playleft_core::json::{Json, JsonNumber};
use playleft_core::protocol::session::{disable_method, enable_method, CdpSession};
use playleft_core::protocol::transport::{
    command_result, command_timeout_message, event_timeout_message, is_event_named, Routed, TransportState,
};
use playleft_core::protocol::types::{CdpError, CdpResponse, RemoteObject};

fn obj(fields: Vec<(&str, Json)>) -> Json {
    Json::Object(fields.into_iter().map(|(k, v)| (k.to_string(), v)).collect())
}

fn s(v: &str) -> Json {
    Json::Str(v.to_string())
}

fn reply(id: u64, result: Json) -> CdpResponse {
    CdpResponse { id: Some(id), result: Some(result), error: None, session_id: None, method: None, params: None }
}

fn event(method: &str, session_id: Option<&str>) -> CdpResponse {
    CdpResponse {
        id: None,
        result: None,
        error: None,
        session_id: session_id.map(|x| x.to_string()),
        method: Some(method.to_string()),
        params: Some(obj(vec![])),
    }
}

#[test]
fn commands_get_ids_from_one_upwards() {
    let mut t = TransportState::new();
    assert!(t.is_connected());
    let a = t.begin_command("Page.enable", obj(vec![]), None).unwrap();
    let b = t.begin_command("Runtime.evaluate", obj(vec![("expression", s("1"))]), Some("S".to_string())).unwrap();
    assert_eq!(a.id, 1);
    assert_eq!(b.id, 2);
    assert_eq!(a.method, "Page.enable");
    assert_eq!(b.session_id.as_deref(), Some("S"));
    assert_eq!(b.params, obj(vec![("expression", s("1"))]));
    assert!(t.is_pending(1));
    assert!(t.is_pending(2));
    assert!(!t.is_pending(3));
}

#[test]
fn a_reply_reaches_its_waiter_once() {
    let mut t = TransportState::new();
    let c = t.begin_command("Browser.getVersion", obj(vec![]), None).unwrap();
    match t.route(reply(c.id, obj(vec![("product", s("Chrome"))]))) {
        Routed::Reply(id, m) => {
            assert_eq!(id, c.id);
            assert_eq!(m.result, Some(obj(vec![("product", s("Chrome"))])));
        }
        other => panic!("unexpected {other:?}"),
    }
    assert!(!t.is_pending(c.id));
    assert!(matches!(t.route(reply(c.id, Json::Null)), Routed::Unclaimed(1)));
}

#[test]
fn events_and_stray_messages_are_told_apart() {
    let mut t = TransportState::new();
    let c = t.begin_command("Page.enable", obj(vec![]), None).unwrap();
    let e = event("Page.loadEventFired", None);
    assert!(e.is_event());
    assert!(!e.is_response());
    assert!(matches!(t.route(e), Routed::Event(ref m) if m.method.as_deref() == Some("Page.loadEventFired")));
    let stray = CdpResponse { id: None, result: None, error: None, session_id: None, method: None, params: None };
    assert!(!stray.is_event());
    assert!(matches!(t.route(stray), Routed::Dropped));
    assert!(matches!(t.route(reply(99, Json::Null)), Routed::Unclaimed(99)));
    assert!(t.is_pending(c.id));
    assert!(t.is_connected());
}

#[test]
fn shutting_down_answers_every_waiter_with_connection_closed() {
    let mut t = TransportState::new();
    t.begin_command("A.a", obj(vec![]), None).unwrap();
    t.begin_command("B.b", obj(vec![]), None).unwrap();
    t.begin_command("C.c", obj(vec![]), None).unwrap();
    t.route(reply(2, Json::Null));
    let replies = t.shut_down();
    let mut ids: Vec<u64> = replies.iter().map(|r| r.id.unwrap()).collect();
    ids.sort();
    assert_eq!(ids, vec![1, 3]);
    for r in &replies {
        let e = r.error.as_ref().unwrap();
        assert_eq!(e.code, -1);
        assert_eq!(e.message, "Connection closed");
        assert!(r.result.is_none());
    }
    assert!(!t.is_connected());
    assert!(!t.is_pending(1));
    assert!(matches!(t.begin_command("D.d", obj(vec![]), None), Err(PlaywLeftError::SessionClosed)));
}

#[test]
fn a_closed_transport_refuses_commands() {
    let mut t = TransportState::new();
    t.begin_command("A.a", obj(vec![]), None).unwrap();
    t.close();
    assert!(!t.is_connected());
    assert!(t.is_pending(1));
    assert!(matches!(t.begin_command("B.b", obj(vec![]), None), Err(PlaywLeftError::SessionClosed)));
}

#[test]
fn command_result_maps_errors_and_missing_results() {
    let err = CdpResponse {
        id: Some(1),
        result: None,
        error: Some(CdpError { code: -32000, message: "Cannot navigate".to_string(), data: None }),
        session_id: None,
        method: None,
        params: None,
    };
    match command_result(err) {
        Err(PlaywLeftError::ProtocolError { code, message }) => {
            assert_eq!(code, -32000);
            assert_eq!(message, "Cannot navigate");
        }
        other => panic!("unexpected {other:?}"),
    }
    let empty = CdpResponse { id: Some(2), result: None, error: None, session_id: None, method: None, params: None };
    assert_eq!(command_result(empty).unwrap(), Json::Null);
    assert_eq!(command_result(reply(3, s("x"))).unwrap(), s("x"));
}

#[test]
fn event_waiters_match_by_name_and_session() {
    let root = CdpSession::new_root();
    let page = CdpSession::new_target("S1".to_string(), "T1".to_string());
    assert_eq!(root.session_id(), None);
    assert_eq!(root.target_id(), None);
    assert_eq!(page.session_id(), Some("S1"));
    assert_eq!(page.target_id(), Some("T1"));
    assert_eq!(page.command_session_id(), Some("S1".to_string()));
    let on_page = event("Page.loadEventFired", Some("S1"));
    let on_root = event("Page.loadEventFired", None);
    assert!(page.accepts_event(&on_page, "Page.loadEventFired"));
    assert!(!page.accepts_event(&on_page, "Page.frameNavigated"));
    assert!(!page.accepts_event(&on_root, "Page.loadEventFired"));
    assert!(root.accepts_event(&on_root, "Page.loadEventFired"));
    assert!(!root.accepts_event(&on_page, "Page.loadEventFired"));
    assert!(is_event_named(&on_page, "Page.loadEventFired"));
    assert!(!is_event_named(&reply(1, Json::Null), "Page.loadEventFired"));
}

#[test]
fn attaching_and_detaching_sessions() {
    assert_eq!(
        CdpSession::attach_params("T9"),
        obj(vec![("targetId", s("T9")), ("flatten", Json::Bool(true))])
    );
    let ok = CdpSession::from_attach_reply(&obj(vec![("sessionId", s("S9"))]), "T9").unwrap();
    assert_eq!(ok.session_id(), Some("S9"));
    assert_eq!(ok.target_id(), Some("T9"));
    assert_eq!(ok.detach_params(), Some(obj(vec![("sessionId", s("S9"))])));
    match CdpSession::from_attach_reply(&obj(vec![]), "T9") {
        Err(PlaywLeftError::ProtocolError { code, message }) => {
            assert_eq!(code, -1);
            assert_eq!(message, "No sessionId in attachToTarget response");
        }
        other => panic!("unexpected {other:?}"),
    }
    assert_eq!(CdpSession::new_root().detach_params(), None);
    assert_eq!(enable_method("Network"), "Network.enable");
    assert_eq!(disable_method("Fetch"), "Fetch.disable");
}

#[test]
fn remote_objects_turn_into_json_values() {
    let base = RemoteObject {
        object_type: "number".to_string(),
        subtype: None,
        class_name: None,
        value: None,
        description: None,
        object_id: None,
        unserializable_value: None,
    };
    let with_value = RemoteObject { value: Some(Json::Number(JsonNumber::PosInt(5))), ..base.clone() };
    assert_eq!(with_value.into_value(), Json::Number(JsonNumber::PosInt(5)));
    for (text, expected) in [
        ("NaN", Json::Null),
        ("Infinity", Json::Null),
        ("-Infinity", Json::Null),
        ("-0", Json::Number(JsonNumber::PosInt(0))),
        ("123n", s("123n")),
    ] {
        let o = RemoteObject { unserializable_value: Some(text.to_string()), ..base.clone() };
        assert_eq!(o.into_value(), expected, "{text}");
    }
    assert_eq!(base.into_value(), Json::Null);
}

#[test]
fn timeout_messages() {
    assert_eq!(command_timeout_message("Page.navigate", 5000), "Page.navigate timed out after 5000ms");
    assert_eq!(command_timeout_message("X.y", 0), "X.y timed out after 0ms");
    assert_eq!(event_timeout_message("Page.loadEventFired"), "Waiting for Page.loadEventFired timed out");
}
