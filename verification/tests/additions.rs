use playleft_core::browser::context::{extra_headers_params, geolocation_params};
use playleft_core::browser::launcher::{
    executable_probes, launch_timeout, search_start, search_step, stderr_unavailable, HostOs, Probe, SearchStep,
};
use playleft_core::error::PlaywLeftError;
use playleft_core::json::{Json, JsonNumber};
use playleft_core::page::frame::{array_handle, selector_poll_interval_ms, selector_wait_step};
use playleft_core::page::page::{
    accessibility_tree_params, device_metrics_params, mouse_click_params, mouse_move_params, page_load_timeout,
    set_content_timeout,
};
use playleft_core::protocol::transport::{command_frame, TransportState};
use playleft_core::protocol::types::{CdpCommand, CdpResponse, RemoteObject};

fn obj(fields: Vec<(&str, Json)>) -> Json {
    Json::Object(fields.into_iter().map(|(k, v)| (k.to_string(), v)).collect())
}

fn s(v: &str) -> Json {
    Json::Str(v.to_string())
}

fn n(v: u64) -> Json {
    Json::Number(JsonNumber::PosInt(v))
}

fn f(v: f64) -> Json {
    Json::Number(JsonNumber::Float(v.to_bits()))
}

#[test]
fn the_kth_command_gets_id_k_whatever_arrives_between() {
    let mut t = TransportState::new();
    let mut ids = Vec::new();
    for k in 1..=6u64 {
        let c = t.begin_command("Runtime.evaluate", Json::Null, None).unwrap();
        ids.push(c.id);
        if k % 2 == 0 {
            t.route(CdpResponse { id: Some(c.id), result: None, error: None, session_id: None, method: None, params: None });
        }
        t.route(CdpResponse {
            id: None,
            result: None,
            error: None,
            session_id: None,
            method: Some("Page.loadEventFired".to_string()),
            params: None,
        });
    }
    assert_eq!(ids, vec![1, 2, 3, 4, 5, 6]);
}

#[test]
fn command_frames_omit_null_params_and_missing_sessions() {
    let bare = CdpCommand { id: 7, method: "Page.reload".to_string(), params: Json::Null, session_id: None };
    assert_eq!(command_frame(bare), obj(vec![("id", n(7)), ("method", s("Page.reload"))]));
    let full = CdpCommand {
        id: 8,
        method: "Page.navigate".to_string(),
        params: obj(vec![("url", s("https://a/"))]),
        session_id: Some("S1".to_string()),
    };
    assert_eq!(
        command_frame(full),
        obj(vec![
            ("id", n(8)),
            ("method", s("Page.navigate")),
            ("params", obj(vec![("url", s("https://a/"))])),
            ("sessionId", s("S1")),
        ])
    );
    let empty_params = CdpCommand { id: 9, method: "A.b".to_string(), params: obj(vec![]), session_id: None };
    assert_eq!(command_frame(empty_params), obj(vec![("id", n(9)), ("method", s("A.b")), ("params", obj(vec![]))]));
}

#[test]
fn array_handles_and_selector_waits() {
    let remote = RemoteObject {
        object_type: "object".to_string(),
        subtype: Some("array".to_string()),
        class_name: None,
        value: None,
        description: None,
        object_id: Some("A1".to_string()),
        unserializable_value: None,
    };
    assert_eq!(array_handle(&remote), Some("A1".to_string()));
    assert_eq!(array_handle(&RemoteObject { object_id: None, ..remote }), None);
    assert_eq!(selector_poll_interval_ms(), 100);
    assert_eq!(selector_wait_step(Some("O".to_string()), true, "#x", 5).unwrap().unwrap(), "O");
    assert!(selector_wait_step(None, false, "#x", 5).is_none());
    match selector_wait_step(None, true, "#x", 5) {
        Some(Err(PlaywLeftError::Timeout(m))) => assert_eq!(m, "Selector '#x' not found within 5ms"),
        other => panic!("unexpected {other:?}"),
    }
}

#[test]
fn float_bearing_messages() {
    assert_eq!(
        mouse_click_params(10.5f64.to_bits(), 20.0f64.to_bits(), 2),
        vec![
            obj(vec![("type", s("mousePressed")), ("x", f(10.5)), ("y", f(20.0)), ("button", s("left")), ("clickCount", n(2))]),
            obj(vec![("type", s("mouseReleased")), ("x", f(10.5)), ("y", f(20.0)), ("button", s("left")), ("clickCount", n(2))]),
        ]
    );
    assert_eq!(mouse_move_params(1.0f64.to_bits(), 2.0f64.to_bits()), obj(vec![("type", s("mouseMoved")), ("x", f(1.0)), ("y", f(2.0))]));
    assert_eq!(
        device_metrics_params(1280, 720, 1.0f64.to_bits(), false),
        obj(vec![("width", n(1280)), ("height", n(720)), ("deviceScaleFactor", f(1.0)), ("mobile", Json::Bool(false))])
    );
    assert_eq!(
        geolocation_params(48.5f64.to_bits(), (-2.25f64).to_bits(), None),
        obj(vec![("latitude", f(48.5)), ("longitude", f(-2.25)), ("accuracy", f(0.0))])
    );
    assert_eq!(
        geolocation_params(1.0f64.to_bits(), 2.0f64.to_bits(), Some(3.0f64.to_bits())),
        obj(vec![("latitude", f(1.0)), ("longitude", f(2.0)), ("accuracy", f(3.0))])
    );
    assert_eq!(accessibility_tree_params(), obj(vec![]));
}

#[test]
fn extra_headers_become_an_object() {
    let h = vec![("X-A".to_string(), "1".to_string()), ("X-B".to_string(), "2".to_string())];
    assert_eq!(extra_headers_params(&h), obj(vec![("headers", obj(vec![("X-A", s("1")), ("X-B", s("2"))]))]));
    assert_eq!(extra_headers_params(&Vec::new()), obj(vec![("headers", obj(vec![]))]));
}

#[test]
fn executable_probes_in_order() {
    let linux = executable_probes(HostOs::Other, &vec!["C:\\PF".to_string()]);
    assert_eq!(
        linux,
        ["google-chrome", "google-chrome-stable", "chromium", "chromium-browser"]
            .iter()
            .map(|x| Probe::OnPath(x.to_string()))
            .collect::<Vec<_>>()
    );
    let dirs = vec!["C:\\PF".to_string(), String::new(), "D:\\L".to_string()];
    let win = executable_probes(HostOs::Windows, &dirs);
    assert_eq!(win.len(), 3 + 3 + 3);
    assert_eq!(win[0], Probe::OnPath("chrome.exe".to_string()));
    assert_eq!(win[3], Probe::Installed("C:\\PF".to_string(), "Google\\Chrome\\Application\\chrome.exe".to_string()));
    assert_eq!(win[5], Probe::Installed("C:\\PF".to_string(), "Chromium\\Application\\chrome.exe".to_string()));
    assert_eq!(win[6], Probe::Installed("D:\\L".to_string(), "Google\\Chrome\\Application\\chrome.exe".to_string()));
}

#[test]
fn executable_search_steps() {
    assert!(matches!(search_start(3), SearchStep::Try(0)));
    assert!(matches!(search_start(0), SearchStep::NotFound(PlaywLeftError::BrowserError(_))));
    assert!(matches!(search_step(3, 0, false), SearchStep::Try(1)));
    assert!(matches!(search_step(3, 1, true), SearchStep::Use(1)));
    match search_step(3, 2, false) {
        SearchStep::NotFound(PlaywLeftError::BrowserError(m)) => {
            assert!(m.starts_with("Could not find a Chromium-based browser."))
        }
        other => panic!("unexpected {other:?}"),
    }
}

#[test]
fn timeout_and_launch_errors() {
    assert!(matches!(launch_timeout(), PlaywLeftError::Timeout(ref m) if m == "Browser launch timed out"));
    assert!(matches!(stderr_unavailable(), PlaywLeftError::BrowserError(ref m) if m == "Cannot read browser stderr"));
    assert!(matches!(page_load_timeout(), PlaywLeftError::Timeout(ref m) if m == "Page load timed out"));
    assert!(matches!(set_content_timeout(), PlaywLeftError::Timeout(ref m) if m == "set_content load timed out"));
}
