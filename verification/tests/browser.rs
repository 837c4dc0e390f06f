use playleft_core::browser::context::{
    context_id_from, context_ids, context_params, cookie_entries, cookie_query_params, create_context_params,
    create_target_params, discover_targets_params, offline_params, pages_in_context, permissions_params,
    set_cookies_params, target_entries, target_id_from,
};
use playleft_core::browser::launcher::{
    browser_not_found, build_chromium_args, devtools_scan_step, chromium_candidates, launch_args, scan_devtools_line, version_endpoint,
    windows_install_locations, ws_url_from_version, BrowserType, DevtoolsLine, HostOs, ProxySettings,
};
use playleft_core::error::PlaywLeftError;
use playleft_core::json::{Json, JsonNumber};
use playleft_core::protocol::types::TargetInfo;
use playleft_core::PlaywLeft;

fn obj(fields: Vec<(&str, Json)>) -> Json {
    Json::Object(fields.into_iter().map(|(k, v)| (k.to_string(), v)).collect())
}

fn s(v: &str) -> Json {
    Json::Str(v.to_string())
}

const FIXED: [&str; 28] = [
    "--disable-gpu",
    "--disable-extensions",
    "--disable-default-apps",
    "--disable-sync",
    "--disable-translate",
    "--disable-background-networking",
    "--disable-background-timer-throttling",
    "--disable-backgrounding-occluded-windows",
    "--disable-breakpad",
    "--disable-component-update",
    "--disable-domain-reliability",
    "--disable-features=TranslateUI",
    "--disable-hang-monitor",
    "--disable-ipc-flooding-protection",
    "--disable-popup-blocking",
    "--disable-prompt-on-repost",
    "--disable-renderer-backgrounding",
    "--disable-client-side-phishing-detection",
    "--enable-features=NetworkService,NetworkServiceInProcess",
    "--force-color-profile=srgb",
    "--metrics-recording-only",
    "--no-first-run",
    "--password-store=basic",
    "--use-mock-keychain",
    "--no-sandbox",
    "--disable-setuid-sandbox",
    "--disable-dev-shm-usage",
    "about:blank",
];

#[test]
fn entry_point_offers_chromium() {
    let p = PlaywLeft::new();
    assert_eq!(p.chromium.name(), "chromium");
    assert_eq!(PlaywLeft::default(), p);
    assert_eq!(BrowserType::chromium().name(), "chromium");
}

#[test]
fn chromium_command_line_headless_without_proxy() {
    let args = build_chromium_args("/tmp/profile", 9222, None, true);
    let mut expected = vec!["--user-data-dir=/tmp/profile".to_string(), "--remote-debugging-port=9222".to_string()];
    expected.extend(FIXED.iter().map(|x| x.to_string()));
    expected.push("--headless=new".to_string());
    assert_eq!(args, expected);
}

#[test]
fn chromium_command_line_with_proxy_and_window() {
    let proxy = ProxySettings {
        server: "http://proxy:8080".to_string(),
        bypass: Some("localhost".to_string()),
        username: None,
        password: None,
    };
    let args = build_chromium_args("d", 0, Some(&proxy), false);
    assert_eq!(args[1], "--remote-debugging-port=0");
    assert_eq!(args.len(), 2 + FIXED.len() + 2);
    assert_eq!(args[args.len() - 2], "--proxy-server=http://proxy:8080");
    assert_eq!(args[args.len() - 1], "--proxy-bypass-list=localhost");
    let plain = ProxySettings { bypass: None, ..proxy };
    let args = build_chromium_args("d", 65535, Some(&plain), true);
    assert_eq!(args[1], "--remote-debugging-port=65535");
    assert_eq!(&args[args.len() - 2..], &["--proxy-server=http://proxy:8080".to_string(), "--headless=new".to_string()]);
    let extra = vec!["--window-size=800,600".to_string(), "--lang=en".to_string()];
    let all = launch_args("d", 65535, Some(&plain), true, &extra);
    assert_eq!(&all[..args.len()], &args[..]);
    assert_eq!(&all[args.len()..], &extra[..]);
}

#[test]
fn executables_to_look_for() {
    assert_eq!(chromium_candidates(HostOs::Windows), vec!["chrome.exe", "chromium.exe", "msedge.exe"]);
    assert_eq!(
        chromium_candidates(HostOs::Other),
        vec!["google-chrome", "google-chrome-stable", "chromium", "chromium-browser"]
    );
    let mac = chromium_candidates(HostOs::MacOs);
    assert_eq!(mac.len(), 5);
    assert_eq!(mac[2], "/Applications/Google Chrome.app/Contents/MacOS/Google Chrome");
    let (vars, paths) = windows_install_locations();
    assert_eq!(vars, vec!["ProgramFiles", "ProgramFiles(x86)", "LocalAppData"]);
    assert_eq!(paths[0], "Google\\Chrome\\Application\\chrome.exe");
    match browser_not_found() {
        PlaywLeftError::BrowserError(m) => assert!(m.starts_with("Could not find a Chromium-based browser.")),
        other => panic!("unexpected {other:?}"),
    }
}

#[test]
fn devtools_lines_are_recognised() {
    assert_eq!(
        scan_devtools_line("DevTools listening on ws://127.0.0.1:9222/devtools/browser/abc  \n"),
        DevtoolsLine::Endpoint("ws://127.0.0.1:9222/devtools/browser/abc".to_string())
    );
    assert_eq!(
        scan_devtools_line("[0101/000000.000:ERROR] Cannot start the browser process: no display"),
        DevtoolsLine::Failure("[0101/000000.000:ERROR] Cannot start the browser process: no display".to_string())
    );
    assert_eq!(scan_devtools_line("some other log line"), DevtoolsLine::Other);
    assert_eq!(scan_devtools_line(""), DevtoolsLine::Other);
}

#[test]
fn version_document_gives_the_websocket_url() {
    assert_eq!(version_endpoint("http://localhost:9222"), "http://localhost:9222/json/version");
    assert_eq!(
        ws_url_from_version(&obj(vec![("Browser", s("Chrome/120")), ("webSocketDebuggerUrl", s("ws://h/devtools/browser/x"))]))
            .unwrap(),
        "ws://h/devtools/browser/x"
    );
    match ws_url_from_version(&obj(vec![("Browser", s("Chrome/120"))])) {
        Err(PlaywLeftError::ConnectionError(m)) => assert_eq!(m, "No webSocketDebuggerUrl in /json/version response"),
        other => panic!("unexpected {other:?}"),
    }
}

fn target(id: &str, kind: &str, context: Option<&str>) -> TargetInfo {
    TargetInfo {
        target_id: id.to_string(),
        target_type: kind.to_string(),
        title: String::new(),
        url: "about:blank".to_string(),
        attached: None,
        browser_context_id: context.map(|x| x.to_string()),
        opener_id: None,
    }
}

#[test]
fn pages_of_a_context_in_order() {
    let targets = vec![
        target("A", "page", Some("C1")),
        target("B", "service_worker", Some("C1")),
        target("C", "page", Some("C2")),
        target("D", "page", None),
        target("E", "page", Some("C1")),
    ];
    let pages = pages_in_context(targets, "C1");
    let ids: Vec<&str> = pages.iter().map(|t| t.target_id.as_str()).collect();
    assert_eq!(ids, vec!["A", "E"]);
}

#[test]
fn context_replies() {
    assert_eq!(context_id_from(&obj(vec![("browserContextId", s("C1"))])).unwrap(), "C1");
    match context_id_from(&obj(vec![])) {
        Err(PlaywLeftError::ProtocolError { code, message }) => {
            assert_eq!(code, -1);
            assert_eq!(message, "No browserContextId in response");
        }
        other => panic!("unexpected {other:?}"),
    }
    assert_eq!(target_id_from(&obj(vec![("targetId", s("T1"))])).unwrap(), "T1");
    match target_id_from(&obj(vec![("targetId", Json::Null)])) {
        Err(PlaywLeftError::ProtocolError { message, .. }) => assert_eq!(message, "No targetId in createTarget response"),
        other => panic!("unexpected {other:?}"),
    }
    assert_eq!(
        context_ids(&obj(vec![("browserContextIds", Json::Array(vec![s("C1"), Json::Null, s("C2")]))])),
        vec!["C1", "C2"]
    );
    assert!(context_ids(&obj(vec![])).is_empty());
    assert_eq!(target_entries(&obj(vec![("targetInfos", Json::Array(vec![obj(vec![])]))])), vec![obj(vec![])]);
    assert!(cookie_entries(&obj(vec![("cookies", s("x"))])).is_empty());
}

#[test]
fn context_requests() {
    assert_eq!(discover_targets_params(), obj(vec![("discover", Json::Bool(true))]));
    assert_eq!(create_context_params(), obj(vec![("disposeOnDetach", Json::Bool(true))]));
    assert_eq!(
        create_target_params("C1"),
        obj(vec![("url", s("about:blank")), ("browserContextId", s("C1"))])
    );
    assert_eq!(context_params("C1"), obj(vec![("browserContextId", s("C1"))]));
    assert_eq!(cookie_query_params("C1", None), obj(vec![("browserContextId", s("C1"))]));
    let urls = vec!["https://a/".to_string()];
    assert_eq!(
        cookie_query_params("C1", Some(&urls)),
        obj(vec![("browserContextId", s("C1")), ("urls", Json::Array(vec![s("https://a/")]))])
    );
    assert_eq!(
        set_cookies_params(vec![obj(vec![("name", s("n"))])], "C1"),
        obj(vec![("cookies", Json::Array(vec![obj(vec![("name", s("n"))])])), ("browserContextId", s("C1"))])
    );
    let perms = vec!["geolocation".to_string()];
    assert_eq!(
        permissions_params(&perms, "C1", None),
        obj(vec![("permissions", Json::Array(vec![s("geolocation")])), ("browserContextId", s("C1"))])
    );
    assert_eq!(
        permissions_params(&perms, "C1", Some("https://a")),
        obj(vec![
            ("permissions", Json::Array(vec![s("geolocation")])),
            ("browserContextId", s("C1")),
            ("origin", s("https://a")),
        ])
    );
    assert_eq!(
        offline_params(true),
        obj(vec![
            ("offline", Json::Bool(true)),
            ("latency", Json::Number(JsonNumber::PosInt(0))),
            ("downloadThroughput", Json::Number(JsonNumber::NegInt(-1))),
            ("uploadThroughput", Json::Number(JsonNumber::NegInt(-1))),
        ])
    );
}

#[test]
fn headless_flag_appears_only_for_headless_launches() {
    let proxy = ProxySettings { server: "--headless=new".to_string(), bypass: None, username: None, password: None };
    for headless in [true, false] {
        let args = build_chromium_args("--headless=new", 9222, Some(&proxy), headless);
        assert_eq!(args.iter().any(|a| a == "--headless=new"), headless);
    }
}

#[test]
fn devtools_scan_steps_until_an_answer() {
    assert!(devtools_scan_step(Some("[info] starting")).is_none());
    assert_eq!(
        devtools_scan_step(Some("DevTools listening on ws://127.0.0.1:1/devtools/browser/x")).unwrap().unwrap(),
        "ws://127.0.0.1:1/devtools/browser/x"
    );
    match devtools_scan_step(Some("Cannot start the browser process")) {
        Some(Err(PlaywLeftError::BrowserError(m))) => assert_eq!(m, "Cannot start the browser process"),
        other => panic!("unexpected {other:?}"),
    }
    match devtools_scan_step(None) {
        Some(Err(PlaywLeftError::BrowserError(m))) => {
            assert_eq!(m, "Browser process exited without providing WebSocket URL")
        }
        other => panic!("unexpected {other:?}"),
    }
}
