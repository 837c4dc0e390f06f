//! Browser launch decisions: the Chromium command line, where to look for
//! an executable, and reading the DevTools endpoint the browser reports.
use vstd::prelude::*;

use crate::error::PlaywLeftError;
use crate::json::Json;
use crate::protocol::types::opt_view;
use crate::text::{
    concat, contains, contains_str, decimal, find, is_first_occurrence, strings_view, suffix_from,
    trim, trimmed, u64_to_decimal,
};

verus! {

/// Proxy configuration.
#[derive(Debug, Clone, PartialEq)]
pub struct ProxySettings {
    pub server: String,
    pub bypass: Option<String>,
    pub username: Option<String>,
    pub password: Option<String>,
}

/// Provides methods to launch or connect to a Chromium browser.
#[derive(Debug, Clone, PartialEq)]
pub struct BrowserType {
    name: String,
}

impl BrowserType {
    /// The browser type's name.
    pub closed spec fn spec_name(&self) -> Seq<char> {
        self.name@
    }

    /// Create a BrowserType for Chromium.
    pub fn chromium() -> (r: BrowserType)
        ensures
            r.spec_name() == "chromium"@,
    {
        BrowserType { name: "chromium".to_string() }
    }

    /// Get the browser type name.
    pub fn name(&self) -> (r: &str)
        ensures
            r@ == self.spec_name(),
    {
        self.name.as_str()
    }
}

/// The flags every launch passes after the user data directory and the
/// debugging port: no GPU, no background services, automation-friendly
/// defaults, no sandbox, and a blank first page.
pub open spec fn fixed_flags() -> Seq<Seq<char>> {
    seq![
        "--disable-gpu"@,
        "--disable-extensions"@,
        "--disable-default-apps"@,
        "--disable-sync"@,
        "--disable-translate"@,
        "--disable-background-networking"@,
        "--disable-background-timer-throttling"@,
        "--disable-backgrounding-occluded-windows"@,
        "--disable-breakpad"@,
        "--disable-component-update"@,
        "--disable-domain-reliability"@,
        "--disable-features=TranslateUI"@,
        "--disable-hang-monitor"@,
        "--disable-ipc-flooding-protection"@,
        "--disable-popup-blocking"@,
        "--disable-prompt-on-repost"@,
        "--disable-renderer-backgrounding"@,
        "--disable-client-side-phishing-detection"@,
        "--enable-features=NetworkService,NetworkServiceInProcess"@,
        "--force-color-profile=srgb"@,
        "--metrics-recording-only"@,
        "--no-first-run"@,
        "--password-store=basic"@,
        "--use-mock-keychain"@,
        "--no-sandbox"@,
        "--disable-setuid-sandbox"@,
        "--disable-dev-shm-usage"@,
        "about:blank"@,
    ]
}

/// The proxy flags: the server, then the bypass list where there is one.
pub open spec fn proxy_flags(proxy: Option<ProxySettings>) -> Seq<Seq<char>> {
    match proxy {
        Some(p) => seq!["--proxy-server="@ + p.server@] + match p.bypass {
            Some(b) => seq!["--proxy-bypass-list="@ + b@],
            None => Seq::empty(),
        },
        None => Seq::empty(),
    }
}

/// The Chromium command line for a launch: the user data directory and the
/// debugging port, the fixed flags, the proxy flags, and the headless flag
/// where the launch is headless.
pub open spec fn chromium_args(
    user_data_dir: Seq<char>,
    debugging_port: u16,
    proxy: Option<ProxySettings>,
    headless: bool,
) -> Seq<Seq<char>> {
    seq![
        "--user-data-dir="@ + user_data_dir,
        "--remote-debugging-port="@ + decimal(debugging_port as nat),
    ] + fixed_flags() + proxy_flags(proxy) + if headless {
        seq!["--headless=new"@]
    } else {
        Seq::empty()
    }
}

fn push_str(v: &mut Vec<String>, s: &str)
    ensures
        strings_view(final(v)@) == strings_view(old(v)@).push(s@),
{
    v.push(s.to_string());
    assert(strings_view(v@) =~= strings_view(old(v)@).push(s@));
}

fn fixed_flag_list() -> (r: Vec<String>)
    ensures
        strings_view(r@) == fixed_flags(),
{
    let r = vec![
        "--disable-gpu".to_string(),
        "--disable-extensions".to_string(),
        "--disable-default-apps".to_string(),
        "--disable-sync".to_string(),
        "--disable-translate".to_string(),
        "--disable-background-networking".to_string(),
        "--disable-background-timer-throttling".to_string(),
        "--disable-backgrounding-occluded-windows".to_string(),
        "--disable-breakpad".to_string(),
        "--disable-component-update".to_string(),
        "--disable-domain-reliability".to_string(),
        "--disable-features=TranslateUI".to_string(),
        "--disable-hang-monitor".to_string(),
        "--disable-ipc-flooding-protection".to_string(),
        "--disable-popup-blocking".to_string(),
        "--disable-prompt-on-repost".to_string(),
        "--disable-renderer-backgrounding".to_string(),
        "--disable-client-side-phishing-detection".to_string(),
        "--enable-features=NetworkService,NetworkServiceInProcess".to_string(),
        "--force-color-profile=srgb".to_string(),
        "--metrics-recording-only".to_string(),
        "--no-first-run".to_string(),
        "--password-store=basic".to_string(),
        "--use-mock-keychain".to_string(),
        "--no-sandbox".to_string(),
        "--disable-setuid-sandbox".to_string(),
        "--disable-dev-shm-usage".to_string(),
        "about:blank".to_string(),
    ];
    assert(strings_view(r@) =~= fixed_flags());
    r
}

/// Build Chromium command-line arguments optimized for agent use.
pub fn build_chromium_args(
    user_data_dir: &str,
    debugging_port: u16,
    proxy: Option<&ProxySettings>,
    headless: bool,
) -> (r: Vec<String>)
    ensures
        strings_view(r@) == chromium_args(
            user_data_dir@,
            debugging_port,
            match proxy {
                Some(p) => Some(*p),
                None => None,
            },
            headless,
        ),
{
    let mut args: Vec<String> = Vec::new();
    push_str(&mut args, concat("--user-data-dir=", user_data_dir).as_str());
    let port = u64_to_decimal(debugging_port as u64);
    push_str(&mut args, concat("--remote-debugging-port=", port.as_str()).as_str());
    let ghost head = strings_view(args@);
    let mut fixed = fixed_flag_list();
    args.append(&mut fixed);
    assert(strings_view(args@) =~= head + fixed_flags());
    let ghost base = strings_view(args@);
    if let Some(p) = proxy {
        push_str(&mut args, concat("--proxy-server=", p.server.as_str()).as_str());
        if let Some(b) = &p.bypass {
            push_str(&mut args, concat("--proxy-bypass-list=", b.as_str()).as_str());
        }
    }
    let ghost with_proxy = strings_view(args@);
    assert(with_proxy =~= base + proxy_flags(
        match proxy {
            Some(p) => Some(*p),
            None => None,
        },
    ));
    if headless {
        push_str(&mut args, "--headless=new");
    }
    assert(strings_view(args@) =~= chromium_args(
        user_data_dir@,
        debugging_port,
        match proxy {
            Some(p) => Some(*p),
            None => None,
        },
        headless,
    ));
    args
}

/// The full launch command line: the Chromium arguments, then the user's own
/// arguments.
pub fn launch_args(
    user_data_dir: &str,
    debugging_port: u16,
    proxy: Option<&ProxySettings>,
    headless: bool,
    extra: &Vec<String>,
) -> (r: Vec<String>)
    ensures
        strings_view(r@) == chromium_args(
            user_data_dir@,
            debugging_port,
            match proxy {
                Some(p) => Some(*p),
                None => None,
            },
            headless,
        ) + strings_view(extra@),
{
    let mut args = build_chromium_args(user_data_dir, debugging_port, proxy, headless);
    let ghost base = strings_view(args@);
    let mut i: usize = 0;
    while i < extra.len()
        invariant
            0 <= i <= extra@.len(),
            strings_view(args@) == base + strings_view(extra@.subrange(0, i as int)),
        decreases extra@.len() - i,
    {
        let ghost before = strings_view(args@);
        args.push(extra[i].clone());
        assert(strings_view(args@) =~= before.push(extra@[i as int]@));
        assert(strings_view(extra@.subrange(0, i + 1)) =~= strings_view(
            extra@.subrange(0, i as int),
        ).push(extra@[i as int]@));
        i = i + 1;
    }
    assert(extra@.subrange(0, extra@.len() as int) =~= extra@);
    args
}

/// The operating system families whose browser names differ.
#[derive(Debug, Clone, Copy, PartialEq, Eq)]
pub enum HostOs {
    Windows,
    MacOs,
    Other,
}

/// The executables to look for on the search path, in order.
pub open spec fn candidates_for(os: HostOs) -> Seq<Seq<char>> {
    match os {
        HostOs::Windows => seq!["chrome.exe"@, "chromium.exe"@, "msedge.exe"@],
        HostOs::MacOs => seq![
            "google-chrome"@,
            "chromium"@,
            "/Applications/Google Chrome.app/Contents/MacOS/Google Chrome"@,
            "/Applications/Chromium.app/Contents/MacOS/Chromium"@,
            "/Applications/Microsoft Edge.app/Contents/MacOS/Microsoft Edge"@,
        ],
        HostOs::Other => seq![
            "google-chrome"@,
            "google-chrome-stable"@,
            "chromium"@,
            "chromium-browser"@,
        ],
    }
}

/// The Chromium-based executables to look for, in order of preference.
pub fn chromium_candidates(os: HostOs) -> (r: Vec<String>)
    ensures
        strings_view(r@) == candidates_for(os),
{
    let r = match os {
        HostOs::Windows => vec![
            "chrome.exe".to_string(),
            "chromium.exe".to_string(),
            "msedge.exe".to_string(),
        ],
        HostOs::MacOs => vec![
            "google-chrome".to_string(),
            "chromium".to_string(),
            "/Applications/Google Chrome.app/Contents/MacOS/Google Chrome".to_string(),
            "/Applications/Chromium.app/Contents/MacOS/Chromium".to_string(),
            "/Applications/Microsoft Edge.app/Contents/MacOS/Microsoft Edge".to_string(),
        ],
        HostOs::Other => vec![
            "google-chrome".to_string(),
            "google-chrome-stable".to_string(),
            "chromium".to_string(),
            "chromium-browser".to_string(),
        ],
    };
    assert(strings_view(r@) =~= candidates_for(os));
    r
}

/// The environment variables that name the Windows program directories, in
/// the order they are searched.
pub open spec fn windows_dir_vars() -> Seq<Seq<char>> {
    seq!["ProgramFiles"@, "ProgramFiles(x86)"@, "LocalAppData"@]
}

/// The install locations under each Windows program directory, in the
/// order they are tried.
pub open spec fn windows_relative_paths() -> Seq<Seq<char>> {
    seq![
        "Google\\Chrome\\Application\\chrome.exe"@,
        "Microsoft\\Edge\\Application\\msedge.exe"@,
        "Chromium\\Application\\chrome.exe"@,
    ]
}

/// On Windows, the install locations to try under each program directory,
/// in order; the directories come from these environment variables, in
/// order.
pub fn windows_install_locations() -> (r: (Vec<String>, Vec<String>))
    ensures
        strings_view(r.0@) == windows_dir_vars(),
        strings_view(r.1@) == windows_relative_paths(),
{
    let vars = vec![
        "ProgramFiles".to_string(),
        "ProgramFiles(x86)".to_string(),
        "LocalAppData".to_string(),
    ];
    let paths = vec![
        "Google\\Chrome\\Application\\chrome.exe".to_string(),
        "Microsoft\\Edge\\Application\\msedge.exe".to_string(),
        "Chromium\\Application\\chrome.exe".to_string(),
    ];
    assert(strings_view(vars@) =~= windows_dir_vars());
    assert(strings_view(paths@) =~= windows_relative_paths());
    (vars, paths)
}

/// One place where a browser executable may be: a name looked up on the
/// search path, or a location under a program directory.
#[derive(Debug, Clone, PartialEq)]
pub enum Probe {
    OnPath(String),
    Installed(String, String),
}

/// The model of a [`Probe`].
pub enum ProbeView {
    OnPath(Seq<char>),
    Installed(Seq<char>, Seq<char>),
}

impl View for Probe {
    type V = ProbeView;

    open spec fn view(&self) -> ProbeView {
        match self {
            Probe::OnPath(n) => ProbeView::OnPath(n@),
            Probe::Installed(b, p) => ProbeView::Installed(b@, p@),
        }
    }
}

/// The model of a list of probes.
pub open spec fn probes_view(p: Seq<Probe>) -> Seq<ProbeView> {
    Seq::new(p.len(), |i: int| p[i]@)
}

/// The install locations under the program directories that are set (not
/// empty), directory by directory, each with every relative path in order.
pub open spec fn installed_probes(dirs: Seq<Seq<char>>) -> Seq<ProbeView>
    decreases dirs.len(),
{
    if dirs.len() == 0 {
        Seq::empty()
    } else {
        let dir = dirs.last();
        installed_probes(dirs.drop_last()) + if dir.len() == 0 {
            Seq::empty()
        } else {
            Seq::new(
                windows_relative_paths().len(),
                |j: int| ProbeView::Installed(dir, windows_relative_paths()[j]),
            )
        }
    }
}

/// Where to look for a browser, in order: each candidate name on the search
/// path, then, on Windows, each install location under the program
/// directories `dirs` (the values of [`windows_dir_vars`], empty where one
/// is not set).
pub open spec fn probes_for(os: HostOs, dirs: Seq<Seq<char>>) -> Seq<ProbeView> {
    Seq::new(candidates_for(os).len(), |i: int| ProbeView::OnPath(candidates_for(os)[i])) + if os
        == HostOs::Windows {
        installed_probes(dirs)
    } else {
        Seq::empty()
    }
}

/// The places to look for a browser, in order (see [`probes_for`]).
pub fn executable_probes(os: HostOs, dirs: &Vec<String>) -> (r: Vec<Probe>)
    ensures
        probes_view(r@) == probes_for(os, strings_view(dirs@)),
{
    let names = chromium_candidates(os);
    let mut r: Vec<Probe> = Vec::new();
    let mut i: usize = 0;
    assert(probes_view(r@) =~= Seq::new(0nat, |k: int| ProbeView::OnPath(candidates_for(os)[k])));
    while i < names.len()
        invariant
            0 <= i <= names@.len(),
            r@.len() == i,
            strings_view(names@) == candidates_for(os),
            probes_view(r@) == Seq::new(i as nat, |k: int| ProbeView::OnPath(candidates_for(os)[k])),
        decreases names@.len() - i,
    {
        assert(strings_view(names@)[i as int] == names@[i as int]@);
        let ghost old_r = r@;
        let p = Probe::OnPath(names[i].as_str().to_string());
        assert(p@ == ProbeView::OnPath(candidates_for(os)[i as int]));
        r.push(p);
        assert forall|k: int| 0 <= k < i + 1 implies probes_view(r@)[k] == ProbeView::OnPath(
            candidates_for(os)[k],
        ) by {
            if k < i {
                assert(r@[k] == old_r[k]);
                assert(probes_view(old_r)[k] == ProbeView::OnPath(candidates_for(os)[k]));
            }
        }
        assert(probes_view(r@) =~= Seq::new((i + 1) as nat, |k: int| ProbeView::OnPath(candidates_for(os)[k])));
        i = i + 1;
    }
    let ghost head = probes_view(r@);
    if let HostOs::Windows = os {
        let (_, paths) = windows_install_locations();
        let mut d: usize = 0;
        assert(strings_view(dirs@).subrange(0, 0) =~= Seq::<Seq<char>>::empty());
        while d < dirs.len()
            invariant
                0 <= d <= dirs@.len(),
                strings_view(paths@) == windows_relative_paths(),
                probes_view(r@) == head + installed_probes(strings_view(dirs@).subrange(0, d as int)),
            decreases dirs@.len() - d,
        {
            let ghost before = probes_view(r@);
            let ghost sub = strings_view(dirs@).subrange(0, d + 1);
            assert(sub.drop_last() =~= strings_view(dirs@).subrange(0, d as int));
            assert(sub.last() == dirs@[d as int]@);
            let dir = &dirs[d];
            if dir.unicode_len() > 0 {
                let mut j: usize = 0;
                assert(probes_view(r@) =~= before + Seq::new(
                    0nat,
                    |k: int| ProbeView::Installed(dir@, windows_relative_paths()[k]),
                ));
                while j < paths.len()
                    invariant
                        0 <= j <= paths@.len(),
                        r@.len() == before.len() + j,
                        strings_view(paths@) == windows_relative_paths(),
                        dir@.len() > 0,
                        probes_view(r@) == before + Seq::new(
                            j as nat,
                            |k: int| ProbeView::Installed(dir@, windows_relative_paths()[k]),
                        ),
                    decreases paths@.len() - j,
                {
                    assert(strings_view(paths@)[j as int] == paths@[j as int]@);
                    let ghost old_r = r@;
                    let p = Probe::Installed(dir.as_str().to_string(), paths[j].as_str().to_string());
                    assert(p@ == ProbeView::Installed(dir@, windows_relative_paths()[j as int]));
                    r.push(p);
                    assert forall|k: int| 0 <= k < old_r.len() implies probes_view(r@)[k] == probes_view(old_r)[k] by {
                        assert(r@[k] == old_r[k]);
                    }
                    assert(probes_view(r@)[old_r.len() as int] == p@);
                    let ghost f = |k: int| ProbeView::Installed(dir@, windows_relative_paths()[k]);
                    assert forall|k: int| 0 <= k < r@.len() implies probes_view(r@)[k] == (before
                        + Seq::new((j + 1) as nat, f))[k] by {
                        if k < old_r.len() {
                            assert(probes_view(old_r) == before + Seq::new(j as nat, f));
                            assert(probes_view(old_r)[k] == (before + Seq::new(j as nat, f))[k]);
                        }
                    }
                    assert(probes_view(r@) =~= before + Seq::new(
                        (j + 1) as nat,
                        |k: int| ProbeView::Installed(dir@, windows_relative_paths()[k]),
                    ));
                    j = j + 1;
                }
                assert(probes_view(r@) =~= head + installed_probes(sub));
            } else {
                assert(probes_view(r@) =~= head + installed_probes(sub));
            }
            d = d + 1;
        }
        assert(strings_view(dirs@).subrange(0, dirs@.len() as int) =~= strings_view(dirs@));
    }
    assert(probes_view(r@) =~= probes_for(os, strings_view(dirs@)));
    r
}

/// What the search for an executable does next.
#[derive(Debug)]
pub enum SearchStep {
    /// Look at the probe with this index.
    Try(usize),
    /// The probe with this index found the browser.
    Use(usize),
    /// No probe found one.
    NotFound(PlaywLeftError),
}

/// The first step of a search over `count` probes.
pub fn search_start(count: usize) -> (r: SearchStep)
    ensures
        match r {
            SearchStep::Try(i) => count > 0 && i == 0,
            SearchStep::Use(_) => false,
            SearchStep::NotFound(e) => count == 0 && (e matches PlaywLeftError::BrowserError(m) && m@
                == browser_not_found_message()),
        },
{
    if count > 0 {
        SearchStep::Try(0)
    } else {
        SearchStep::NotFound(browser_not_found())
    }
}

/// The step after looking at probe `i` of `count`: use it where it found
/// the browser, else try the next one, else report that none was found.
pub fn search_step(count: usize, i: usize, found: bool) -> (r: SearchStep)
    requires
        i < count,
    ensures
        match r {
            SearchStep::Use(k) => found && k == i,
            SearchStep::Try(k) => !found && i + 1 < count && k == i + 1,
            SearchStep::NotFound(e) => !found && i + 1 == count && (e matches PlaywLeftError::BrowserError(
                m,
            ) && m@ == browser_not_found_message()),
        },
{
    if found {
        SearchStep::Use(i)
    } else if i + 1 < count {
        SearchStep::Try(i + 1)
    } else {
        SearchStep::NotFound(browser_not_found())
    }
}

/// The message of the error when no browser executable is found.
pub open spec fn browser_not_found_message() -> Seq<char> {
    "Could not find a Chromium-based browser. Install Chrome, Chromium, or Edge, or set executable_path in LaunchOptions."@
}

/// The error of a browser whose error output cannot be read.
pub fn stderr_unavailable() -> (r: PlaywLeftError)
    ensures
        r matches PlaywLeftError::BrowserError(m) && m@ == "Cannot read browser stderr"@,
{
    PlaywLeftError::BrowserError("Cannot read browser stderr".to_string())
}

/// The error of a browser that did not name its endpoint in time.
pub fn launch_timeout() -> (r: PlaywLeftError)
    ensures
        r matches PlaywLeftError::Timeout(m) && m@ == "Browser launch timed out"@,
{
    PlaywLeftError::Timeout("Browser launch timed out".to_string())
}

/// The error when no browser executable is found.
pub fn browser_not_found() -> (r: PlaywLeftError)
    ensures
        r matches PlaywLeftError::BrowserError(m) && m@ == browser_not_found_message(),
{
    PlaywLeftError::BrowserError(
        "Could not find a Chromium-based browser. Install Chrome, Chromium, or Edge, or set executable_path in LaunchOptions.".to_string(),
    )
}

/// What a line of the browser's error output says while it starts.
#[derive(Debug, Clone, PartialEq)]
pub enum DevtoolsLine {
    /// The DevTools WebSocket URL it listens on.
    Endpoint(String),
    /// The browser could not start; the line explains why.
    Failure(String),
    /// Nothing of interest.
    Other,
}

/// Reads a line of the browser's error output: from the first `ws://` on,
/// trimmed, the line names the DevTools endpoint; otherwise a line that says
/// `Cannot start the browser process` reports a failure.
pub fn scan_devtools_line(line: &str) -> (r: DevtoolsLine)
    ensures
        match r {
            DevtoolsLine::Endpoint(url) => exists|i: int|
                is_first_occurrence(line@, "ws://"@, i) && url@ == trim(
                    line@.subrange(i, line@.len() as int),
                ),
            DevtoolsLine::Failure(m) => !contains(line@, "ws://"@) && contains(
                line@,
                "Cannot start the browser process"@,
            ) && m@ == line@,
            DevtoolsLine::Other => !contains(line@, "ws://"@) && !contains(
                line@,
                "Cannot start the browser process"@,
            ),
        },
{
    match find(line, "ws://") {
        Some(start) => {
            let rest = suffix_from(line, start);
            let url = trimmed(rest.as_str());
            DevtoolsLine::Endpoint(url)
        },
        None => {
            if contains_str(line, "Cannot start the browser process") {
                DevtoolsLine::Failure(line.to_string())
            } else {
                DevtoolsLine::Other
            }
        },
    }
}

/// What reading the browser's error output decides at each step, given the
/// next line or `None` where the output ended: the endpoint it names, the
/// failure it reports, `None` to read on, or, at the end of the output, the
/// error that the browser exited without naming an endpoint.
pub fn devtools_scan_step(line: Option<&str>) -> (r: Option<Result<String, PlaywLeftError>>)
    ensures
        match line {
            None => r matches Some(Err(PlaywLeftError::BrowserError(m))) && m@
                == "Browser process exited without providing WebSocket URL"@,
            Some(l) => match r {
                Some(Ok(url)) => exists|i: int|
                    is_first_occurrence(l@, "ws://"@, i) && url@ == trim(l@.subrange(i, l@.len() as int)),
                Some(Err(e)) => e matches PlaywLeftError::BrowserError(m) && !contains(l@, "ws://"@)
                    && contains(l@, "Cannot start the browser process"@) && m@ == l@,
                None => !contains(l@, "ws://"@) && !contains(l@, "Cannot start the browser process"@),
            },
        },
{
    match line {
        None => Some(
            Err(
                PlaywLeftError::BrowserError(
                    "Browser process exited without providing WebSocket URL".to_string(),
                ),
            ),
        ),
        Some(l) => match scan_devtools_line(l) {
            DevtoolsLine::Endpoint(url) => Some(Ok(url)),
            DevtoolsLine::Failure(m) => Some(Err(PlaywLeftError::BrowserError(m))),
            DevtoolsLine::Other => None,
        },
    }
}

/// The HTTP address of a debugging endpoint's version document.
pub fn version_endpoint(endpoint_url: &str) -> (r: String)
    ensures
        r@ == endpoint_url@ + "/json/version"@,
{
    concat(endpoint_url, "/json/version")
}

/// The browser's WebSocket URL from its `/json/version` document, or a
/// connection error where the document has none.
pub fn ws_url_from_version(doc: &Json) -> (r: Result<String, PlaywLeftError>)
    ensures
        match doc@.at("webSocketDebuggerUrl"@).as_str() {
            Some(u) => r matches Ok(s) && s@ == u,
            None => r matches Err(PlaywLeftError::ConnectionError(m)) && m@
                == "No webSocketDebuggerUrl in /json/version response"@,
        },
{
    match doc.str_at("webSocketDebuggerUrl") {
        Some(u) => Ok(u.to_string()),
        None => Err(
            PlaywLeftError::ConnectionError(
                "No webSocketDebuggerUrl in /json/version response".to_string(),
            ),
        ),
    }
}

} // verus!

verus! {

proof fn lemma_fixed_flags_not_headless()
    ensures
        forall|i: int| 0 <= i < fixed_flags().len() ==> (#[trigger] fixed_flags()[i]).len() > 2 && fixed_flags()[i][2] != 'h',
{
    reveal_strlit("--disable-gpu");
    reveal_strlit("--disable-extensions");
    reveal_strlit("--disable-default-apps");
    reveal_strlit("--disable-sync");
    reveal_strlit("--disable-translate");
    reveal_strlit("--disable-background-networking");
    reveal_strlit("--disable-background-timer-throttling");
    reveal_strlit("--disable-backgrounding-occluded-windows");
    reveal_strlit("--disable-breakpad");
    reveal_strlit("--disable-component-update");
    reveal_strlit("--disable-domain-reliability");
    reveal_strlit("--disable-features=TranslateUI");
    reveal_strlit("--disable-hang-monitor");
    reveal_strlit("--disable-ipc-flooding-protection");
    reveal_strlit("--disable-popup-blocking");
    reveal_strlit("--disable-prompt-on-repost");
    reveal_strlit("--disable-renderer-backgrounding");
    reveal_strlit("--disable-client-side-phishing-detection");
    reveal_strlit("--enable-features=NetworkService,NetworkServiceInProcess");
    reveal_strlit("--force-color-profile=srgb");
    reveal_strlit("--metrics-recording-only");
    reveal_strlit("--no-first-run");
    reveal_strlit("--password-store=basic");
    reveal_strlit("--use-mock-keychain");
    reveal_strlit("--no-sandbox");
    reveal_strlit("--disable-setuid-sandbox");
    reveal_strlit("--disable-dev-shm-usage");
    reveal_strlit("about:blank");
    reveal_strlit("--headless=new");
    assert(fixed_flags().len() == 28);
}

/// A launch is headless exactly when it asks for it: the command line holds
/// the headless flag if and only if the launch is headless, whatever the
/// user data directory, port and proxy.
pub proof fn law_headless_flag_iff_headless(
    user_data_dir: Seq<char>,
    debugging_port: u16,
    proxy: Option<ProxySettings>,
    headless: bool,
)
    ensures
        chromium_args(user_data_dir, debugging_port, proxy, headless).contains("--headless=new"@)
            <==> headless,
{
    reveal_strlit("--headless=new");
    reveal_strlit("--user-data-dir=");
    reveal_strlit("--remote-debugging-port=");
    reveal_strlit("--proxy-server=");
    reveal_strlit("--proxy-bypass-list=");
    lemma_fixed_flags_not_headless();
    let args = chromium_args(user_data_dir, debugging_port, proxy, headless);
    let head = seq![
        "--user-data-dir="@ + user_data_dir,
        "--remote-debugging-port="@ + decimal(debugging_port as nat),
    ];
    let fixed = fixed_flags();
    let px = proxy_flags(proxy);
    let tail: Seq<Seq<char>> = if headless {
        seq!["--headless=new"@]
    } else {
        Seq::empty()
    };
    assert(args == head + fixed + px + tail);
    let h = "--headless=new"@;
    assert(h[2] == 'h');
    if headless {
        assert(args[args.len() - 1] == h);
    } else {
        assert(args =~= head + fixed + px);
        assert forall|i: int| 0 <= i < args.len() implies args[i] != h by {
            if i < 2 {
                assert(args[i] == head[i]);
                assert(head[i][2] != 'h');
            } else if i < 2 + fixed.len() {
                assert(args[i] == fixed[i - 2]);
            } else {
                assert(args[i] == px[i - 2 - fixed.len()]);
                assert(px[i - 2 - fixed.len()][2] == 'p');
            }
        }
    }
}

} // verus!
