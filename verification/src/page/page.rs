//! Page logic: setup, navigation, history, load states and keyboard input.
use vstd::prelude::*;

use crate::error::PlaywLeftError;
use crate::json::{values_model, Json, JsonNumber, JsonV};
use crate::network::request::str_or;
use crate::page::frame::{Frame, FrameView};
use crate::protocol::types::opt_view;
use crate::text::{char_string, concat, str_eq};

verus! {

/// The message of a URL that does not parse (`url::ParseError`'s
/// `Display`), or `None` where the URL parses (`url::Url::parse`).
pub uninterp spec fn url_parse_failure(input: Seq<char>) -> Option<Seq<char>>;

/// `url::Url::parse`: `None` where the URL parses, otherwise the message of
/// its parse error.
#[verifier::external_body]
fn url_parse_error(input: &str) -> (r: Option<String>)
    ensures
        opt_view(r) == url_parse_failure(input@),
{
    match url::Url::parse(input) {
        Ok(_) => None,
        Err(e) => Some(e.to_string()),
    }
}

/// Checks that a URL parses before the page navigates to it; a URL that
/// does not gives a navigation error.
pub fn validate_url(url: &str) -> (r: Result<(), PlaywLeftError>)
    ensures
        match url_parse_failure(url@) {
            None => r is Ok,
            Some(m) => r matches Err(PlaywLeftError::NavigationError(e)) && e@ == "Invalid URL: "@
                + m,
        },
{
    match url_parse_error(url) {
        None => Ok(()),
        Some(m) => Err(PlaywLeftError::NavigationError(concat("Invalid URL: ", m.as_str()))),
    }
}

/// The CDP domains a page enables when it opens, in order.
pub fn page_domains() -> (r: Vec<String>)
    ensures
        r@.len() == 4,
        r@[0]@ == "Page"@,
        r@[1]@ == "Runtime"@,
        r@[2]@ == "Network"@,
        r@[3]@ == "DOM"@,
{
    vec!["Page".to_string(), "Runtime".to_string(), "Network".to_string(), "DOM".to_string()]
}

/// The main frame that `Page.getFrameTree` describes: the root frame's id
/// (`main` where there is none) and URL (`about:blank` where there is
/// none); it has no name and no parent.
pub fn main_frame_of(tree: &Json) -> (r: Frame)
    ensures
        r@ == (FrameView {
            id: str_or(tree@.at("frameTree"@).at("frame"@).at("id"@).as_str(), "main"@),
            url: str_or(tree@.at("frameTree"@).at("frame"@).at("url"@).as_str(), "about:blank"@),
            name: None,
            parent_id: None,
        }),
{
    let frame = tree.at("frameTree").at("frame");
    let id = match frame.str_at("id") {
        Some(s) => s.to_string(),
        None => "main".to_string(),
    };
    let url = match frame.str_at("url") {
        Some(s) => s.to_string(),
        None => "about:blank".to_string(),
    };
    Frame::new(id, url, None, None)
}

/// The parameters of `Page.navigate` for a URL.
pub fn navigate_params(url: &str) -> (r: Json)
    ensures
        r@ == JsonV::Object(seq![("url"@, JsonV::Str(url@))]),
{
    let r = Json::object(vec![Json::member("url", Json::string(url))]);
    assert(r@->Object_0 =~= seq![("url"@, JsonV::Str(url@))]);
    r
}

/// The outcome of `Page.navigate` from its reply: a non-empty `errorText`
/// is a navigation error.
pub fn navigation_outcome(result: &Json) -> (r: Result<(), PlaywLeftError>)
    ensures
        match result@.get("errorText"@) {
            Some(v) => match v.as_str() {
                Some(t) => if t.len() > 0 {
                    r matches Err(PlaywLeftError::NavigationError(e)) && e@ == t
                } else {
                    r is Ok
                },
                None => r is Ok,
            },
            None => r is Ok,
        },
{
    if let Some(v) = result.get("errorText") {
        if let Some(t) = v.as_str() {
            if t.unicode_len() > 0 {
                return Err(PlaywLeftError::NavigationError(t.to_string()));
            }
        }
    }
    Ok(())
}

/// The current index of a navigation history, 0 where there is none.
pub open spec fn history_index(nav: JsonV) -> int {
    match nav.at("currentIndex"@).as_i64() {
        Some(i) => i as int,
        None => 0,
    }
}

/// The id of a history entry, 0 where there is none.
pub open spec fn entry_id(entry: JsonV) -> i64 {
    match entry.at("id"@).as_i64() {
        Some(i) => i,
        None => 0,
    }
}

/// The entry that going back navigates to: the one before the current
/// one, where there is one.
pub open spec fn back_entry(nav: JsonV) -> Option<i64> {
    let i = history_index(nav);
    match nav.at("entries"@).as_array() {
        Some(entries) => if 0 < i && i - 1 < entries.len() {
            Some(entry_id(entries[i - 1]))
        } else {
            None
        },
        None => None,
    }
}

/// The entry that going forward navigates to: the one after the current
/// one, where there is one.
pub open spec fn forward_entry(nav: JsonV) -> Option<i64> {
    let i = history_index(nav);
    match nav.at("entries"@).as_array() {
        Some(entries) => if 0 <= i && i + 1 < entries.len() {
            Some(entry_id(entries[i + 1]))
        } else {
            None
        },
        None => None,
    }
}

/// Going forward from a history whose current index is -1 overflows the
/// index arithmetic (the index is read as an unsigned size).
pub open spec fn forward_overflows(nav: JsonV) -> bool {
    nav.at("currentIndex"@).as_i64() == Some(-1i64) && nav.at("entries"@).as_array() is Some
}

fn history_index_of(nav: &Json) -> (r: i64)
    ensures
        r as int == history_index(nav@),
{
    match nav.at("currentIndex").as_i64() {
        Some(i) => i,
        None => 0,
    }
}

fn entry_id_of(entry: &Json) -> (r: i64)
    ensures
        r == entry_id(entry@),
{
    match entry.at("id").as_i64() {
        Some(i) => i,
        None => 0,
    }
}

/// The history entry that going back navigates to, from the reply to
/// `Page.getNavigationHistory`; `None` where there is nothing to go back to.
pub fn history_back_entry(nav: &Json) -> (r: Option<i64>)
    ensures
        r == back_entry(nav@),
{
    let i = history_index_of(nav);
    let list = nav.at("entries");
    if i > 0 {
        if let Some(entries) = list.as_array() {
            if ((i - 1) as u64) < (entries.len() as u64) {
                let k = (i - 1) as usize;
                assert(values_model(entries@)[k as int] == entries@[k as int]@);
                return Some(entry_id_of(&entries[k]));
            }
        }
    }
    None
}

/// Whether going forward from this history overflows (see
/// [`forward_overflows`]).
pub fn history_forward_overflows(nav: &Json) -> (r: bool)
    ensures
        r == forward_overflows(nav@),
{
    let list = nav.at("entries");
    nav.at("currentIndex").as_i64() == Some(-1i64) && list.as_array().is_some()
}

/// The history entry that going forward navigates to, from the reply to
/// `Page.getNavigationHistory`; `None` where there is nothing to go forward
/// to.
pub fn history_forward_entry(nav: &Json) -> (r: Option<i64>)
    requires
        !forward_overflows(nav@),
    ensures
        r == forward_entry(nav@),
{
    let i = history_index_of(nav);
    let list = nav.at("entries");
    if let Some(entries) = list.as_array() {
        if i >= 0 && ((i as u64) < (entries.len() as u64)) && ((i as u64) + 1 < (
        entries.len() as u64)) {
            let k = (i as usize) + 1;
            assert(values_model(entries@)[k as int] == entries@[k as int]@);
            return Some(entry_id_of(&entries[k]));
        }
    }
    None
}

/// The parameters of `Page.navigateToHistoryEntry` for an entry.
pub fn history_entry_params(entry_id: i64) -> (r: Json)
    ensures
        r@ == JsonV::Object(
            seq![
                ("entryId"@, JsonV::Number(
                    if entry_id < 0 {
                        JsonNumber::NegInt(entry_id)
                    } else {
                        JsonNumber::PosInt(entry_id as u64)
                    },
                )),
            ],
        ),
{
    let r = Json::object(vec![Json::member("entryId", Json::signed(entry_id))]);
    assert(r@->Object_0 =~= seq![
        ("entryId"@, JsonV::Number(
            if entry_id < 0 {
                JsonNumber::NegInt(entry_id)
            } else {
                JsonNumber::PosInt(entry_id as u64)
            },
        )),
    ]);
    r
}

/// The lifecycle states a page can wait for.
#[derive(Debug, Clone, Copy, PartialEq, Eq)]
pub enum LoadState {
    /// The load event.
    Load,
    /// The DOMContentLoaded event.
    DomContentLoaded,
    /// The load event, then a pause with no network activity.
    NetworkIdle,
}

impl LoadState {
    /// The CDP event that marks this state.
    pub open spec fn spec_event_method(self) -> Seq<char> {
        match self {
            LoadState::DomContentLoaded => "Page.domContentEventFired"@,
            _ => "Page.loadEventFired"@,
        }
    }

    /// The CDP event that marks this state.
    pub fn event_method(&self) -> (r: &'static str)
        ensures
            r@ == self.spec_event_method(),
    {
        match self {
            LoadState::DomContentLoaded => "Page.domContentEventFired",
            _ => "Page.loadEventFired",
        }
    }

    /// How long to wait after the event before the state holds (ms).
    pub fn settle_ms(&self) -> (r: u64)
        ensures
            r == if *self == LoadState::NetworkIdle {
                500u64
            } else {
                0u64
            },
    {
        match self {
            LoadState::NetworkIdle => 500,
            _ => 0,
        }
    }
}

/// The load state a name stands for: `load`, `DOMContentLoaded` or
/// `domcontentloaded`, `networkIdle` or `networkidle`.
pub open spec fn load_state_named(name: Seq<char>) -> Option<LoadState> {
    if name == "load"@ {
        Some(LoadState::Load)
    } else if name == "DOMContentLoaded"@ || name == "domcontentloaded"@ {
        Some(LoadState::DomContentLoaded)
    } else if name == "networkIdle"@ || name == "networkidle"@ {
        Some(LoadState::NetworkIdle)
    } else {
        None
    }
}

/// The load state a name stands for, or an internal error for any other
/// name.
pub fn parse_load_state(state: &str) -> (r: Result<LoadState, PlaywLeftError>)
    ensures
        match load_state_named(state@) {
            Some(s) => r matches Ok(t) && t == s,
            None => r matches Err(PlaywLeftError::Internal(m)) && m@ == "Unknown load state: "@
                + state@,
        },
{
    if str_eq(state, "load") {
        Ok(LoadState::Load)
    } else if str_eq(state, "DOMContentLoaded") || str_eq(state, "domcontentloaded") {
        Ok(LoadState::DomContentLoaded)
    } else if str_eq(state, "networkIdle") || str_eq(state, "networkidle") {
        Ok(LoadState::NetworkIdle)
    } else {
        Err(PlaywLeftError::Internal(concat("Unknown load state: ", state)))
    }
}

/// The parameters of `Page.setDocumentContent` for a frame.
pub fn set_content_params(frame_id: &str, html: &str) -> (r: Json)
    ensures
        r@ == JsonV::Object(
            seq![("frameId"@, JsonV::Str(frame_id@)), ("html"@, JsonV::Str(html@))],
        ),
{
    let r = Json::object(
        vec![Json::member("frameId", Json::string(frame_id)), Json::member("html", Json::string(html))],
    );
    assert(r@->Object_0 =~= seq![("frameId"@, JsonV::Str(frame_id@)), ("html"@, JsonV::Str(html@))]);
    r
}

/// The parameters of `Page.addScriptToEvaluateOnNewDocument`.
pub fn init_script_params(script: &str) -> (r: Json)
    ensures
        r@ == JsonV::Object(seq![("source"@, JsonV::Str(script@))]),
{
    let r = Json::object(vec![Json::member("source", Json::string(script))]);
    assert(r@->Object_0 =~= seq![("source"@, JsonV::Str(script@))]);
    r
}

/// The parameters of `Target.closeTarget` for a page.
pub fn close_params(target_id: &str) -> (r: Json)
    ensures
        r@ == JsonV::Object(seq![("targetId"@, JsonV::Str(target_id@))]),
{
    let r = Json::object(vec![Json::member("targetId", Json::string(target_id))]);
    assert(r@->Object_0 =~= seq![("targetId"@, JsonV::Str(target_id@))]);
    r
}

/// The parameters of an `Input.dispatchMouseEvent` press or release at a
/// point, with the left button; the coordinates are floating-point numbers,
/// given by their bit patterns.
pub open spec fn mouse_button_event(kind: Seq<char>, x_bits: u64, y_bits: u64, click_count: u64) -> JsonV {
    JsonV::Object(
        seq![
            ("type"@, JsonV::Str(kind)),
            ("x"@, JsonV::Number(JsonNumber::Float(x_bits))),
            ("y"@, JsonV::Number(JsonNumber::Float(y_bits))),
            ("button"@, JsonV::Str("left"@)),
            ("clickCount"@, JsonV::Number(JsonNumber::PosInt(click_count))),
        ],
    )
}

/// The mouse events of a click at a point: a press, then a release, each
/// with the click count.
pub fn mouse_click_params(x_bits: u64, y_bits: u64, click_count: u64) -> (r: Vec<Json>)
    ensures
        values_model(r@) == seq![
            mouse_button_event("mousePressed"@, x_bits, y_bits, click_count),
            mouse_button_event("mouseReleased"@, x_bits, y_bits, click_count),
        ],
{
    let mut r: Vec<Json> = Vec::new();
    let down = Json::object(
        vec![
            Json::member("type", Json::string("mousePressed")),
            Json::member("x", Json::Number(JsonNumber::Float(x_bits))),
            Json::member("y", Json::Number(JsonNumber::Float(y_bits))),
            Json::member("button", Json::string("left")),
            Json::member("clickCount", Json::uint(click_count)),
        ],
    );
    assert(down@->Object_0 =~= mouse_button_event("mousePressed"@, x_bits, y_bits, click_count)->Object_0);
    let up = Json::object(
        vec![
            Json::member("type", Json::string("mouseReleased")),
            Json::member("x", Json::Number(JsonNumber::Float(x_bits))),
            Json::member("y", Json::Number(JsonNumber::Float(y_bits))),
            Json::member("button", Json::string("left")),
            Json::member("clickCount", Json::uint(click_count)),
        ],
    );
    assert(up@->Object_0 =~= mouse_button_event("mouseReleased"@, x_bits, y_bits, click_count)->Object_0);
    r.push(down);
    r.push(up);
    assert(values_model(r@) =~= seq![
        mouse_button_event("mousePressed"@, x_bits, y_bits, click_count),
        mouse_button_event("mouseReleased"@, x_bits, y_bits, click_count),
    ]);
    r
}

/// The parameters of an `Input.dispatchMouseEvent` that moves the pointer
/// to a point, given by the bit patterns of its coordinates.
pub fn mouse_move_params(x_bits: u64, y_bits: u64) -> (r: Json)
    ensures
        r@ == JsonV::Object(
            seq![
                ("type"@, JsonV::Str("mouseMoved"@)),
                ("x"@, JsonV::Number(JsonNumber::Float(x_bits))),
                ("y"@, JsonV::Number(JsonNumber::Float(y_bits))),
            ],
        ),
{
    let r = Json::object(
        vec![
            Json::member("type", Json::string("mouseMoved")),
            Json::member("x", Json::Number(JsonNumber::Float(x_bits))),
            Json::member("y", Json::Number(JsonNumber::Float(y_bits))),
        ],
    );
    assert(r@->Object_0 =~= seq![
        ("type"@, JsonV::Str("mouseMoved"@)),
        ("x"@, JsonV::Number(JsonNumber::Float(x_bits))),
        ("y"@, JsonV::Number(JsonNumber::Float(y_bits))),
    ]);
    r
}

/// The parameters of `Emulation.setDeviceMetricsOverride` for a viewport;
/// the scale factor is a floating-point number, given by its bit pattern.
pub fn device_metrics_params(width: u32, height: u32, scale_bits: u64, mobile: bool) -> (r: Json)
    ensures
        r@ == JsonV::Object(
            seq![
                ("width"@, JsonV::Number(JsonNumber::PosInt(width as u64))),
                ("height"@, JsonV::Number(JsonNumber::PosInt(height as u64))),
                ("deviceScaleFactor"@, JsonV::Number(JsonNumber::Float(scale_bits))),
                ("mobile"@, JsonV::Bool(mobile)),
            ],
        ),
{
    let r = Json::object(
        vec![
            Json::member("width", Json::uint(width as u64)),
            Json::member("height", Json::uint(height as u64)),
            Json::member("deviceScaleFactor", Json::Number(JsonNumber::Float(scale_bits))),
            Json::member("mobile", Json::Bool(mobile)),
        ],
    );
    assert(r@->Object_0 =~= seq![
        ("width"@, JsonV::Number(JsonNumber::PosInt(width as u64))),
        ("height"@, JsonV::Number(JsonNumber::PosInt(height as u64))),
        ("deviceScaleFactor"@, JsonV::Number(JsonNumber::Float(scale_bits))),
        ("mobile"@, JsonV::Bool(mobile)),
    ]);
    r
}

/// The parameters of `Accessibility.getFullAXTree`: an empty object.
pub fn accessibility_tree_params() -> (r: Json)
    ensures
        r@ == JsonV::Object(Seq::empty()),
{
    let r = Json::object(Vec::new());
    assert(r@->Object_0 =~= Seq::<(Seq<char>, JsonV)>::empty());
    r
}

/// The error of a navigation whose load event did not come in time.
pub fn page_load_timeout() -> (r: PlaywLeftError)
    ensures
        r matches PlaywLeftError::Timeout(m) && m@ == "Page load timed out"@,
{
    PlaywLeftError::Timeout("Page load timed out".to_string())
}

/// The error of a content change whose load event did not come in time.
pub fn set_content_timeout() -> (r: PlaywLeftError)
    ensures
        r matches PlaywLeftError::Timeout(m) && m@ == "set_content load timed out"@,
{
    PlaywLeftError::Timeout("set_content load timed out".to_string())
}

/// A key event carrying the text it types.
pub open spec fn text_key_event(kind: Seq<char>, c: char) -> JsonV {
    JsonV::Object(seq![("type"@, JsonV::Str(kind)), ("text"@, JsonV::Str(seq![c]))])
}

/// The `Input.dispatchKeyEvent` parameters that type a text: a key-down and
/// a key-up per character, in order.
pub open spec fn typing_events(text: Seq<char>) -> Seq<JsonV>
    decreases text.len(),
{
    if text.len() == 0 {
        Seq::empty()
    } else {
        typing_events(text.drop_last()).push(text_key_event("keyDown"@, text.last())).push(
            text_key_event("keyUp"@, text.last()),
        )
    }
}

/// A key event for a named key.
pub open spec fn named_key_event(kind: Seq<char>, key: Seq<char>) -> JsonV {
    JsonV::Object(seq![("type"@, JsonV::Str(kind)), ("key"@, JsonV::Str(key))])
}

fn text_key_event_json(kind: &str, c: char) -> (r: Json)
    ensures
        r@ == text_key_event(kind@, c),
{
    let t = char_string(c);
    let r = Json::object(
        vec![Json::member("type", Json::string(kind)), Json::member("text", Json::Str(t))],
    );
    assert(r@->Object_0 =~= text_key_event(kind@, c)->Object_0);
    r
}

/// The key events that type a text, one key-down and key-up per character.
pub fn typing_params(text: &str) -> (r: Vec<Json>)
    ensures
        values_model(r@) == typing_events(text@),
{
    let n = text.unicode_len();
    let mut out: Vec<Json> = Vec::new();
    let mut i: usize = 0;
    assert(text@.subrange(0, 0) =~= Seq::<char>::empty());
    assert(values_model(out@) =~= typing_events(text@.subrange(0, 0)));
    while i < n
        invariant
            n == text@.len(),
            0 <= i <= n,
            values_model(out@) == typing_events(text@.subrange(0, i as int)),
        decreases n - i,
    {
        let c = text.get_char(i);
        let ghost before = values_model(out@);
        out.push(text_key_event_json("keyDown", c));
        out.push(text_key_event_json("keyUp", c));
        let ghost nxt = text@.subrange(0, i + 1);
        assert(nxt.drop_last() =~= text@.subrange(0, i as int));
        assert(nxt.last() == c);
        assert(values_model(out@) =~= before.push(text_key_event("keyDown"@, c)).push(
            text_key_event("keyUp"@, c),
        ));
        i = i + 1;
    }
    assert(text@.subrange(0, n as int) =~= text@);
    out
}

/// The key events that press a named key: key-down, then key-up.
pub fn key_press_params(key: &str) -> (r: Vec<Json>)
    ensures
        values_model(r@) == seq![named_key_event("keyDown"@, key@), named_key_event("keyUp"@, key@)],
{
    let down = Json::object(
        vec![Json::member("type", Json::string("keyDown")), Json::member("key", Json::string(key))],
    );
    assert(down@->Object_0 =~= named_key_event("keyDown"@, key@)->Object_0);
    let up = Json::object(
        vec![Json::member("type", Json::string("keyUp")), Json::member("key", Json::string(key))],
    );
    assert(up@->Object_0 =~= named_key_event("keyUp"@, key@)->Object_0);
    let r = vec![down, up];
    assert(values_model(r@) =~= seq![
        named_key_event("keyDown"@, key@),
        named_key_event("keyUp"@, key@),
    ]);
    r
}

} // verus!

verus! {

/// Typing a text in two parts sends the same key events as typing it whole.
pub proof fn law_typing_splits(a: Seq<char>, b: Seq<char>)
    ensures
        typing_events(a + b) == typing_events(a) + typing_events(b),
    decreases b.len(),
{
    if b.len() == 0 {
        assert(a + b =~= a);
        assert(typing_events(a) + typing_events(b) =~= typing_events(a));
    } else {
        law_typing_splits(a, b.drop_last());
        assert((a + b).drop_last() =~= a + b.drop_last());
        assert((a + b).last() == b.last());
        assert(typing_events(a + b) =~= typing_events(a) + typing_events(b));
    }
}

/// Typing a text sends two key events per character: a key-down and then a
/// key-up, both carrying that character.
pub proof fn law_typing_two_events_per_char(text: Seq<char>, i: int)
    requires
        0 <= i < text.len(),
    ensures
        typing_events(text).len() == 2 * text.len(),
        typing_events(text)[2 * i] == text_key_event("keyDown"@, text[i]),
        typing_events(text)[2 * i + 1] == text_key_event("keyUp"@, text[i]),
    decreases text.len(),
{
    lemma_typing_len(text);
    if i < text.len() - 1 {
        law_typing_two_events_per_char(text.drop_last(), i);
    }
}

proof fn lemma_typing_len(text: Seq<char>)
    ensures
        typing_events(text).len() == 2 * text.len(),
    decreases text.len(),
{
    if text.len() > 0 {
        lemma_typing_len(text.drop_last());
    }
}

} // verus!

verus! {

/// Going back and then forward returns to the entry one started on: where a
/// history has an entry before its current one and its current entry
/// exists, going forward from the same history one entry earlier reaches
/// the current entry (and does not overflow).
pub proof fn law_back_then_forward(nav: JsonV, earlier: JsonV)
    requires
        back_entry(nav) is Some,
        nav.at("entries"@).as_array() matches Some(entries) && history_index(nav) < entries.len(),
        earlier.at("entries"@) == nav.at("entries"@),
        history_index(earlier) == history_index(nav) - 1,
    ensures
        !forward_overflows(earlier),
        forward_entry(earlier) == Some(
            entry_id(nav.at("entries"@).as_array()->Some_0[history_index(nav)]),
        ),
{
}

/// Going forward and then back returns to the entry one started on: where a
/// history has an entry after its current one, going back from the same
/// history one entry later reaches the current entry.
pub proof fn law_forward_then_back(nav: JsonV, later: JsonV)
    requires
        forward_entry(nav) is Some,
        later.at("entries"@) == nav.at("entries"@),
        history_index(later) == history_index(nav) + 1,
    ensures
        back_entry(later) == Some(
            entry_id(nav.at("entries"@).as_array()->Some_0[history_index(nav)]),
        ),
{
}

} // verus!
