//! Browser and browser-context decisions: the Target, Storage, Browser and
//! Network domain requests they send and the replies they read.
use vstd::prelude::*;

use crate::error::PlaywLeftError;
use crate::json::{members_model, opt_member, values_model, Json, JsonNumber, JsonV};
use crate::network::headers::pairs_view;
use crate::protocol::types::{opt_view, TargetInfo};
use crate::text::{str_eq, strings_view};

verus! {

/// The reply's string under `key`, or a protocol error (code -1) with the
/// given message where it has none.
pub open spec fn required_id(result: JsonV, key: Seq<char>, message: Seq<char>) -> Result<
    Seq<char>,
    Seq<char>,
> {
    match result.at(key).as_str() {
        Some(s) => Ok(s),
        None => Err(message),
    }
}

fn required_string(result: &Json, key: &str, message: &str) -> (r: Result<String, PlaywLeftError>)
    ensures
        match required_id(result@, key@, message@) {
            Ok(s) => r matches Ok(t) && t@ == s,
            Err(m) => r matches Err(PlaywLeftError::ProtocolError { code, message: e }) && code
                == -1 && e@ == m,
        },
{
    match result.str_at(key) {
        Some(s) => Ok(s.to_string()),
        None => Err(PlaywLeftError::protocol(-1, message)),
    }
}

/// The parameters of `Target.setDiscoverTargets` that turns discovery on.
pub fn discover_targets_params() -> (r: Json)
    ensures
        r@ == JsonV::Object(seq![("discover"@, JsonV::Bool(true))]),
{
    let r = Json::object(vec![Json::member("discover", Json::Bool(true))]);
    assert(r@->Object_0 =~= seq![("discover"@, JsonV::Bool(true))]);
    r
}

/// The parameters of `Target.createBrowserContext`: the context goes away
/// when its creator detaches.
pub fn create_context_params() -> (r: Json)
    ensures
        r@ == JsonV::Object(seq![("disposeOnDetach"@, JsonV::Bool(true))]),
{
    let r = Json::object(vec![Json::member("disposeOnDetach", Json::Bool(true))]);
    assert(r@->Object_0 =~= seq![("disposeOnDetach"@, JsonV::Bool(true))]);
    r
}

/// The new context's id from the reply to `Target.createBrowserContext`.
pub fn context_id_from(result: &Json) -> (r: Result<String, PlaywLeftError>)
    ensures
        match required_id(result@, "browserContextId"@, "No browserContextId in response"@) {
            Ok(s) => r matches Ok(t) && t@ == s,
            Err(m) => r matches Err(PlaywLeftError::ProtocolError { code, message }) && code == -1
                && message@ == m,
        },
{
    required_string(result, "browserContextId", "No browserContextId in response")
}

/// The strings among a list of values, in order.
pub open spec fn strings_among(items: Seq<JsonV>) -> Seq<Seq<char>>
    decreases items.len(),
{
    if items.len() == 0 {
        Seq::empty()
    } else {
        let rest = strings_among(items.drop_last());
        match items.last().as_str() {
            Some(s) => rest.push(s),
            None => rest,
        }
    }
}

/// The context ids from the reply to `Target.getBrowserContexts`: the
/// strings in `browserContextIds`, none where it is no array.
pub fn context_ids(result: &Json) -> (r: Vec<String>)
    ensures
        strings_view(r@) == strings_among(
            match result@.at("browserContextIds"@).as_array() {
                Some(a) => a,
                None => Seq::empty(),
            },
        ),
        strings_view(r@) == result@.at("browserContextIds"@).as_array().unwrap_or(Seq::empty()).filter(
            |v: JsonV| v is Str,
        ).map_values(|v: JsonV| v->Str_0),
{
    proof {
        law_strings_among_keeps_every_string(
            result@.at("browserContextIds"@).as_array().unwrap_or(Seq::empty()),
        );
    }
    let items = result.items_at("browserContextIds");
    let ghost all = values_model(items@);
    let mut out: Vec<String> = Vec::new();
    let mut i: usize = 0;
    assert(all.subrange(0, 0) =~= Seq::<JsonV>::empty());
    assert(strings_view(out@) =~= Seq::<Seq<char>>::empty());
    while i < items.len()
        invariant
            0 <= i <= items@.len(),
            all == values_model(items@),
            strings_view(out@) == strings_among(all.subrange(0, i as int)),
        decreases items@.len() - i,
    {
        let ghost nxt = all.subrange(0, i + 1);
        assert(nxt.drop_last() =~= all.subrange(0, i as int));
        assert(nxt.last() == items@[i as int]@);
        if let Some(s) = items[i].as_str() {
            let ghost before = strings_view(out@);
            out.push(s.to_string());
            assert(strings_view(out@) =~= before.push(s@));
        }
        i = i + 1;
    }
    assert(all.subrange(0, items@.len() as int) =~= all);
    out
}

/// The target descriptions from the reply to `Target.getTargets`, not yet
/// decoded: the items of `targetInfos`, none where it is no array.
pub fn target_entries(result: &Json) -> (r: Vec<Json>)
    ensures
        values_model(r@) == match result@.at("targetInfos"@).as_array() {
            Some(a) => a,
            None => Seq::empty(),
        },
{
    result.items_at("targetInfos")
}

/// The cookies from the reply to `Storage.getCookies`, not yet decoded: the
/// items of `cookies`, none where it is no array.
pub fn cookie_entries(result: &Json) -> (r: Vec<Json>)
    ensures
        values_model(r@) == match result@.at("cookies"@).as_array() {
            Some(a) => a,
            None => Seq::empty(),
        },
{
    result.items_at("cookies")
}

/// The parameters of `Target.createTarget` that opens a blank page in a
/// context.
pub fn create_target_params(context_id: &str) -> (r: Json)
    ensures
        r@ == JsonV::Object(
            seq![
                ("url"@, JsonV::Str("about:blank"@)),
                ("browserContextId"@, JsonV::Str(context_id@)),
            ],
        ),
{
    let r = Json::object(
        vec![
            Json::member("url", Json::string("about:blank")),
            Json::member("browserContextId", Json::string(context_id)),
        ],
    );
    assert(r@->Object_0 =~= seq![
        ("url"@, JsonV::Str("about:blank"@)),
        ("browserContextId"@, JsonV::Str(context_id@)),
    ]);
    r
}

/// The new page's target id from the reply to `Target.createTarget`.
pub fn target_id_from(result: &Json) -> (r: Result<String, PlaywLeftError>)
    ensures
        match required_id(result@, "targetId"@, "No targetId in createTarget response"@) {
            Ok(s) => r matches Ok(t) && t@ == s,
            Err(m) => r matches Err(PlaywLeftError::ProtocolError { code, message }) && code == -1
                && message@ == m,
        },
{
    required_string(result, "targetId", "No targetId in createTarget response")
}

/// A target is a page of the given context.
pub open spec fn is_page_of(t: TargetInfo, context_id: Seq<char>) -> bool {
    t.target_type@ == "page"@ && opt_view(t.browser_context_id) == Some(context_id)
}

/// The targets among `targets` that are pages of a context, in order.
pub open spec fn pages_of(targets: Seq<TargetInfo>, context_id: Seq<char>) -> Seq<TargetInfo>
    decreases targets.len(),
{
    if targets.len() == 0 {
        Seq::empty()
    } else {
        let rest = pages_of(targets.drop_last(), context_id);
        if is_page_of(targets.last(), context_id) {
            rest.push(targets.last())
        } else {
            rest
        }
    }
}

/// The pages of a context among all targets.
pub fn pages_in_context(targets: Vec<TargetInfo>, context_id: &str) -> (r: Vec<TargetInfo>)
    ensures
        r@ == pages_of(targets@, context_id@),
        r@ == targets@.filter(
            |t: TargetInfo| t.target_type@ == "page"@ && opt_view(t.browser_context_id) == Some(context_id@),
        ),
{
    proof {
        law_context_pages_are_its_page_targets(targets@, context_id@);
    }
    let ghost all = targets@;
    let n = targets.len();
    let mut rest = targets;
    let mut out: Vec<TargetInfo> = Vec::new();
    let mut i: usize = 0;
    assert(all.subrange(0, 0) =~= Seq::<TargetInfo>::empty());
    while i < n
        invariant
            n == all.len(),
            0 <= i <= n,
            rest@ =~= all.subrange(i as int, n as int),
            out@ == pages_of(all.subrange(0, i as int), context_id@),
        decreases n - i,
    {
        let t = rest.remove(0);
        let ghost nxt = all.subrange(0, i + 1);
        assert(nxt.drop_last() =~= all.subrange(0, i as int));
        assert(t == all[i as int]);
        let same_context = match &t.browser_context_id {
            Some(c) => str_eq(c.as_str(), context_id),
            None => false,
        };
        if str_eq(t.target_type.as_str(), "page") && same_context {
            out.push(t);
        }
        assert(rest@ =~= all.subrange(i + 1, n as int));
        i = i + 1;
    }
    assert(all.subrange(0, n as int) =~= all);
    out
}

/// The parameters that name a browser context (`Storage.clearCookies`,
/// `Target.disposeBrowserContext`).
pub fn context_params(context_id: &str) -> (r: Json)
    ensures
        r@ == JsonV::Object(seq![("browserContextId"@, JsonV::Str(context_id@))]),
{
    let r = Json::object(vec![Json::member("browserContextId", Json::string(context_id))]);
    assert(r@->Object_0 =~= seq![("browserContextId"@, JsonV::Str(context_id@))]);
    r
}

fn string_array(items: &Vec<String>) -> (r: Json)
    ensures
        r@ == JsonV::Array(Seq::new(items@.len(), |i: int| JsonV::Str(items@[i]@))),
{
    let mut out: Vec<Json> = Vec::new();
    let mut i: usize = 0;
    while i < items.len()
        invariant
            0 <= i <= items@.len(),
            out@.len() == i,
            forall|k: int| 0 <= k < i ==> (#[trigger] out@[k])@ == JsonV::Str(items@[k]@),
        decreases items@.len() - i,
    {
        out.push(Json::string(items[i].as_str()));
        i = i + 1;
    }
    let r = Json::array(out);
    assert(values_model(out@) =~= Seq::new(items@.len(), |i: int| JsonV::Str(items@[i]@)));
    r
}

/// The JSON array of a list of strings.
pub open spec fn string_list(items: Seq<Seq<char>>) -> JsonV {
    JsonV::Array(Seq::new(items.len(), |i: int| JsonV::Str(items[i])))
}

/// The parameters of `Storage.getCookies` for a context, limited to the
/// given URLs where there are some.
pub fn cookie_query_params(context_id: &str, urls: Option<&Vec<String>>) -> (r: Json)
    ensures
        r@ == JsonV::Object(
            seq![("browserContextId"@, JsonV::Str(context_id@))] + opt_member(
                "urls"@,
                match urls {
                    Some(u) => Some(string_list(strings_view(u@))),
                    None => None,
                },
            ),
        ),
{
    let mut fields: Vec<(String, Json)> = Vec::new();
    Json::push_member(&mut fields, "browserContextId", Json::string(context_id));
    let ghost m0 = members_model(fields@);
    if let Some(u) = urls {
        let list = string_array(u);
        assert(list@ == string_list(strings_view(u@))) by {
            assert(list@->Array_0 =~= string_list(strings_view(u@))->Array_0);
        }
        Json::push_member(&mut fields, "urls", list);
    }
    proof {
        assert(m0 =~= seq![("browserContextId"@, JsonV::Str(context_id@))]);
        assert(members_model(fields@) =~= m0 + opt_member(
            "urls"@,
            match urls {
                Some(u) => Some(string_list(strings_view(u@))),
                None => None,
            },
        ));
    }
    Json::object(fields)
}

/// The parameters of `Storage.setCookies` for a context.
pub fn set_cookies_params(cookies: Vec<Json>, context_id: &str) -> (r: Json)
    ensures
        r@ == JsonV::Object(
            seq![
                ("cookies"@, JsonV::Array(values_model(cookies@))),
                ("browserContextId"@, JsonV::Str(context_id@)),
            ],
        ),
{
    let ghost cv = values_model(cookies@);
    let list = Json::array(cookies);
    let r = Json::object(
        vec![Json::member("cookies", list), Json::member("browserContextId", Json::string(context_id))],
    );
    assert(r@->Object_0 =~= seq![
        ("cookies"@, JsonV::Array(cv)),
        ("browserContextId"@, JsonV::Str(context_id@)),
    ]);
    r
}

/// The parameters of `Browser.grantPermissions` for a context, limited to
/// an origin where one is given.
pub fn permissions_params(permissions: &Vec<String>, context_id: &str, origin: Option<&str>) -> (r:
    Json)
    ensures
        r@ == JsonV::Object(
            seq![
                ("permissions"@, string_list(strings_view(permissions@))),
                ("browserContextId"@, JsonV::Str(context_id@)),
            ] + opt_member(
                "origin"@,
                match origin {
                    Some(o) => Some(JsonV::Str(o@)),
                    None => None,
                },
            ),
        ),
{
    let list = string_array(permissions);
    assert(list@ == string_list(strings_view(permissions@))) by {
        assert(list@->Array_0 =~= string_list(strings_view(permissions@))->Array_0);
    }
    let mut fields: Vec<(String, Json)> = Vec::new();
    Json::push_member(&mut fields, "permissions", list);
    Json::push_member(&mut fields, "browserContextId", Json::string(context_id));
    let ghost m0 = members_model(fields@);
    if let Some(o) = origin {
        Json::push_member(&mut fields, "origin", Json::string(o));
    }
    proof {
        assert(m0 =~= seq![
            ("permissions"@, string_list(strings_view(permissions@))),
            ("browserContextId"@, JsonV::Str(context_id@)),
        ]);
        assert(members_model(fields@) =~= m0 + opt_member(
            "origin"@,
            match origin {
                Some(o) => Some(JsonV::Str(o@)),
                None => None,
            },
        ));
    }
    Json::object(fields)
}

/// The parameters of `Network.emulateNetworkConditions` that turn offline
/// mode on or off, with no added latency and unthrottled throughput.
pub fn offline_params(offline: bool) -> (r: Json)
    ensures
        r@ == JsonV::Object(
            seq![
                ("offline"@, JsonV::Bool(offline)),
                ("latency"@, JsonV::Number(JsonNumber::PosInt(0))),
                ("downloadThroughput"@, JsonV::Number(JsonNumber::NegInt(-1i64))),
                ("uploadThroughput"@, JsonV::Number(JsonNumber::NegInt(-1i64))),
            ],
        ),
{
    let r = Json::object(
        vec![
            Json::member("offline", Json::Bool(offline)),
            Json::member("latency", Json::uint(0)),
            Json::member("downloadThroughput", Json::signed(-1)),
            Json::member("uploadThroughput", Json::signed(-1)),
        ],
    );
    assert(r@->Object_0 =~= seq![
        ("offline"@, JsonV::Bool(offline)),
        ("latency"@, JsonV::Number(JsonNumber::PosInt(0))),
        ("downloadThroughput"@, JsonV::Number(JsonNumber::NegInt(-1i64))),
        ("uploadThroughput"@, JsonV::Number(JsonNumber::NegInt(-1i64))),
    ]);
    r
}

/// The parameters of `Emulation.setGeolocationOverride`. The coordinates
/// and the accuracy are floating-point numbers, given by their bit
/// patterns; without an accuracy it is 0.0, whose bit pattern is 0.
pub fn geolocation_params(latitude_bits: u64, longitude_bits: u64, accuracy_bits: Option<u64>) -> (r: Json)
    ensures
        r@ == JsonV::Object(
            seq![
                ("latitude"@, JsonV::Number(JsonNumber::Float(latitude_bits))),
                ("longitude"@, JsonV::Number(JsonNumber::Float(longitude_bits))),
                ("accuracy"@, JsonV::Number(JsonNumber::Float(accuracy_bits.unwrap_or(0u64)))),
            ],
        ),
{
    let accuracy: u64 = match accuracy_bits {
        Some(a) => a,
        None => 0,
    };
    let ghost expected = JsonV::Object(
        seq![
            ("latitude"@, JsonV::Number(JsonNumber::Float(latitude_bits))),
            ("longitude"@, JsonV::Number(JsonNumber::Float(longitude_bits))),
            ("accuracy"@, JsonV::Number(JsonNumber::Float(accuracy))),
        ],
    );
    let r = Json::object(
        vec![
            Json::member("latitude", Json::Number(JsonNumber::Float(latitude_bits))),
            Json::member("longitude", Json::Number(JsonNumber::Float(longitude_bits))),
            Json::member("accuracy", Json::Number(JsonNumber::Float(accuracy))),
        ],
    );
    assert(r@->Object_0 =~= seq![
        ("latitude"@, JsonV::Number(JsonNumber::Float(latitude_bits))),
        ("longitude"@, JsonV::Number(JsonNumber::Float(longitude_bits))),
        ("accuracy"@, JsonV::Number(JsonNumber::Float(accuracy))),
    ]);
    assert(r@ == expected);
    assert(accuracy == accuracy_bits.unwrap_or(0u64));
    assert(expected->Object_0 =~= (
        seq![
            ("latitude"@, JsonV::Number(JsonNumber::Float(latitude_bits))),
            ("longitude"@, JsonV::Number(JsonNumber::Float(longitude_bits))),
            ("accuracy"@, JsonV::Number(JsonNumber::Float(accuracy_bits.unwrap_or(0u64)))),
        ]));
    r
}

/// The header object of `Network.setExtraHTTPHeaders`: one string member
/// per header, in order.
pub open spec fn header_object(h: Seq<(Seq<char>, Seq<char>)>) -> JsonV {
    JsonV::Object(Seq::new(h.len(), |i: int| (h[i].0, JsonV::Str(h[i].1))))
}

/// The parameters of `Network.setExtraHTTPHeaders`, which makes every
/// request of a page carry these headers.
pub fn extra_headers_params(headers: &Vec<(String, String)>) -> (r: Json)
    ensures
        r@ == JsonV::Object(seq![("headers"@, header_object(pairs_view(headers@)))]),
{
    let mut fields: Vec<(String, Json)> = Vec::new();
    let mut i: usize = 0;
    while i < headers.len()
        invariant
            0 <= i <= headers@.len(),
            members_model(fields@) == header_object(pairs_view(headers@.subrange(0, i as int)))->Object_0,
        decreases headers@.len() - i,
    {
        let ghost before = members_model(fields@);
        Json::push_member(&mut fields, headers[i].0.as_str(), Json::string(headers[i].1.as_str()));
        assert(members_model(fields@) =~= header_object(pairs_view(headers@.subrange(0, i + 1)))->Object_0);
        i = i + 1;
    }
    assert(headers@.subrange(0, headers@.len() as int) =~= headers@);
    let inner = Json::object(fields);
    let r = Json::object(vec![Json::member("headers", inner)]);
    assert(r@->Object_0 =~= seq![("headers"@, header_object(pairs_view(headers@)))]);
    r
}

/// The pages of a context are exactly the targets of type `page` whose
/// browser context is that context, in the order the targets were listed;
/// nothing else about a target (who opened it, its URL, its title) matters.
pub proof fn law_context_pages_are_its_page_targets(targets: Seq<TargetInfo>, context_id: Seq<char>)
    ensures
        pages_of(targets, context_id) == targets.filter(
            |t: TargetInfo| t.target_type@ == "page"@ && opt_view(t.browser_context_id) == Some(context_id),
        ),
        forall|t: TargetInfo|
            #[trigger] pages_of(targets, context_id).contains(t) <==> (targets.contains(t) && t.target_type@
                == "page"@ && opt_view(t.browser_context_id) == Some(context_id)),
    decreases targets.len(),
{
    let pred = |t: TargetInfo| t.target_type@ == "page"@ && opt_view(t.browser_context_id) == Some(context_id);
    reveal(Seq::filter);
    if targets.len() > 0 {
        law_context_pages_are_its_page_targets(targets.drop_last(), context_id);
    }
    assert(pages_of(targets, context_id) == targets.filter(pred));
    targets.filter_lemma(pred);
    assert forall|t: TargetInfo| #[trigger] pages_of(targets, context_id).contains(t) <==> (targets.contains(t)
        && pred(t)) by {
        let out = targets.filter(pred);
        if out.contains(t) {
            let i = choose|i: int| 0 <= i < out.len() && out[i] == t;
            assert(pred(out[i]));
            lemma_filter_sub(targets, pred, i);
        }
        if targets.contains(t) && pred(t) {
            let i = choose|i: int| 0 <= i < targets.len() && targets[i] == t;
            assert(out.contains(targets[i]));
        }
    }
}

proof fn lemma_filter_sub<A>(s: Seq<A>, pred: spec_fn(A) -> bool, i: int)
    requires
        0 <= i < s.filter(pred).len(),
    ensures
        s.contains(s.filter(pred)[i]),
    decreases s.len(),
{
    reveal(Seq::filter);
    if s.len() > 0 {
        let sub = s.drop_last().filter(pred);
        if i < sub.len() {
            lemma_filter_sub(s.drop_last(), pred, i);
            let x = sub[i];
            let j = choose|j: int| 0 <= j < s.drop_last().len() && s.drop_last()[j] == x;
            assert(s[j] == x);
            if pred(s.last()) {
                assert(s.filter(pred)[i] == x);
            }
        } else {
            assert(s.filter(pred)[i] == s.last());
            assert(s[s.len() - 1] == s.last());
        }
    }
}

/// The strings among a list of values are exactly its string items, in
/// order: every item that is a string is kept, and nothing else.
pub proof fn law_strings_among_keeps_every_string(items: Seq<JsonV>)
    ensures
        strings_among(items) == items.filter(|v: JsonV| v is Str).map_values(|v: JsonV| v->Str_0),
    decreases items.len(),
{
    let pred = |v: JsonV| v is Str;
    let f = |v: JsonV| v->Str_0;
    reveal(Seq::filter);
    if items.len() > 0 {
        law_strings_among_keeps_every_string(items.drop_last());
        let sub = items.drop_last().filter(pred);
        if pred(items.last()) {
            assert(sub.push(items.last()).map_values(f) =~= sub.map_values(f).push(f(items.last())));
        }
    } else {
        assert(items.filter(pred).map_values(f) =~= Seq::<Seq<char>>::empty());
    }
}

} // verus!
