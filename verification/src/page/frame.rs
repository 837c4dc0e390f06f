//! Frame logic: JavaScript evaluation requests and their outcomes, selector
//! queries and the element handles they yield.
use vstd::prelude::*;

use crate::error::PlaywLeftError;
use crate::json::{json_string_literal, members_model, quoted, values_model, Json, JsonNumber, JsonV};
use crate::network::request::str_or;
use crate::protocol::types::{opt_view, RemoteObject};
use crate::text::{concat, concat3, decimal, parse_usize, parse_usize_str, str_eq, u64_to_decimal, unsigned_digits};

verus! {

/// The model of a [`Frame`].
pub struct FrameView {
    pub id: Seq<char>,
    pub url: Seq<char>,
    pub name: Option<Seq<char>>,
    pub parent_id: Option<Seq<char>>,
}

/// Represents a frame within a page (main frame or iframe).
///
/// Frames provide the execution context for JavaScript and DOM operations.
#[derive(Debug, Clone, PartialEq)]
pub struct Frame {
    frame_id: String,
    url: String,
    name: Option<String>,
    parent_frame_id: Option<String>,
}

impl View for Frame {
    type V = FrameView;

    closed spec fn view(&self) -> FrameView {
        FrameView {
            id: self.frame_id@,
            url: self.url@,
            name: opt_view(self.name),
            parent_id: opt_view(self.parent_frame_id),
        }
    }
}

impl Frame {
    /// Create a new Frame.
    pub fn new(frame_id: String, url: String, name: Option<String>, parent_frame_id: Option<String>) -> (r:
        Frame)
        ensures
            r@ == (FrameView {
                id: frame_id@,
                url: url@,
                name: opt_view(name),
                parent_id: opt_view(parent_frame_id),
            }),
    {
        Frame { frame_id, url, name, parent_frame_id }
    }

    /// Get the frame ID.
    pub fn id(&self) -> (r: &str)
        ensures
            r@ == self@.id,
    {
        self.frame_id.as_str()
    }

    /// Get the frame URL.
    pub fn url(&self) -> (r: &str)
        ensures
            r@ == self@.url,
    {
        self.url.as_str()
    }

    /// Get the frame name.
    pub fn name(&self) -> (r: Option<&str>)
        ensures
            match r {
                Some(s) => self@.name == Some(s@),
                None => self@.name is None,
            },
    {
        match &self.name {
            Some(s) => Some(s.as_str()),
            None => None,
        }
    }

    /// Whether this is the main (root) frame.
    pub fn is_main_frame(&self) -> (r: bool)
        ensures
            r == self@.parent_id is None,
    {
        self.parent_frame_id.is_none()
    }
}

/// The parameters of `Runtime.evaluate` that evaluates an expression and
/// returns its value.
pub open spec fn evaluate_params_spec(expression: Seq<char>) -> JsonV {
    JsonV::Object(
        seq![
            ("expression"@, JsonV::Str(expression)),
            ("returnByValue"@, JsonV::Bool(true)),
            ("awaitPromise"@, JsonV::Bool(true)),
        ],
    )
}

/// The call arguments that pass values to a function: one `{"value": v}`
/// object per value.
pub open spec fn call_arguments_spec(args: Seq<JsonV>) -> JsonV {
    JsonV::Array(Seq::new(args.len(), |i: int| JsonV::Object(seq![("value"@, args[i])])))
}

/// The parameters of `Runtime.callFunctionOn` that calls a function with
/// arguments in the page's first execution context.
pub open spec fn function_params_spec(function: Seq<char>, args: Seq<JsonV>) -> JsonV {
    JsonV::Object(
        seq![
            ("functionDeclaration"@, JsonV::Str(function)),
            ("arguments"@, call_arguments_spec(args)),
            ("returnByValue"@, JsonV::Bool(true)),
            ("awaitPromise"@, JsonV::Bool(true)),
            ("executionContextId"@, JsonV::Number(JsonNumber::PosInt(1))),
        ],
    )
}

/// The message of an evaluation that threw: the exception's description,
/// else the details' text, else `Unknown error`.
pub open spec fn thrown_message(details: JsonV) -> Seq<char> {
    let text = str_or(details.at("text"@).as_str(), "Unknown error"@);
    match details.get("exception"@) {
        Some(e) => str_or(e.at("description"@).as_str(), text),
        None => text,
    }
}

/// The message of a function call that threw: the details' text, else
/// `Unknown error`.
pub open spec fn call_thrown_message(details: JsonV) -> Seq<char> {
    str_or(details.at("text"@).as_str(), "Unknown error"@)
}

/// The element handle of a query's result: its object id, unless the result
/// is `null` or has no id.
pub open spec fn handle_of(remote: RemoteObject) -> Option<Seq<char>> {
    if opt_view(remote.subtype) == Some("null"@) {
        None
    } else {
        opt_view(remote.object_id)
    }
}

/// The element handles among an array's own properties: each property whose
/// name parses as an index and whose value has an object id gives that id
/// and the selector `selector[name]`, in property order.
pub open spec fn indexed_handles(selector: Seq<char>, props: JsonV) -> Seq<(Seq<char>, Seq<char>)>
    decreases props.at("result"@).as_array().unwrap_or(Seq::empty()).len(),
{
    handles_in(selector, props.at("result"@).as_array().unwrap_or(Seq::empty()))
}

/// The handles that a list of properties gives (see [`indexed_handles`]).
pub open spec fn handles_in(selector: Seq<char>, items: Seq<JsonV>) -> Seq<(Seq<char>, Seq<char>)>
    decreases items.len(),
{
    if items.len() == 0 {
        Seq::empty()
    } else {
        let rest = handles_in(selector, items.drop_last());
        let prop = items.last();
        let name = str_or(prop.at("name"@).as_str(), ""@);
        match prop.at("value"@).at("objectId"@).as_str() {
            Some(oid) => if parse_usize(name) is Some {
                rest.push((oid, selector + "["@ + name + "]"@))
            } else {
                rest
            },
            None => rest,
        }
    }
}

/// The parameters of `Runtime.evaluate` that evaluates an expression.
pub fn evaluate_params(expression: &str) -> (r: Json)
    ensures
        r@ == evaluate_params_spec(expression@),
{
    let r = Json::object(
        vec![
            Json::member("expression", Json::string(expression)),
            Json::member("returnByValue", Json::Bool(true)),
            Json::member("awaitPromise", Json::Bool(true)),
        ],
    );
    assert(r@->Object_0 =~= evaluate_params_spec(expression@)->Object_0);
    r
}

/// The call arguments for a list of values.
pub fn call_arguments(args: Vec<Json>) -> (r: Json)
    ensures
        r@ == call_arguments_spec(values_model(args@)),
{
    let mut items: Vec<Json> = Vec::new();
    let mut i: usize = 0;
    let n = args.len();
    let mut rest = args;
    let ghost all = args@;
    while i < n
        invariant
            n == all.len(),
            0 <= i <= all.len(),
            rest@.len() == all.len() - i,
            forall|k: int| 0 <= k < rest@.len() ==> #[trigger] rest@[k] == all[i + k],
            items@.len() == i,
            forall|k: int|
                0 <= k < i ==> (#[trigger] items@[k])@ == JsonV::Object(
                    seq![("value"@, all[k]@)],
                ),
        decreases all.len() - i,
    {
        let v = rest.remove(0);
        let item = Json::object(vec![Json::member("value", v)]);
        assert(item@->Object_0 =~= seq![("value"@, all[i as int]@)]);
        items.push(item);
        i = i + 1;
    }
    let r = Json::array(items);
    assert(values_model(items@) =~= call_arguments_spec(values_model(all))->Array_0);
    r
}

/// The parameters of `Runtime.callFunctionOn` that calls a function with
/// arguments.
pub fn function_params(function: &str, args: Vec<Json>) -> (r: Json)
    ensures
        r@ == function_params_spec(function@, values_model(args@)),
{
    let arguments = call_arguments(args);
    let r = Json::object(
        vec![
            Json::member("functionDeclaration", Json::string(function)),
            Json::member("arguments", arguments),
            Json::member("returnByValue", Json::Bool(true)),
            Json::member("awaitPromise", Json::Bool(true)),
            Json::member("executionContextId", Json::uint(1)),
        ],
    );
    assert(r@->Object_0 =~= function_params_spec(function@, values_model(args@))->Object_0);
    r
}

/// The error of an evaluation whose reply reports an exception
/// (`exceptionDetails`), or `None` where it reports none.
pub fn evaluation_error(result: &Json) -> (r: Option<PlaywLeftError>)
    ensures
        match result@.get("exceptionDetails"@) {
            Some(d) => r matches Some(PlaywLeftError::EvaluationError(m)) && m@ == thrown_message(
                d,
            ),
            None => r is None,
        },
{
    match result.get("exceptionDetails") {
        Some(details) => {
            let text: &str = match details.str_at("text") {
                Some(t) => t,
                None => "Unknown error",
            };
            let message: &str = match details.get("exception") {
                Some(e) => match e.str_at("description") {
                    Some(d) => d,
                    None => text,
                },
                None => text,
            };
            Some(PlaywLeftError::EvaluationError(message.to_string()))
        },
        None => None,
    }
}

/// The error of a function call whose reply reports an exception, or
/// `None` where it reports none.
pub fn call_error(result: &Json) -> (r: Option<PlaywLeftError>)
    ensures
        match result@.get("exceptionDetails"@) {
            Some(d) => r matches Some(PlaywLeftError::EvaluationError(m)) && m@
                == call_thrown_message(d),
            None => r is None,
        },
{
    match result.get("exceptionDetails") {
        Some(details) => {
            let text: &str = match details.str_at("text") {
                Some(t) => t,
                None => "Unknown error",
            };
            Some(PlaywLeftError::EvaluationError(text.to_string()))
        },
        None => None,
    }
}

/// The remote object part of an evaluation reply (`result`), `null` where
/// there is none.
pub fn remote_part(result: &Json) -> (r: Json)
    ensures
        r@ == result@.at("result"@),
{
    result.at("result")
}

/// A string result, or the empty string for any other value.
pub fn text_or_empty(value: &Json) -> (r: String)
    ensures
        r@ == str_or(value@.as_str(), ""@),
{
    match value.as_str() {
        Some(s) => s.to_string(),
        None => "".to_string(),
    }
}

/// The page content from evaluating `outerHTML`: a string, or an
/// evaluation error for any other value.
pub fn content_from(value: &Json) -> (r: Result<String, PlaywLeftError>)
    ensures
        match value@.as_str() {
            Some(s) => r matches Ok(t) && t@ == s,
            None => r matches Err(PlaywLeftError::EvaluationError(m)) && m@
                == "Failed to get page content"@,
        },
{
    match value.as_str() {
        Some(s) => Ok(s.to_string()),
        None => Err(PlaywLeftError::EvaluationError("Failed to get page content".to_string())),
    }
}

/// The expression that finds the first element matching a selector.
pub fn query_expression(selector: &str) -> (r: String)
    ensures
        r@ == "document.querySelector("@ + json_string_literal(selector@) + ")"@,
{
    let q = quoted(selector);
    concat3("document.querySelector(", q.as_str(), ")")
}

/// The expression that finds every element matching a selector, as an
/// array.
pub fn query_all_expression(selector: &str) -> (r: String)
    ensures
        r@ == "Array.from(document.querySelectorAll("@ + json_string_literal(selector@) + "))"@,
{
    let q = quoted(selector);
    concat3("Array.from(document.querySelectorAll(", q.as_str(), "))")
}

/// The parameters of `Runtime.evaluate` that evaluates a query and returns
/// a remote object handle.
pub fn query_params(expression: &str) -> (r: Json)
    ensures
        r@ == JsonV::Object(
            seq![("expression"@, JsonV::Str(expression@)), ("returnByValue"@, JsonV::Bool(false))],
        ),
{
    let r = Json::object(
        vec![
            Json::member("expression", Json::string(expression)),
            Json::member("returnByValue", Json::Bool(false)),
        ],
    );
    assert(r@->Object_0 =~= seq![
        ("expression"@, JsonV::Str(expression@)),
        ("returnByValue"@, JsonV::Bool(false)),
    ]);
    r
}

/// The element handle of a query's result.
pub fn element_handle(remote: &RemoteObject) -> (r: Option<String>)
    ensures
        opt_view(r) == handle_of(*remote),
{
    let is_null = match &remote.subtype {
        Some(s) => str_eq(s.as_str(), "null"),
        None => false,
    };
    if is_null {
        return None;
    }
    match &remote.object_id {
        Some(o) => Some(o.clone()),
        None => None,
    }
}

/// The parameters of `Runtime.getProperties` that lists an object's own
/// properties.
pub fn properties_params(object_id: &str) -> (r: Json)
    ensures
        r@ == JsonV::Object(
            seq![("objectId"@, JsonV::Str(object_id@)), ("ownProperties"@, JsonV::Bool(true))],
        ),
{
    let r = Json::object(
        vec![
            Json::member("objectId", Json::string(object_id)),
            Json::member("ownProperties", Json::Bool(true)),
        ],
    );
    assert(r@->Object_0 =~= seq![
        ("objectId"@, JsonV::Str(object_id@)),
        ("ownProperties"@, JsonV::Bool(true)),
    ]);
    r
}

/// The element handles (object id and selector) that the reply to
/// `Runtime.getProperties` of a query's result array lists.
pub fn indexed_elements(selector: &str, props: &Json) -> (r: Vec<(String, String)>)
    ensures
        crate::network::headers::pairs_view(r@) == indexed_handles(selector@, props@),
        crate::network::headers::pairs_view(r@) == props@.at("result"@).as_array().unwrap_or(
            Seq::empty(),
        ).filter(|p: JsonV| is_element_property(p)).map_values(
            |p: JsonV| element_handle_of(selector@, p),
        ),
{
    proof {
        law_every_index_property_is_an_element(
            selector@,
            props@.at("result"@).as_array().unwrap_or(Seq::empty()),
        );
    }
    let mut out: Vec<(String, String)> = Vec::new();
    let list = props.at("result");
    let items: &Vec<Json> = match list.as_array() {
        Some(a) => a,
        None => {
            assert(crate::network::headers::pairs_view(out@) =~= indexed_handles(
                selector@,
                props@,
            ));
            return out;
        },
    };
    let ghost all = values_model(items@);
    assert(props@.at("result"@).as_array().unwrap_or(Seq::empty()) == all);
    let mut i: usize = 0;
    assert(all.subrange(0, 0) =~= Seq::<JsonV>::empty());
    while i < items.len()
        invariant
            0 <= i <= items@.len(),
            all == values_model(items@),
            crate::network::headers::pairs_view(out@) == handles_in(
                selector@,
                all.subrange(0, i as int),
            ),
        decreases items@.len() - i,
    {
        let prop = &items[i];
        let ghost pre = all.subrange(0, i as int);
        let ghost nxt = all.subrange(0, i + 1);
        assert(nxt.drop_last() =~= pre);
        assert(nxt.last() == prop@);
        let name: &str = match prop.str_at("name") {
            Some(n) => n,
            None => "",
        };
        let value = prop.at("value");
        match value.str_at("objectId") {
            Some(oid) => {
                if parse_usize_str(name).is_some() {
                    let sel = concat3(selector, "[", name);
                    let sel = concat(sel.as_str(), "]");
                    let ghost before = out@;
                    out.push((oid.to_string(), sel));
                    assert(crate::network::headers::pairs_view(out@) =~= crate::network::headers::pairs_view(
                        before,
                    ).push((oid@, selector@ + "["@ + name@ + "]"@)));
                }
            },
            None => {},
        }
        i = i + 1;
    }
    assert(all.subrange(0, items@.len() as int) =~= all);
    out
}

/// The message of a selector that did not appear in time.
pub fn selector_timeout_message(selector: &str, timeout_ms: u64) -> (r: String)
    ensures
        r@ == "Selector '"@ + selector@ + "' not found within "@ + decimal(timeout_ms as nat)
            + "ms"@,
{
    let mut r = concat3("Selector '", selector, "' not found within ");
    let digits = u64_to_decimal(timeout_ms);
    r.append(digits.as_str());
    r.append("ms");
    r
}

/// The handle of the array that a query for every match gives: its object
/// id, where it has one; without one there are no elements to list.
pub fn array_handle(remote: &RemoteObject) -> (r: Option<String>)
    ensures
        opt_view(r) == opt_view(remote.object_id),
{
    match &remote.object_id {
        Some(o) => Some(o.clone()),
        None => None,
    }
}

/// How long to wait between two queries while waiting for a selector (ms).
pub fn selector_poll_interval_ms() -> (r: u64)
    ensures
        r == 100,
{
    100
}

/// What waiting for a selector decides after each query: the element's
/// handle where the query found one; otherwise, once the deadline has
/// passed, a timeout error; otherwise `None`, to query again after the poll
/// interval.
pub fn selector_wait_step(handle: Option<String>, deadline_passed: bool, selector: &str, timeout_ms: u64) -> (r:
    Option<Result<String, PlaywLeftError>>)
    ensures
        match handle {
            Some(h) => r matches Some(Ok(x)) && x@ == h@,
            None => if deadline_passed {
                r matches Some(Err(PlaywLeftError::Timeout(m))) && m@ == "Selector '"@ + selector@
                    + "' not found within "@ + decimal(timeout_ms as nat) + "ms"@
            } else {
                r is None
            },
        },
{
    match handle {
        Some(h) => Some(Ok(h)),
        None => if deadline_passed {
            Some(Err(PlaywLeftError::Timeout(selector_timeout_message(selector, timeout_ms))))
        } else {
            None
        },
    }
}

/// An own property of a query's result array that is one of its elements:
/// its name parses as an index (`usize`) and its value has an object id.
pub open spec fn is_element_property(p: JsonV) -> bool {
    &&& p.at("name"@).as_str() matches Some(n) && parse_usize(n) is Some
    &&& p.at("value"@).at("objectId"@).as_str() is Some
}

/// The handle of such a property: its object id, and the selector with the
/// property's name as an index.
pub open spec fn element_handle_of(selector: Seq<char>, p: JsonV) -> (Seq<char>, Seq<char>) {
    (
        p.at("value"@).at("objectId"@).as_str()->Some_0,
        selector + "["@ + p.at("name"@).as_str()->Some_0 + "]"@,
    )
}

/// Every property whose name is an index and whose value has an object id
/// gives one element, whatever the index (one digit or many), and no other
/// property gives one; the elements keep the properties' order.
pub proof fn law_every_index_property_is_an_element(selector: Seq<char>, items: Seq<JsonV>)
    ensures
        handles_in(selector, items) == items.filter(|p: JsonV| is_element_property(p)).map_values(
            |p: JsonV| element_handle_of(selector, p),
        ),
        handles_in(selector, items).len() == items.filter(|p: JsonV| is_element_property(p)).len(),
    decreases items.len(),
{
    let pred = |p: JsonV| is_element_property(p);
    let f = |p: JsonV| element_handle_of(selector, p);
    reveal(Seq::filter);
    if items.len() > 0 {
        law_every_index_property_is_an_element(selector, items.drop_last());
        let sub = items.drop_last().filter(pred);
        let last = items.last();
        let name = str_or(last.at("name"@).as_str(), ""@);
        assert(parse_usize(""@) is None) by {
            reveal_strlit("");
            assert(""@.len() == 0);
            assert(unsigned_digits(""@) == ""@);
        }
        if pred(last) {
            assert(name == last.at("name"@).as_str()->Some_0);
            assert(handles_in(selector, items) == handles_in(selector, items.drop_last()).push(f(last)));
            assert(items.filter(pred) == sub.push(items.last()));
            assert(sub.push(items.last()).map_values(f) =~= sub.map_values(f).push(f(items.last())));
        } else {
            assert(handles_in(selector, items) == handles_in(selector, items.drop_last()));
            assert(items.filter(pred) == sub);
        }
    } else {
        assert(items.filter(pred).map_values(f) =~= Seq::<(Seq<char>, Seq<char>)>::empty());
    }
}

} // verus!
