//! Element handle logic.
//!
//! An element is a reference to a DOM node by its CDP remote object id.
//! Every element operation is a `Runtime.callFunctionOn` on that object;
//! the requests and the reading of their results are built here.
use vstd::prelude::*;

use crate::json::{json_string_literal, quoted, values_model, Json, JsonV};
use crate::page::frame::call_arguments_spec;
use crate::text::concat3;

verus! {

/// The model of an [`Element`].
pub struct ElementView {
    pub object_id: Seq<char>,
    pub selector: Seq<char>,
}

/// A handle to a DOM element in the browser.
#[derive(Debug, Clone, PartialEq)]
pub struct Element {
    object_id: String,
    selector: String,
}

/// What an attribute read gives back.
#[derive(Debug, Clone, PartialEq)]
pub enum AttributeValue {
    /// The element has no such attribute (`null`).
    Missing,
    /// The attribute's text.
    Text(String),
    /// Any other value, which the caller renders as JSON text.
    Other(Json),
}

impl View for Element {
    type V = ElementView;

    closed spec fn view(&self) -> ElementView {
        ElementView { object_id: self.object_id@, selector: self.selector@ }
    }
}

/// The parameters of `Runtime.callFunctionOn` that calls a function on an
/// object with arguments and returns the value.
pub open spec fn call_on_params_spec(object_id: Seq<char>, function: Seq<char>, args: Seq<JsonV>) -> JsonV {
    JsonV::Object(
        seq![
            ("functionDeclaration"@, JsonV::Str(function)),
            ("objectId"@, JsonV::Str(object_id)),
            ("arguments"@, call_arguments_spec(args)),
            ("returnByValue"@, JsonV::Bool(true)),
            ("awaitPromise"@, JsonV::Bool(true)),
        ],
    )
}

/// The parameters of `Runtime.callFunctionOn` that calls a function on an
/// object and returns a remote object handle.
pub open spec fn sub_query_params_spec(object_id: Seq<char>, function: Seq<char>) -> JsonV {
    JsonV::Object(
        seq![
            ("functionDeclaration"@, JsonV::Str(function)),
            ("objectId"@, JsonV::Str(object_id)),
            ("returnByValue"@, JsonV::Bool(false)),
        ],
    )
}

impl Element {
    /// Create a new Element handle.
    pub fn new(object_id: String, selector: String) -> (r: Element)
        ensures
            r@ == (ElementView { object_id: object_id@, selector: selector@ }),
    {
        Element { object_id, selector }
    }

    /// Get the remote object ID.
    pub fn object_id(&self) -> (r: &str)
        ensures
            r@ == self@.object_id,
    {
        self.object_id.as_str()
    }

    /// Get the selector that was used to find this element.
    pub fn selector(&self) -> (r: &str)
        ensures
            r@ == self@.selector,
    {
        self.selector.as_str()
    }

    /// The parameters that call a function on this element with arguments.
    pub fn call_params(&self, function: &str, args: Vec<Json>) -> (r: Json)
        ensures
            r@ == call_on_params_spec(self@.object_id, function@, values_model(args@)),
    {
        let arguments = crate::page::frame::call_arguments(args);
        let r = Json::object(
            vec![
                Json::member("functionDeclaration", Json::string(function)),
                Json::member("objectId", Json::string(self.object_id.as_str())),
                Json::member("arguments", arguments),
                Json::member("returnByValue", Json::Bool(true)),
                Json::member("awaitPromise", Json::Bool(true)),
            ],
        );
        assert(r@->Object_0 =~= call_on_params_spec(
            self@.object_id,
            function@,
            values_model(args@),
        )->Object_0);
        r
    }

    /// The parameters that run a query function on this element and return
    /// a handle to its result.
    pub fn sub_query_params(&self, function: &str) -> (r: Json)
        ensures
            r@ == sub_query_params_spec(self@.object_id, function@),
    {
        let r = Json::object(
            vec![
                Json::member("functionDeclaration", Json::string(function)),
                Json::member("objectId", Json::string(self.object_id.as_str())),
                Json::member("returnByValue", Json::Bool(false)),
            ],
        );
        assert(r@->Object_0 =~= sub_query_params_spec(self@.object_id, function@)->Object_0);
        r
    }
}

/// The function that reads an attribute of an element.
pub fn attribute_function(name: &str) -> (r: String)
    ensures
        r@ == "function() { return this.getAttribute("@ + json_string_literal(name@) + "); }"@,
{
    let q = quoted(name);
    concat3("function() { return this.getAttribute(", q.as_str(), "); }")
}

/// The function that finds the first descendant matching a selector.
pub fn child_query_function(selector: &str) -> (r: String)
    ensures
        r@ == "function() { return this.querySelector("@ + json_string_literal(selector@) + "); }"@,
{
    let q = quoted(selector);
    concat3("function() { return this.querySelector(", q.as_str(), "); }")
}

/// The function that finds every descendant matching a selector, as an
/// array.
pub fn child_query_all_function(selector: &str) -> (r: String)
    ensures
        r@ == "function() { return Array.from(this.querySelectorAll("@ + json_string_literal(
            selector@,
        ) + ")); }"@,
{
    let q = quoted(selector);
    concat3("function() { return Array.from(this.querySelectorAll(", q.as_str(), ")); }")
}

/// How an attribute read's value reads: `null` is a missing attribute, a
/// string is its text, anything else is kept for rendering.
pub fn attribute_value(value: Json) -> (r: AttributeValue)
    ensures
        match value@ {
            JsonV::Null => r is Missing,
            JsonV::Str(s) => r matches AttributeValue::Text(t) && t@ == s,
            _ => r matches AttributeValue::Other(j) && j@ == value@,
        },
{
    match value {
        Json::Null => AttributeValue::Missing,
        Json::Str(s) => AttributeValue::Text(s),
        other => AttributeValue::Other(other),
    }
}

/// A boolean result, or `default` for any other value.
pub fn flag_or(value: &Json, default: bool) -> (r: bool)
    ensures
        r == match value@.as_bool() {
            Some(b) => b,
            None => default,
        },
{
    match value.as_bool() {
        Some(b) => b,
        None => default,
    }
}

/// Whether checking (`want` true) or unchecking (`want` false) a checkbox
/// in state `checked` takes a click.
pub fn toggle_needed(checked: bool, want: bool) -> (r: bool)
    ensures
        r == (checked != want),
{
    checked != want
}

} // verus!
