//! CDP message types and domain definitions.
use vstd::prelude::*;

use crate::json::{Json, JsonNumber, JsonV};
use crate::text::str_eq;

verus! {

/// The model of an optional string.
pub open spec fn opt_view(o: Option<String>) -> Option<Seq<char>> {
    match o {
        Some(s) => Some(s@),
        None => None,
    }
}

/// A CDP request message sent to the browser.
#[derive(Debug, Clone, PartialEq)]
pub struct CdpCommand {
    pub id: u64,
    pub method: String,
    /// `Null` where the command has no parameters.
    pub params: Json,
    pub session_id: Option<String>,
}

/// CDP error structure returned on failed commands.
#[derive(Debug, Clone, PartialEq)]
pub struct CdpError {
    pub code: i64,
    pub message: String,
    pub data: Option<String>,
}

/// A CDP response message received from the browser.
#[derive(Debug, Clone, PartialEq)]
pub struct CdpResponse {
    pub id: Option<u64>,
    pub result: Option<Json>,
    pub error: Option<CdpError>,
    pub session_id: Option<String>,
    pub method: Option<String>,
    pub params: Option<Json>,
}

impl CdpResponse {
    /// A message without an id that names a method is an event.
    pub open spec fn spec_is_event(&self) -> bool {
        self.id is None && self.method is Some
    }

    /// A message with an id is the reply to a command.
    pub open spec fn spec_is_response(&self) -> bool {
        self.id is Some
    }

    /// Returns true if this is an event (no id field).
    #[verifier::when_used_as_spec(spec_is_event)]
    pub fn is_event(&self) -> (r: bool)
        ensures
            r == self.spec_is_event(),
            r == (self.id is None && self.method is Some),
    {
        self.id.is_none() && self.method.is_some()
    }

    /// Returns true if this is a command response.
    #[verifier::when_used_as_spec(spec_is_response)]
    pub fn is_response(&self) -> (r: bool)
        ensures
            r == self.spec_is_response(),
            r == (self.id is Some),
    {
        self.id.is_some()
    }
}

/// Browser version info from Browser.getVersion.
#[derive(Debug, Clone, PartialEq)]
pub struct BrowserVersion {
    pub protocol_version: String,
    pub product: String,
    pub revision: String,
    pub user_agent: String,
    pub js_version: String,
}

/// Target info from Target.getTargets / events.
#[derive(Debug, Clone, PartialEq)]
pub struct TargetInfo {
    pub target_id: String,
    pub target_type: String,
    pub title: String,
    pub url: String,
    pub attached: Option<bool>,
    pub browser_context_id: Option<String>,
    pub opener_id: Option<String>,
}

/// Frame info for page frames.
#[derive(Debug, Clone, PartialEq)]
pub struct FrameInfo {
    pub id: String,
    pub parent_id: Option<String>,
    pub loader_id: Option<String>,
    pub name: Option<String>,
    pub url: String,
    pub security_origin: Option<String>,
    pub mime_type: Option<String>,
}

/// Remote object from JavaScript evaluation.
#[derive(Debug, Clone, PartialEq)]
pub struct RemoteObject {
    pub object_type: String,
    pub subtype: Option<String>,
    pub class_name: Option<String>,
    pub value: Option<Json>,
    pub description: Option<String>,
    pub object_id: Option<String>,
    pub unserializable_value: Option<String>,
}

/// The JSON value that an unserializable JavaScript number becomes: the
/// non-finite numbers have no JSON form and become `null`, negative zero
/// becomes the integer 0, and any other text is kept as a string.
pub open spec fn unserializable_json(u: Seq<char>) -> JsonV {
    if u == "NaN"@ || u == "Infinity"@ || u == "-Infinity"@ {
        JsonV::Null
    } else if u == "-0"@ {
        JsonV::Number(JsonNumber::PosInt(0))
    } else {
        JsonV::Str(u)
    }
}

impl RemoteObject {
    /// The JSON value that a remote object stands for.
    pub open spec fn spec_value(self) -> JsonV {
        match self.value {
            Some(v) => v@,
            None => match self.unserializable_value {
                Some(u) => unserializable_json(u@),
                None => JsonV::Null,
            },
        }
    }

    /// Extract the value from this remote object as a JSON value.
    pub fn into_value(self) -> (r: Json)
        ensures
            r@ == self.spec_value(),
    {
        if let Some(val) = self.value {
            return val;
        }
        if let Some(unserializable) = self.unserializable_value {
            if str_eq(unserializable.as_str(), "NaN") || str_eq(unserializable.as_str(), "Infinity")
                || str_eq(unserializable.as_str(), "-Infinity") {
                return Json::Null;
            }
            if str_eq(unserializable.as_str(), "-0") {
                return Json::Number(JsonNumber::PosInt(0));
            }
            return Json::Str(unserializable);
        }
        Json::Null
    }
}

/// Exception details from Runtime.evaluate errors.
#[derive(Debug, Clone, PartialEq)]
pub struct ExceptionDetails {
    pub exception_id: i64,
    pub text: String,
    pub line_number: i64,
    pub column_number: i64,
    pub exception: Option<RemoteObject>,
}

/// Network request data from Network domain events.
///
/// The headers keep the members of the event's header object, in order;
/// no name occurs twice.
#[derive(Debug, Clone, PartialEq)]
pub struct NetworkRequest {
    pub request_id: String,
    pub loader_id: Option<String>,
    pub url: String,
    pub method: String,
    pub headers: Vec<(String, String)>,
    pub post_data: Option<String>,
    pub has_post_data: Option<bool>,
    pub initial_priority: Option<String>,
    pub referrer_policy: Option<String>,
}

/// Network response data from Network domain events.
///
/// The headers keep the members of the event's header object, in order;
/// no name occurs twice.
#[derive(Debug, Clone, PartialEq)]
pub struct NetworkResponse {
    pub url: String,
    pub status: u16,
    pub status_text: String,
    pub headers: Vec<(String, String)>,
    pub mime_type: String,
    pub remote_ip_address: Option<String>,
    pub remote_port: Option<u16>,
    pub security_state: Option<String>,
}

/// Navigation entry from Page.getNavigationHistory.
#[derive(Debug, Clone, PartialEq)]
pub struct NavigationEntry {
    pub id: i64,
    pub url: String,
    pub user_typed_url: String,
    pub title: String,
    pub transition_type: String,
}

} // verus!
