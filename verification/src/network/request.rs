//! Network request wrapper.
use vstd::prelude::*;

use crate::json::{Json, JsonV};
use crate::network::headers::{headers_from, pairs_view, string_members};
use crate::protocol::types::opt_view;

verus! {

/// `o`'s string, or `d` where there is none.
pub open spec fn str_or(o: Option<Seq<char>>, d: Seq<char>) -> Seq<char> {
    match o {
        Some(s) => s,
        None => d,
    }
}

/// The model of a [`Request`].
pub struct RequestView {
    pub request_id: Seq<char>,
    pub url: Seq<char>,
    pub method: Seq<char>,
    pub headers: Seq<(Seq<char>, Seq<char>)>,
    pub post_data: Option<Seq<char>>,
    pub resource_type: Seq<char>,
    pub is_intercepted: bool,
}

/// The request that a `Network.requestWillBeSent` event describes: it needs
/// a `request` object, a `requestId` string and a request `url` string; the
/// method defaults to `GET` and the resource type to `Other`.
pub open spec fn request_from_event(params: JsonV) -> Option<RequestView> {
    match params.get("request"@) {
        None => None,
        Some(req) => match (params.at("requestId"@).as_str(), req.at("url"@).as_str()) {
            (Some(id), Some(url)) => Some(
                RequestView {
                    request_id: id,
                    url: url,
                    method: str_or(req.at("method"@).as_str(), "GET"@),
                    headers: string_members(req.at("headers"@)),
                    post_data: req.at("postData"@).as_str(),
                    resource_type: str_or(params.at("type"@).as_str(), "Other"@),
                    is_intercepted: false,
                },
            ),
            _ => None,
        },
    }
}

/// A captured network request.
///
/// Constructed from CDP Network domain events (Network.requestWillBeSent).
#[derive(Debug, Clone, PartialEq)]
pub struct Request {
    /// Unique request ID assigned by the browser.
    request_id: String,
    /// The URL of the request.
    url: String,
    /// HTTP method (GET, POST, etc.).
    method: String,
    /// Request headers.
    headers: Vec<(String, String)>,
    /// POST data if present.
    post_data: Option<String>,
    /// Resource type (Document, Script, Stylesheet, etc.).
    resource_type: String,
    /// Whether this request was intercepted for modification.
    is_intercepted: bool,
}

impl View for Request {
    type V = RequestView;

    closed spec fn view(&self) -> RequestView {
        RequestView {
            request_id: self.request_id@,
            url: self.url@,
            method: self.method@,
            headers: pairs_view(self.headers@),
            post_data: opt_view(self.post_data),
            resource_type: self.resource_type@,
            is_intercepted: self.is_intercepted,
        }
    }
}

/// `o` as an owned string, or `d` where there is none.
pub fn string_or(o: Option<&str>, d: &str) -> (r: String)
    ensures
        r@ == match o {
            Some(s) => s@,
            None => d@,
        },
{
    match o {
        Some(s) => s.to_string(),
        None => d.to_string(),
    }
}

/// `o` as an owned string.
pub fn owned(o: Option<&str>) -> (r: Option<String>)
    ensures
        opt_view(r) == match o {
            Some(s) => Some(s@),
            None => None::<Seq<char>>,
        },
{
    match o {
        Some(s) => Some(s.to_string()),
        None => None,
    }
}

impl Request {
    /// Create a new Request from CDP event data.
    pub fn from_cdp_event(params: &Json) -> (r: Option<Request>)
        ensures
            match request_from_event(params@) {
                Some(v) => r matches Some(q) && q@ == v,
                None => r is None,
            },
            r matches Some(q) ==> q@.post_data == params@.at("request"@).at("postData"@).as_str()
                && q@.url == params@.at("request"@).at("url"@).as_str()->Some_0 && q@.request_id
                == params@.at("requestId"@).as_str()->Some_0,
    {
        proof {
            law_request_fields_from_event(params@);
        }
        let request = match params.get("request") {
            Some(q) => q,
            None => return None,
        };
        let request_id = match params.str_at("requestId") {
            Some(s) => s.to_string(),
            None => return None,
        };
        let url = match request.str_at("url") {
            Some(s) => s.to_string(),
            None => return None,
        };
        let header_value = request.at("headers");
        let headers = headers_from(&header_value);
        Some(
            Request {
                request_id,
                url,
                method: string_or(request.str_at("method"), "GET"),
                headers,
                post_data: owned(request.str_at("postData")),
                resource_type: string_or(params.str_at("type"), "Other"),
                is_intercepted: false,
            },
        )
    }

    /// Get the request ID.
    pub fn id(&self) -> (r: &str)
        ensures
            r@ == self@.request_id,
    {
        self.request_id.as_str()
    }

    /// Get the request URL.
    pub fn url(&self) -> (r: &str)
        ensures
            r@ == self@.url,
    {
        self.url.as_str()
    }

    /// Get the HTTP method.
    pub fn method(&self) -> (r: &str)
        ensures
            r@ == self@.method,
    {
        self.method.as_str()
    }

    /// Get the request headers.
    pub fn headers(&self) -> (r: &Vec<(String, String)>)
        ensures
            pairs_view(r@) == self@.headers,
    {
        &self.headers
    }

    /// Get the POST data body, if any.
    pub fn post_data(&self) -> (r: Option<&str>)
        ensures
            match r {
                Some(s) => self@.post_data == Some(s@),
                None => self@.post_data is None,
            },
    {
        match &self.post_data {
            Some(s) => Some(s.as_str()),
            None => None,
        }
    }

    /// Get the resource type (Document, Script, Stylesheet, Image, etc.).
    pub fn resource_type(&self) -> (r: &str)
        ensures
            r@ == self@.resource_type,
    {
        self.resource_type.as_str()
    }

    /// Whether this request was intercepted.
    pub fn is_intercepted(&self) -> (r: bool)
        ensures
            r == self@.is_intercepted,
    {
        self.is_intercepted
    }
}

/// A request read from an event keeps the event's id, URL and post data as
/// they are, whatever its method: the post data is the request's `postData`
/// string wherever there is one, for every method. The event describes a
/// request exactly when it has a `request` object, a `requestId` string and
/// a request `url` string.
pub proof fn law_request_fields_from_event(params: JsonV)
    ensures
        request_from_event(params) is Some <==> (params.get("request"@) is Some && params.at(
            "requestId"@,
        ).as_str() is Some && params.at("request"@).at("url"@).as_str() is Some),
        request_from_event(params) matches Some(v) ==> {
            &&& v.post_data == params.at("request"@).at("postData"@).as_str()
            &&& Some(v.url) == params.at("request"@).at("url"@).as_str()
            &&& Some(v.request_id) == params.at("requestId"@).as_str()
            &&& params.at("request"@).at("method"@).as_str() matches Some(m) ==> v.method == m
        },
{
}

} // verus!
