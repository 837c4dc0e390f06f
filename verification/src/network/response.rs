//! Network response wrapper.
use vstd::prelude::*;
use vstd::utf8::{decode_utf8, encode_utf8, valid_utf8};

use crate::codec::{
    base64_decode, base64_decode_error, base64_encoding, utf8_decode, utf8_error,
};
use crate::error::PlaywLeftError;
use crate::json::{Json, JsonV};
use crate::network::headers::{headers_from, pairs_view, string_members};
use crate::network::request::{owned, str_or, string_or};
use crate::protocol::types::opt_view;
use crate::text::{concat, lowercase, str_eq, to_lowercase};

verus! {

/// The model of a [`Response`].
pub struct ResponseView {
    pub request_id: Seq<char>,
    pub url: Seq<char>,
    pub status: u16,
    pub status_text: Seq<char>,
    pub headers: Seq<(Seq<char>, Seq<char>)>,
    pub mime_type: Seq<char>,
    pub remote_address: Option<Seq<char>>,
}

/// The response that a `Network.responseReceived` event describes: it needs
/// a `response` object, a `requestId` string and a response `url` string.
/// The status is the `status` integer cut to 16 bits (0 where there is
/// none), the status text defaults to empty and the MIME type to
/// `application/octet-stream`.
pub open spec fn response_from_event(params: JsonV) -> Option<ResponseView> {
    match params.get("response"@) {
        None => None,
        Some(resp) => match (params.at("requestId"@).as_str(), resp.at("url"@).as_str()) {
            (Some(id), Some(url)) => Some(
                ResponseView {
                    request_id: id,
                    url: url,
                    status: match resp.at("status"@).as_u64() {
                        Some(n) => (n % 65536) as u16,
                        None => 0,
                    },
                    status_text: str_or(resp.at("statusText"@).as_str(), ""@),
                    headers: string_members(resp.at("headers"@)),
                    mime_type: str_or(resp.at("mimeType"@).as_str(), "application/octet-stream"@),
                    remote_address: resp.at("remoteIPAddress"@).as_str(),
                },
            ),
            _ => None,
        },
    }
}

/// The value of the first header whose name equals `name` once both are
/// lower-cased.
pub open spec fn header_lookup(h: Seq<(Seq<char>, Seq<char>)>, name: Seq<char>) -> Option<
    Seq<char>,
>
    decreases h.len(),
{
    if h.len() == 0 {
        None
    } else if lowercase(h[0].0) == lowercase(name) {
        Some(h[0].1)
    } else {
        header_lookup(h.drop_first(), name)
    }
}

/// The body text in the reply to `Network.getResponseBody`.
pub open spec fn reply_body(result: JsonV) -> Seq<char> {
    str_or(result.at("body"@).as_str(), ""@)
}

/// Whether the reply to `Network.getResponseBody` says its body is base64.
pub open spec fn reply_is_base64(result: JsonV) -> bool {
    match result.at("base64Encoded"@).as_bool() {
        Some(b) => b,
        None => false,
    }
}

/// `body` is the base64 encoding of some bytes.
pub open spec fn is_base64(body: Seq<char>) -> bool {
    exists|b: Seq<u8>| base64_encoding(b) == body
}

/// The bytes whose base64 encoding `body` is.
pub open spec fn base64_bytes(body: Seq<char>) -> Seq<u8> {
    choose|b: Seq<u8>| base64_encoding(b) == body
}

/// A captured network response.
///
/// Constructed from CDP Network domain events (Network.responseReceived).
#[derive(Debug, Clone, PartialEq)]
pub struct Response {
    /// The request ID this response corresponds to.
    request_id: String,
    /// The response URL (may differ from request URL due to redirects).
    url: String,
    /// HTTP status code.
    status: u16,
    /// HTTP status text.
    status_text: String,
    /// Response headers.
    headers: Vec<(String, String)>,
    /// MIME type.
    mime_type: String,
    /// Remote IP address of the server.
    remote_address: Option<String>,
}

impl View for Response {
    type V = ResponseView;

    closed spec fn view(&self) -> ResponseView {
        ResponseView {
            request_id: self.request_id@,
            url: self.url@,
            status: self.status,
            status_text: self.status_text@,
            headers: pairs_view(self.headers@),
            mime_type: self.mime_type@,
            remote_address: opt_view(self.remote_address),
        }
    }
}

impl Response {
    /// Create a new Response from CDP event data.
    pub fn from_cdp_event(params: &Json) -> (r: Option<Response>)
        ensures
            match response_from_event(params@) {
                Some(v) => r matches Some(q) && q@ == v,
                None => r is None,
            },
            r matches Some(q) ==> Some(q@.url) == params@.at("response"@).at("url"@).as_str()
                && Some(q@.request_id) == params@.at("requestId"@).as_str() && q@.remote_address
                == params@.at("response"@).at("remoteIPAddress"@).as_str(),
    {
        proof {
            law_response_fields_from_event(params@);
        }
        let response = match params.get("response") {
            Some(q) => q,
            None => return None,
        };
        let request_id = match params.str_at("requestId") {
            Some(s) => s.to_string(),
            None => return None,
        };
        let url = match response.str_at("url") {
            Some(s) => s.to_string(),
            None => return None,
        };
        let status_value = response.at("status");
        let status: u16 = match status_value.as_u64() {
            Some(n) => (n % 65536) as u16,
            None => 0,
        };
        let header_value = response.at("headers");
        let headers = headers_from(&header_value);
        Some(
            Response {
                request_id,
                url,
                status,
                status_text: string_or(response.str_at("statusText"), ""),
                headers,
                mime_type: string_or(response.str_at("mimeType"), "application/octet-stream"),
                remote_address: owned(response.str_at("remoteIPAddress")),
            },
        )
    }

    /// Get the request ID.
    pub fn request_id(&self) -> (r: &str)
        ensures
            r@ == self@.request_id,
    {
        self.request_id.as_str()
    }

    /// Get the response URL.
    pub fn url(&self) -> (r: &str)
        ensures
            r@ == self@.url,
    {
        self.url.as_str()
    }

    /// Get the HTTP status code.
    pub fn status(&self) -> (r: u16)
        ensures
            r == self@.status,
    {
        self.status
    }

    /// Get the HTTP status text.
    pub fn status_text(&self) -> (r: &str)
        ensures
            r@ == self@.status_text,
    {
        self.status_text.as_str()
    }

    /// Get the response headers.
    pub fn headers(&self) -> (r: &Vec<(String, String)>)
        ensures
            pairs_view(r@) == self@.headers,
    {
        &self.headers
    }

    /// Get a specific header value (case-insensitive).
    pub fn header(&self, name: &str) -> (r: Option<&str>)
        ensures
            match r {
                Some(v) => header_lookup(self@.headers, name@) == Some(v@),
                None => header_lookup(self@.headers, name@) is None,
            },
    {
        let lower = to_lowercase(name);
        let ghost h = self@.headers;
        let mut i: usize = 0;
        assert(h.subrange(0, h.len() as int) =~= h);
        while i < self.headers.len()
            invariant
                0 <= i <= self.headers@.len(),
                h == pairs_view(self.headers@),
                lower@ == lowercase(name@),
                header_lookup(h, name@) == header_lookup(h.subrange(i as int, h.len() as int), name@),
            decreases self.headers@.len() - i,
        {
            let ghost rest = h.subrange(i as int, h.len() as int);
            assert(rest.drop_first() =~= h.subrange(i + 1, h.len() as int));
            assert(rest[0] == (self.headers@[i as int].0@, self.headers@[i as int].1@));
            let key = to_lowercase(self.headers[i].0.as_str());
            if str_eq(key.as_str(), lower.as_str()) {
                return Some(self.headers[i].1.as_str());
            }
            i = i + 1;
        }
        None
    }

    /// Get the MIME type.
    pub fn mime_type(&self) -> (r: &str)
        ensures
            r@ == self@.mime_type,
    {
        self.mime_type.as_str()
    }

    /// Whether this is a successful response (2xx status).
    pub fn ok(&self) -> (r: bool)
        ensures
            r == (200 <= self@.status < 300),
    {
        200 <= self.status && self.status < 300
    }

    /// Get the remote server address.
    pub fn remote_address(&self) -> (r: Option<&str>)
        ensures
            match r {
                Some(s) => self@.remote_address == Some(s@),
                None => self@.remote_address is None,
            },
    {
        match &self.remote_address {
            Some(s) => Some(s.as_str()),
            None => None,
        }
    }

    /// The parameters of `Network.getResponseBody` for this response.
    pub fn body_params(&self) -> (r: Json)
        ensures
            r@ == JsonV::Object(seq![("requestId"@, JsonV::Str(self@.request_id))]),
    {
        let r = Json::object(vec![Json::member("requestId", Json::string(self.request_id.as_str()))]);
        assert(r@->Object_0 =~= seq![("requestId"@, JsonV::Str(self@.request_id))]);
        r
    }
}

/// What the body text of a `Network.getResponseBody` reply is: the text
/// itself, or, where it is base64, the UTF-8 text of the decoded bytes; or
/// the message of the internal error that reading it gives.
pub open spec fn body_text_outcome(result: JsonV) -> Result<Seq<char>, Seq<char>> {
    let body = reply_body(result);
    if !reply_is_base64(result) {
        Ok(body)
    } else if !is_base64(body) {
        Err("Failed to decode base64 body: "@ + base64_decode_error(body))
    } else if valid_utf8(base64_bytes(body)) {
        Ok(decode_utf8(base64_bytes(body)))
    } else {
        Err("Response body is not valid UTF-8: "@ + utf8_error(base64_bytes(body)))
    }
}

/// What the body bytes of a `Network.getResponseBody` reply are: the UTF-8
/// bytes of the text, or, where it is base64, the decoded bytes; or the
/// message of the internal error that decoding gives.
pub open spec fn body_bytes_outcome(result: JsonV) -> Result<Seq<u8>, Seq<char>> {
    let body = reply_body(result);
    if !reply_is_base64(result) {
        Ok(encode_utf8(body))
    } else if !is_base64(body) {
        Err("Failed to decode base64 body: "@ + base64_decode_error(body))
    } else {
        Ok(base64_bytes(body))
    }
}

/// The body text from the reply to `Network.getResponseBody`.
pub fn body_text(result: &Json) -> (r: Result<String, PlaywLeftError>)
    ensures
        match body_text_outcome(result@) {
            Ok(t) => r matches Ok(s) && s@ == t,
            Err(m) => r matches Err(PlaywLeftError::Internal(e)) && e@ == m,
        },
{
    let body = string_or(result.str_at("body"), "");
    let encoded = match result.get("base64Encoded") {
        Some(v) => match v.as_bool() {
            Some(b) => b,
            None => false,
        },
        None => false,
    };
    if !encoded {
        return Ok(body);
    }
    match base64_decode(body.as_str()) {
        Ok(bytes) => {
            proof {
                crate::codec::lemma_base64_injective(bytes@, base64_bytes(body@));
            }
            match utf8_decode(bytes) {
                Ok(s) => Ok(s),
                Err(e) => Err(
                    PlaywLeftError::Internal(concat("Response body is not valid UTF-8: ", e.as_str())),
                ),
            }
        },
        Err(e) => Err(
            PlaywLeftError::Internal(concat("Failed to decode base64 body: ", e.as_str())),
        ),
    }
}

/// The body bytes from the reply to `Network.getResponseBody`.
pub fn body_bytes(result: &Json) -> (r: Result<Vec<u8>, PlaywLeftError>)
    ensures
        match body_bytes_outcome(result@) {
            Ok(t) => r matches Ok(b) && b@ == t,
            Err(m) => r matches Err(PlaywLeftError::Internal(e)) && e@ == m,
        },
{
    let body = string_or(result.str_at("body"), "");
    let encoded = match result.get("base64Encoded") {
        Some(v) => match v.as_bool() {
            Some(b) => b,
            None => false,
        },
        None => false,
    };
    if !encoded {
        let bytes = vstd::slice::slice_to_vec(body.as_str().as_bytes());
        return Ok(bytes);
    }
    match base64_decode(body.as_str()) {
        Ok(bytes) => {
            proof {
                crate::codec::lemma_base64_injective(bytes@, base64_bytes(body@));
            }
            Ok(bytes)
        },
        Err(e) => Err(
            PlaywLeftError::Internal(concat("Failed to decode base64 body: ", e.as_str())),
        ),
    }
}

} // verus!

verus! {

/// Header lookup ignores case: two names with the same lower-case form
/// find the same header.
pub proof fn law_header_lookup_ignores_case(h: Seq<(Seq<char>, Seq<char>)>, a: Seq<char>, b: Seq<char>)
    requires
        lowercase(a) == lowercase(b),
    ensures
        header_lookup(h, a) == header_lookup(h, b),
    decreases h.len(),
{
    if h.len() > 0 {
        law_header_lookup_ignores_case(h.drop_first(), a, b);
    }
}

/// The reply to `Network.getResponseBody` for a body sent as base64.
pub open spec fn base64_reply(body: Seq<char>) -> JsonV {
    JsonV::Object(seq![("body"@, JsonV::Str(body)), ("base64Encoded"@, JsonV::Bool(true))])
}

proof fn lemma_base64_reply_reads(body: Seq<char>)
    ensures
        reply_body(base64_reply(body)) == body,
        reply_is_base64(base64_reply(body)),
{
    let r = base64_reply(body);
    assert(r.at("body"@) == JsonV::Str(body));
    assert(r.at("base64Encoded"@) == JsonV::Bool(true)) by {
        reveal_strlit("body");
        reveal_strlit("base64Encoded");
        assert("body"@.len() != "base64Encoded"@.len());
        let f = r->Object_0;
        assert(f.drop_first() =~= seq![("base64Encoded"@, JsonV::Bool(true))]);
        assert(crate::json::member(f.drop_first(), "base64Encoded"@) == Some(JsonV::Bool(true)));
    }
}

/// A body that travels as base64 reads back as the bytes that were encoded.
pub proof fn law_base64_body_bytes_round_trip(bytes: Seq<u8>)
    ensures
        body_bytes_outcome(base64_reply(base64_encoding(bytes))) == Ok::<Seq<u8>, Seq<char>>(bytes),
{
    let body = base64_encoding(bytes);
    lemma_base64_reply_reads(body);
    assert(is_base64(body));
    crate::codec::lemma_base64_injective(base64_bytes(body), bytes);
}

/// A text body that a route fulfils (its UTF-8 bytes as base64) reads back
/// as the same text.
pub proof fn law_fulfilled_text_round_trip(text: Seq<char>)
    ensures
        body_text_outcome(base64_reply(crate::network::route::body_base64(text))) == Ok::<
            Seq<char>,
            Seq<char>,
        >(text),
{
    broadcast use vstd::utf8::encode_utf8_valid_utf8, vstd::utf8::encode_utf8_decode_utf8;

    law_base64_body_bytes_round_trip(encode_utf8(text));
    let body = crate::network::route::body_base64(text);
    lemma_base64_reply_reads(body);
    assert(is_base64(body));
    crate::codec::lemma_base64_injective(base64_bytes(body), encode_utf8(text));
}

/// A response read from an event keeps the event's id, URL and remote
/// address as they are; its status is the `status` integer cut to 16 bits
/// (0 where there is none) and its status text and MIME type are the
/// event's wherever it gives them. The event describes a response exactly
/// when it has a `response` object, a `requestId` string and a response
/// `url` string.
pub proof fn law_response_fields_from_event(params: JsonV)
    ensures
        response_from_event(params) is Some <==> (params.get("response"@) is Some && params.at(
            "requestId"@,
        ).as_str() is Some && params.at("response"@).at("url"@).as_str() is Some),
        response_from_event(params) matches Some(v) ==> {
            &&& Some(v.url) == params.at("response"@).at("url"@).as_str()
            &&& Some(v.request_id) == params.at("requestId"@).as_str()
            &&& v.remote_address == params.at("response"@).at("remoteIPAddress"@).as_str()
            &&& (params.at("response"@).at("status"@).as_u64() matches Some(n) ==> v.status as int == n % 65536)
            &&& (params.at("response"@).at("status"@).as_u64() is None ==> v.status == 0)
            &&& (params.at("response"@).at("statusText"@).as_str() matches Some(t) ==> v.status_text == t)
            &&& (params.at("response"@).at("mimeType"@).as_str() matches Some(t) ==> v.mime_type == t)
        },
{
}

/// Header lookup finds the value of the first header whose name has the
/// same lower-case form as the name asked for, and finds nothing exactly
/// when no header's name has it.
pub proof fn law_header_lookup_finds_first_match(h: Seq<(Seq<char>, Seq<char>)>, name: Seq<char>)
    ensures
        header_lookup(h, name) is None <==> (forall|i: int| 0 <= i < h.len() ==> lowercase(#[trigger] h[i].0)
            != lowercase(name)),
        header_lookup(h, name) matches Some(v) ==> exists|i: int|
            0 <= i < h.len() && lowercase(#[trigger] h[i].0) == lowercase(name) && h[i].1 == v && forall|j: int|
                0 <= j < i ==> lowercase(#[trigger] h[j].0) != lowercase(name),
    decreases h.len(),
{
    if h.len() > 0 {
        law_header_lookup_finds_first_match(h.drop_first(), name);
        let t = h.drop_first();
        if lowercase(h[0].0) != lowercase(name) {
            assert forall|i: int| 0 <= i < t.len() implies t[i] == h[i + 1] by {}
            if header_lookup(h, name) is None {
                assert forall|i: int| 0 <= i < h.len() implies lowercase(#[trigger] h[i].0) != lowercase(name) by {
                    if i > 0 {
                        assert(h[i] == t[i - 1]);
                    }
                }
            } else {
                let v = header_lookup(h, name)->Some_0;
                let k = choose|k: int|
                    0 <= k < t.len() && lowercase(#[trigger] t[k].0) == lowercase(name) && t[k].1 == v && forall|j: int|
                        0 <= j < k ==> lowercase(#[trigger] t[j].0) != lowercase(name);
                assert(h[k + 1] == t[k]);
                assert forall|j: int| 0 <= j < k + 1 implies lowercase(#[trigger] h[j].0) != lowercase(name) by {
                    if j > 0 {
                        assert(h[j] == t[j - 1]);
                    }
                }
            }
        }
    }
}

} // verus!
