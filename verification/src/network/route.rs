//! Route implementation for network request interception.
//!
//! Routes allow agents to intercept, modify, or block network requests.
//! A route knows the intercepted request; the Fetch domain commands that
//! continue, fulfil or fail it are built here and sent on the page's
//! session by the caller.
use vstd::prelude::*;
use vstd::utf8::encode_utf8;

use crate::codec::{base64_encode, base64_encoding};
use crate::json::{
    lemma_lacks_key_concat, lemma_member_first, lemma_opt_member_lacks, lemma_opt_member_lookup, members_model,
    opt_member, Json, JsonNumber, JsonV,
};
use crate::network::headers::{header_entries, header_entries_json, pairs_view};

verus! {

/// The model of a [`Route`].
pub struct RouteView {
    pub request_id: Seq<char>,
    pub url: Seq<char>,
    pub method: Seq<char>,
    pub headers: Seq<(Seq<char>, Seq<char>)>,
}

/// A string member where there is a string.
pub open spec fn opt_str_member(key: Seq<char>, value: Option<Seq<char>>) -> Seq<(Seq<char>, JsonV)> {
    opt_member(
        key,
        match value {
            Some(s) => Some(JsonV::Str(s)),
            None => None,
        },
    )
}

/// A header-entries member where there are headers.
pub open spec fn opt_headers_member(key: Seq<char>, headers: Option<Seq<(Seq<char>, Seq<char>)>>) -> Seq<
    (Seq<char>, JsonV),
> {
    opt_member(
        key,
        match headers {
            Some(h) => Some(header_entries(h)),
            None => None,
        },
    )
}

/// The base64 text of a string's UTF-8 bytes, as CDP carries bodies.
pub open spec fn body_base64(s: Seq<char>) -> Seq<char> {
    base64_encoding(encode_utf8(s))
}

/// The parameters of `Fetch.continueRequest` with overrides: the request
/// id, then each override that is given; post data travels as base64.
pub open spec fn continue_with_spec(
    request_id: Seq<char>,
    url: Option<Seq<char>>,
    method: Option<Seq<char>>,
    headers: Option<Seq<(Seq<char>, Seq<char>)>>,
    post_data: Option<Seq<char>>,
) -> JsonV {
    JsonV::Object(
        seq![("requestId"@, JsonV::Str(request_id))] + opt_str_member("url"@, url) + opt_str_member(
            "method"@,
            method,
        ) + opt_headers_member("headers"@, headers) + opt_str_member(
            "postData"@,
            match post_data {
                Some(p) => Some(body_base64(p)),
                None => None,
            },
        ),
    )
}

/// The parameters of `Fetch.fulfillRequest`: the request id, the status,
/// the body as base64, and the response headers where they are given.
pub open spec fn fulfill_spec(
    request_id: Seq<char>,
    status: u16,
    headers: Option<Seq<(Seq<char>, Seq<char>)>>,
    body: Seq<char>,
) -> JsonV {
    JsonV::Object(
        seq![
            ("requestId"@, JsonV::Str(request_id)),
            ("responseCode"@, JsonV::Number(JsonNumber::PosInt(status as u64))),
            ("body"@, JsonV::Str(body_base64(body))),
        ] + opt_headers_member("responseHeaders"@, headers),
    )
}

/// The parameters of `Fetch.failRequest`: the request id and the reason,
/// `BlockedByClient` where none is given.
pub open spec fn abort_spec(request_id: Seq<char>, reason: Option<Seq<char>>) -> JsonV {
    JsonV::Object(
        seq![
            ("requestId"@, JsonV::Str(request_id)),
            ("errorReason"@, JsonV::Str(
                match reason {
                    Some(r) => r,
                    None => "BlockedByClient"@,
                },
            )),
        ],
    )
}

/// A route for intercepting network requests.
///
/// Routes are registered via `Page::route()` and allow modification or
/// blocking of matching requests.
#[derive(Debug, Clone, PartialEq)]
pub struct Route {
    request_id: String,
    url: String,
    method: String,
    headers: Vec<(String, String)>,
}

impl View for Route {
    type V = RouteView;

    closed spec fn view(&self) -> RouteView {
        RouteView {
            request_id: self.request_id@,
            url: self.url@,
            method: self.method@,
            headers: pairs_view(self.headers@),
        }
    }
}

impl Route {
    /// Create a new Route from an intercepted request.
    pub fn new(request_id: String, url: String, method: String, headers: Vec<(String, String)>) -> (r:
        Route)
        ensures
            r@ == (RouteView {
                request_id: request_id@,
                url: url@,
                method: method@,
                headers: pairs_view(headers@),
            }),
    {
        Route { request_id, url, method, headers }
    }

    /// Get the request URL.
    pub fn url(&self) -> (r: &str)
        ensures
            r@ == self@.url,
    {
        self.url.as_str()
    }

    /// Get the HTTP method.
    pub fn method(&self) -> (r: &str)
        ensures
            r@ == self@.method,
    {
        self.method.as_str()
    }

    /// Get the request headers.
    pub fn headers(&self) -> (r: &Vec<(String, String)>)
        ensures
            pairs_view(r@) == self@.headers,
    {
        &self.headers
    }

    /// The id of the intercepted request.
    pub fn request_id(&self) -> (r: &str)
        ensures
            r@ == self@.request_id,
    {
        self.request_id.as_str()
    }

    /// The parameters of `Fetch.continueRequest` that lets the request go
    /// on unchanged.
    pub fn continue_params(&self) -> (r: Json)
        ensures
            r@ == JsonV::Object(seq![("requestId"@, JsonV::Str(self@.request_id))]),
    {
        let r = Json::object(vec![Json::member("requestId", Json::string(self.request_id.as_str()))]);
        assert(r@->Object_0 =~= seq![("requestId"@, JsonV::Str(self@.request_id))]);
        r
    }

    /// The parameters of `Fetch.continueRequest` that lets the request go
    /// on with the given overrides.
    pub fn continue_with_params(
        &self,
        url: Option<&str>,
        method: Option<&str>,
        headers: Option<&Vec<(String, String)>>,
        post_data: Option<&str>,
    ) -> (r: Json)
        ensures
            r@ == continue_with_spec(
                self@.request_id,
                match url {
                    Some(u) => Some(u@),
                    None => None,
                },
                match method {
                    Some(m) => Some(m@),
                    None => None,
                },
                match headers {
                    Some(h) => Some(pairs_view(h@)),
                    None => None,
                },
                match post_data {
                    Some(p) => Some(p@),
                    None => None,
                },
            ),
            r@.get("requestId"@) == Some(JsonV::Str(self@.request_id)),
            r@.get("url"@) == match url {
                Some(u) => Some(JsonV::Str(u@)),
                None => None::<JsonV>,
            },
            r@.get("method"@) == match method {
                Some(m) => Some(JsonV::Str(m@)),
                None => None::<JsonV>,
            },
            r@.get("headers"@) == match headers {
                Some(h) => Some(header_entries(pairs_view(h@))),
                None => None::<JsonV>,
            },
            r@.get("postData"@) == match post_data {
                Some(p) => Some(JsonV::Str(base64_encoding(encode_utf8(p@)))),
                None => None::<JsonV>,
            },
    {
        proof {
            law_continue_overrides_are_independent(
                self@.request_id,
                match url {
                    Some(u) => Some(u@),
                    None => None,
                },
                match method {
                    Some(m) => Some(m@),
                    None => None,
                },
                match headers {
                    Some(h) => Some(pairs_view(h@)),
                    None => None,
                },
                match post_data {
                    Some(p) => Some(p@),
                    None => None,
                },
            );
        }
        let ghost hv: Option<Seq<(Seq<char>, Seq<char>)>> = match headers {
            Some(v) => Some(pairs_view(v@)),
            None => None,
        };
        let mut fields: Vec<(String, Json)> = Vec::new();
        Json::push_member(&mut fields, "requestId", Json::string(self.request_id.as_str()));
        let ghost m0 = members_model(fields@);
        if let Some(u) = url {
            Json::push_member(&mut fields, "url", Json::string(u));
        }
        let ghost m1 = members_model(fields@);
        if let Some(m) = method {
            Json::push_member(&mut fields, "method", Json::string(m));
        }
        let ghost m2 = members_model(fields@);
        if let Some(h) = headers {
            Json::push_member(&mut fields, "headers", header_entries_json(h));
        }
        let ghost m3 = members_model(fields@);
        if let Some(p) = post_data {
            let encoded = base64_encode(p.as_bytes());
            Json::push_member(&mut fields, "postData", Json::Str(encoded));
        }
        proof {
            let uv = match url {
                Some(u) => Some(u@),
                None => None,
            };
            let mv = match method {
                Some(m) => Some(m@),
                None => None,
            };
            let pv = match post_data {
                Some(p) => Some(body_base64(p@)),
                None => None,
            };
            assert(m0 =~= seq![("requestId"@, JsonV::Str(self@.request_id))]);
            assert(m1 =~= m0 + opt_str_member("url"@, uv));
            assert(m2 =~= m1 + opt_str_member("method"@, mv));
            assert(m3 =~= m2 + opt_headers_member("headers"@, hv));
            assert(members_model(fields@) =~= m3 + opt_str_member("postData"@, pv));
        }
        Json::object(fields)
    }

    /// The parameters of `Fetch.fulfillRequest` that answers the request with
    /// the given status, headers and body.
    pub fn fulfill_params(&self, status: u16, headers: Option<&Vec<(String, String)>>, body: &str) -> (r:
        Json)
        ensures
            r@ == fulfill_spec(
                self@.request_id,
                status,
                match headers {
                    Some(h) => Some(pairs_view(h@)),
                    None => None,
                },
                body@,
            ),
    {
        let ghost hv: Option<Seq<(Seq<char>, Seq<char>)>> = match headers {
            Some(v) => Some(pairs_view(v@)),
            None => None,
        };
        let encoded_body = base64_encode(body.as_bytes());
        let mut fields: Vec<(String, Json)> = Vec::new();
        Json::push_member(&mut fields, "requestId", Json::string(self.request_id.as_str()));
        Json::push_member(&mut fields, "responseCode", Json::uint(status as u64));
        Json::push_member(&mut fields, "body", Json::Str(encoded_body));
        let ghost m0 = members_model(fields@);
        if let Some(h) = headers {
            Json::push_member(&mut fields, "responseHeaders", header_entries_json(h));
        }
        proof {
            assert(m0 =~= seq![
                ("requestId"@, JsonV::Str(self@.request_id)),
                ("responseCode"@, JsonV::Number(JsonNumber::PosInt(status as u64))),
                ("body"@, JsonV::Str(body_base64(body@))),
            ]);
            assert(members_model(fields@) =~= m0 + opt_headers_member("responseHeaders"@, hv));
        }
        Json::object(fields)
    }

    /// The parameters of `Fetch.failRequest` that blocks the request.
    pub fn abort_params(&self, reason: Option<&str>) -> (r: Json)
        ensures
            r@ == abort_spec(
                self@.request_id,
                match reason {
                    Some(s) => Some(s@),
                    None => None,
                },
            ),
    {
        let why = match reason {
            Some(s) => s,
            None => "BlockedByClient",
        };
        let r = Json::object(
            vec![
                Json::member("requestId", Json::string(self.request_id.as_str())),
                Json::member("errorReason", Json::string(why)),
            ],
        );
        assert(r@->Object_0 =~= abort_spec(
            self@.request_id,
            match reason {
                Some(s) => Some(s@),
                None => None,
            },
        )->Object_0);
        r
    }
}

} // verus!

verus! {

/// Each override of a continued request is there exactly when it is given,
/// whatever the other overrides are: the request id always, the URL and the
/// method as given, the headers as their `{name, value}` entries, and the
/// post data as the base64 of its UTF-8 bytes.
pub proof fn law_continue_overrides_are_independent(
    request_id: Seq<char>,
    url: Option<Seq<char>>,
    method: Option<Seq<char>>,
    headers: Option<Seq<(Seq<char>, Seq<char>)>>,
    post_data: Option<Seq<char>>,
)
    ensures
        continue_with_spec(request_id, url, method, headers, post_data).get("requestId"@) == Some(
            JsonV::Str(request_id),
        ),
        continue_with_spec(request_id, url, method, headers, post_data).get("url"@) == match url {
            Some(u) => Some(JsonV::Str(u)),
            None => None::<JsonV>,
        },
        continue_with_spec(request_id, url, method, headers, post_data).get("method"@) == match method {
            Some(m) => Some(JsonV::Str(m)),
            None => None::<JsonV>,
        },
        continue_with_spec(request_id, url, method, headers, post_data).get("headers"@) == match headers {
            Some(h) => Some(header_entries(h)),
            None => None::<JsonV>,
        },
        continue_with_spec(request_id, url, method, headers, post_data).get("postData"@) == match post_data {
            Some(p) => Some(JsonV::Str(base64_encoding(encode_utf8(p)))),
            None => None::<JsonV>,
        },
{
    reveal_strlit("requestId");
    reveal_strlit("url");
    reveal_strlit("method");
    reveal_strlit("headers");
    reveal_strlit("postData");
    let r: Seq<(Seq<char>, JsonV)> = seq![("requestId"@, JsonV::Str(request_id))];
    let uv = match url {
        Some(s) => Some(JsonV::Str(s)),
        None => None,
    };
    let mv = match method {
        Some(s) => Some(JsonV::Str(s)),
        None => None,
    };
    let hv = match headers {
        Some(h) => Some(header_entries(h)),
        None => None,
    };
    let pv = match post_data {
        Some(p) => Some(JsonV::Str(body_base64(p))),
        None => None,
    };
    let u = opt_member("url"@, uv);
    let m = opt_member("method"@, mv);
    let h = opt_member("headers"@, hv);
    let p = opt_member("postData"@, pv);
    let e: Seq<(Seq<char>, JsonV)> = Seq::empty();
    let f = continue_with_spec(request_id, url, method, headers, post_data)->Object_0;
    assert(u == opt_str_member("url"@, url));
    assert(m == opt_str_member("method"@, method));
    assert(h == opt_headers_member("headers"@, headers));
    assert(f == r + u + m + h + p);
    // requestId
    assert("url"@.len() != "requestId"@.len());
    assert("method"@.len() != "requestId"@.len());
    assert("headers"@.len() != "postData"@.len());
    assert("url"@.len() != "method"@.len());
    assert("url"@.len() != "headers"@.len());
    assert("url"@.len() != "postData"@.len());
    assert("method"@.len() != "headers"@.len());
    assert("method"@.len() != "postData"@.len());
    assert("headers"@.len() != "requestId"@.len());
    assert("postData"@.len() != "requestId"@.len());
    lemma_opt_member_lacks("url"@, uv, "requestId"@);
    lemma_opt_member_lacks("method"@, mv, "requestId"@);
    lemma_opt_member_lacks("headers"@, hv, "requestId"@);
    lemma_opt_member_lacks("postData"@, pv, "requestId"@);
    lemma_member_first(r, u + m + h + p, "requestId"@);
    assert(r + u + m + h + p =~= r + (u + m + h + p));
    // url
    lemma_opt_member_lacks("method"@, mv, "url"@);
    lemma_opt_member_lacks("headers"@, hv, "url"@);
    lemma_opt_member_lacks("postData"@, pv, "url"@);
    lemma_lacks_key_concat(m, h, "url"@);
    lemma_lacks_key_concat(m + h, p, "url"@);
    lemma_opt_member_lookup(r, "url"@, uv, m + h + p);
    assert(r + u + m + h + p =~= r + u + (m + h + p));
    // method
    lemma_opt_member_lacks("url"@, uv, "method"@);
    lemma_opt_member_lacks("headers"@, hv, "method"@);
    lemma_opt_member_lacks("postData"@, pv, "method"@);
    lemma_lacks_key_concat(r, u, "method"@);
    lemma_lacks_key_concat(h, p, "method"@);
    lemma_opt_member_lookup(r + u, "method"@, mv, h + p);
    assert(r + u + m + h + p =~= (r + u) + m + (h + p));
    // headers
    lemma_opt_member_lacks("url"@, uv, "headers"@);
    lemma_opt_member_lacks("method"@, mv, "headers"@);
    lemma_opt_member_lacks("postData"@, pv, "headers"@);
    lemma_lacks_key_concat(r, u, "headers"@);
    lemma_lacks_key_concat(r + u, m, "headers"@);
    lemma_opt_member_lookup(r + u + m, "headers"@, hv, p);
    // postData
    lemma_opt_member_lacks("url"@, uv, "postData"@);
    lemma_opt_member_lacks("method"@, mv, "postData"@);
    lemma_opt_member_lacks("headers"@, hv, "postData"@);
    lemma_lacks_key_concat(r, u, "postData"@);
    lemma_lacks_key_concat(r + u, m, "postData"@);
    lemma_lacks_key_concat(r + u + m, h, "postData"@);
    lemma_opt_member_lookup(r + u + m + h, "postData"@, pv, e);
    assert(r + u + m + h + p + e =~= r + u + m + h + p);
}

} // verus!
