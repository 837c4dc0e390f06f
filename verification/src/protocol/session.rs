//! CDP session targeting.
//!
//! A session is addressed by an optional session id: without one, commands
//! go to the browser itself; with one, to the attached page or context.
use vstd::prelude::*;

use crate::error::PlaywLeftError;
use crate::json::{Json, JsonV};
use crate::protocol::types::{opt_view, CdpResponse};
use crate::text::{concat, str_eq};

verus! {

/// The address of a CDP session: the session id that its commands carry
/// (none for the root browser session) and the target it is attached to.
#[derive(Debug, Clone, PartialEq)]
pub struct CdpSession {
    session_id: Option<String>,
    target_id: Option<String>,
}

/// Two optional strings are equal.
pub fn opt_str_eq(a: &Option<String>, b: &Option<String>) -> (r: bool)
    ensures
        r == (opt_view(*a) == opt_view(*b)),
{
    match (a, b) {
        (Some(x), Some(y)) => str_eq(x.as_str(), y.as_str()),
        (None, None) => true,
        _ => false,
    }
}

fn opt_as_str(o: &Option<String>) -> (r: Option<&str>)
    ensures
        match r {
            Some(s) => opt_view(*o) == Some(s@),
            None => o is None,
        },
{
    match o {
        Some(s) => Some(s.as_str()),
        None => None,
    }
}

/// The parameters of `Target.attachToTarget` for a target (flat mode).
pub open spec fn attach_params_spec(target_id: Seq<char>) -> JsonV {
    JsonV::Object(seq![("targetId"@, JsonV::Str(target_id)), ("flatten"@, JsonV::Bool(true))])
}

/// The parameters of `Target.detachFromTarget` for a session.
pub open spec fn detach_params_spec(session_id: Seq<char>) -> JsonV {
    JsonV::Object(seq![("sessionId"@, JsonV::Str(session_id))])
}

impl CdpSession {
    /// The id of the session that this session targets; `None` for the root.
    pub closed spec fn spec_session_id(&self) -> Option<Seq<char>> {
        opt_view(self.session_id)
    }

    /// The id of the attached target; `None` for the root.
    pub closed spec fn spec_target_id(&self) -> Option<Seq<char>> {
        opt_view(self.target_id)
    }

    /// Create a root session (no session ID — targets the browser itself).
    pub fn new_root() -> (r: CdpSession)
        ensures
            r.spec_session_id() is None,
            r.spec_target_id() is None,
    {
        CdpSession { session_id: None, target_id: None }
    }

    /// Create a session targeting a specific page/context.
    pub fn new_target(session_id: String, target_id: String) -> (r: CdpSession)
        ensures
            r.spec_session_id() == Some(session_id@),
            r.spec_target_id() == Some(target_id@),
    {
        CdpSession { session_id: Some(session_id), target_id: Some(target_id) }
    }

    /// Get the session ID (if targeting a specific context/page).
    pub fn session_id(&self) -> (r: Option<&str>)
        ensures
            match r {
                Some(s) => self.spec_session_id() == Some(s@),
                None => self.spec_session_id() is None,
            },
    {
        opt_as_str(&self.session_id)
    }

    /// Get the target ID (if attached to a specific target).
    pub fn target_id(&self) -> (r: Option<&str>)
        ensures
            match r {
                Some(s) => self.spec_target_id() == Some(s@),
                None => self.spec_target_id() is None,
            },
    {
        opt_as_str(&self.target_id)
    }

    /// The session id that this session's commands carry.
    pub fn command_session_id(&self) -> (r: Option<String>)
        ensures
            opt_view(r) == self.spec_session_id(),
    {
        match &self.session_id {
            Some(s) => Some(s.clone()),
            None => None,
        }
    }

    /// Whether a waiter on this session for `method` takes this event: the
    /// event has that name and carries this session's id (or, on the root
    /// session, none).
    pub fn accepts_event(&self, event: &CdpResponse, method: &str) -> (r: bool)
        ensures
            r == (opt_view(event.method) == Some(method@) && opt_view(event.session_id)
                == self.spec_session_id()),
    {
        let named = match &event.method {
            Some(m) => str_eq(m.as_str(), method),
            None => false,
        };
        named && opt_str_eq(&event.session_id, &self.session_id)
    }

    /// The parameters of `Target.attachToTarget` for a target.
    pub fn attach_params(target_id: &str) -> (r: Json)
        ensures
            r@ == attach_params_spec(target_id@),
    {
        let r = Json::object(
            vec![Json::member("targetId", Json::string(target_id)), Json::member("flatten", Json::Bool(true))],
        );
        assert(r@->Object_0 =~= attach_params_spec(target_id@)->Object_0);
        r
    }

    /// The session for an attached target, from the reply to
    /// `Target.attachToTarget`: its `sessionId`, or a protocol error where
    /// the reply has none.
    pub fn from_attach_reply(result: &Json, target_id: &str) -> (r: Result<CdpSession, PlaywLeftError>)
        ensures
            match result@.at("sessionId"@).as_str() {
                Some(sid) => r matches Ok(s) && s.spec_session_id() == Some(sid)
                    && s.spec_target_id() == Some(target_id@),
                None => r matches Err(PlaywLeftError::ProtocolError { code, message }) && code == -1
                    && message@ == "No sessionId in attachToTarget response"@,
            },
    {
        match result.str_at("sessionId") {
            Some(sid) => Ok(CdpSession::new_target(sid.to_string(), target_id.to_string())),
            None => Err(PlaywLeftError::protocol(-1, "No sessionId in attachToTarget response")),
        }
    }

    /// The parameters of the `Target.detachFromTarget` command that detaches
    /// this session (sent on the root session), or `None` for the root
    /// session, which has nothing to detach.
    pub fn detach_params(&self) -> (r: Option<Json>)
        ensures
            match self.spec_session_id() {
                Some(sid) => r matches Some(p) && p@ == detach_params_spec(sid),
                None => r is None,
            },
    {
        match &self.session_id {
            Some(sid) => {
                let p = Json::object(vec![Json::member("sessionId", Json::string(sid.as_str()))]);
                assert(p@->Object_0 =~= detach_params_spec(sid@)->Object_0);
                Some(p)
            },
            None => None,
        }
    }
}

/// The method that enables a CDP domain, such as `Page.enable`.
pub fn enable_method(domain: &str) -> (r: String)
    ensures
        r@ == domain@ + ".enable"@,
{
    concat(domain, ".enable")
}

/// The method that disables a CDP domain, such as `Page.disable`.
pub fn disable_method(domain: &str) -> (r: String)
    ensures
        r@ == domain@ + ".disable"@,
{
    concat(domain, ".disable")
}

} // verus!
