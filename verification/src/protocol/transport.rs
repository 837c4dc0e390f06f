//! Command bookkeeping for the CDP WebSocket transport.
//!
//! The transport hands every command a fresh id, remembers which ids wait
//! for a reply, routes each incoming message to its waiter or to the event
//! listeners, and answers every waiter when the connection ends. This module
//! holds those decisions; the socket, the channels and the reader task live
//! with the caller, which performs what [`TransportState`] decides.
use std::collections::HashSet;
use vstd::prelude::*;
use vstd::std_specs::hash::{axiom_spec_hash_keys_iter, spec_hash_keys_iter};
use vstd::std_specs::iter::IteratorSpec;

use crate::error::PlaywLeftError;
use crate::json::{members_model, opt_member, Json, JsonNumber, JsonV};
use crate::protocol::types::{opt_view, CdpCommand, CdpError, CdpResponse};
use crate::text::{concat, concat3, decimal, write_decimal};

verus! {

broadcast use vstd::std_specs::hash::group_hash_axioms;

/// The model of the transport's bookkeeping.
pub struct TransportView {
    /// The id that the next command gets.
    pub next_id: u64,
    /// The ids of the commands that still wait for a reply.
    pub pending: Set<u64>,
    /// Whether the connection is still alive.
    pub connected: bool,
}

/// The id after `id`; the counter wraps around as `AtomicU64::fetch_add` does.
pub open spec fn successor(id: u64) -> u64 {
    if id == u64::MAX {
        0
    } else {
        (id + 1) as u64
    }
}

impl TransportView {
    /// A fresh connection: ids start at 1 and nothing waits.
    pub open spec fn initial() -> TransportView {
        TransportView { next_id: 1, pending: Set::empty(), connected: true }
    }

    /// The id that a command sent now gets, or `None` where the connection
    /// has ended.
    pub open spec fn issued(self) -> Option<u64> {
        if self.connected {
            Some(self.next_id)
        } else {
            None
        }
    }

    /// The state after a command is sent.
    pub open spec fn after_send(self) -> TransportView {
        if self.connected {
            TransportView {
                next_id: successor(self.next_id),
                pending: self.pending.insert(self.next_id),
                connected: true,
            }
        } else {
            self
        }
    }

    /// A message with this id is the reply that a waiting command expects.
    pub open spec fn claims(self, id: Option<u64>) -> bool {
        id matches Some(i) && self.pending.contains(i)
    }

    /// The state after a message with this id arrives.
    pub open spec fn after_message(self, id: Option<u64>) -> TransportView {
        if self.claims(id) {
            TransportView {
                next_id: self.next_id,
                pending: self.pending.remove(id->0),
                connected: self.connected,
            }
        } else {
            self
        }
    }

    /// The state after the connection ends: every waiter was answered.
    pub open spec fn after_shutdown(self) -> TransportView {
        TransportView { next_id: self.next_id, pending: Set::empty(), connected: false }
    }

    /// The state after the caller closes the connection.
    pub open spec fn after_close(self) -> TransportView {
        TransportView { next_id: self.next_id, pending: self.pending, connected: false }
    }
}

/// `r` is the reply that a waiter receives when the connection ends.
pub open spec fn is_closed_reply(r: CdpResponse, id: u64) -> bool {
    &&& r.id == Some(id)
    &&& r.result is None
    &&& r.error matches Some(e) && e.code == -1 && e.message@ == "Connection closed"@
        && e.data is None
    &&& r.session_id is None
    &&& r.method is None
    &&& r.params is None
}

/// Where an incoming message goes.
#[derive(Debug)]
pub enum Routed {
    /// The reply to the waiting command with this id.
    Reply(u64, CdpResponse),
    /// A reply that no command waits for (it is logged and dropped).
    Unclaimed(u64),
    /// An event, for every listener.
    Event(CdpResponse),
    /// Neither a reply nor an event.
    Dropped,
}

/// The bookkeeping of a CDP transport: the id counter, the ids that wait for
/// a reply, and whether the connection is alive.
pub struct TransportState {
    next_id: u64,
    pending: HashSet<u64>,
    connected: bool,
}

impl View for TransportState {
    type V = TransportView;

    closed spec fn view(&self) -> TransportView {
        TransportView { next_id: self.next_id, pending: self.pending@, connected: self.connected }
    }
}

/// The ids in a set, each once, in the set's iteration order.
fn ids_of(s: &HashSet<u64>) -> (r: Vec<u64>)
    ensures
        r@.to_set() == s@,
        r@.no_duplicates(),
{
    let mut out: Vec<u64> = Vec::new();
    for x in it: s.iter()
        invariant
            it.seq() == spec_hash_keys_iter(s).remaining(),
            out@.len() == it.index(),
            forall|k: int| 0 <= k < it.index() ==> out@[k] == *it.seq()[k],
    {
        out.push(*x);
    }
    proof {
        let keys = spec_hash_keys_iter(s).remaining();
        assert(out@ =~= keys.unref());
        axiom_spec_hash_keys_iter(s);
        assert forall|a: int, b: int| 0 <= a < keys.len() && 0 <= b < keys.len() && a != b implies keys.unref()[a]
            != keys.unref()[b] by {
            assert(keys[a] != keys[b]);
        }
    }
    out
}

/// The reply that a waiter receives when the connection ends.
fn closed_reply(id: u64) -> (r: CdpResponse)
    ensures
        is_closed_reply(r, id),
{
    CdpResponse {
        id: Some(id),
        result: None,
        error: Some(CdpError { code: -1, message: "Connection closed".to_string(), data: None }),
        session_id: None,
        method: None,
        params: None,
    }
}

impl TransportState {
    /// A fresh connection: ids start at 1, nothing waits for a reply.
    pub fn new() -> (r: TransportState)
        ensures
            r@ == TransportView::initial(),
    {
        TransportState { next_id: 1, pending: HashSet::new(), connected: true }
    }

    /// Whether the connection is still alive.
    pub fn is_connected(&self) -> (r: bool)
        ensures
            r == self@.connected,
    {
        self.connected
    }

    /// Whether the command with this id still waits for its reply.
    pub fn is_pending(&self, id: u64) -> (r: bool)
        ensures
            r == self@.pending.contains(id),
    {
        self.pending.contains(&id)
    }

    /// Registers a command and builds it, or refuses it with `SessionClosed`
    /// where the connection has ended. A registered command waits for its
    /// reply under the id it was given.
    pub fn begin_command(&mut self, method: &str, params: Json, session_id: Option<String>) -> (r:
        Result<CdpCommand, PlaywLeftError>)
        ensures
            final(self)@ == old(self)@.after_send(),
            match r {
                Ok(c) => {
                    &&& old(self)@.issued() == Some(c.id)
                    &&& c.method@ == method@
                    &&& c.params@ == params@
                    &&& opt_view(c.session_id) == opt_view(session_id)
                },
                Err(e) => old(self)@.issued() is None && e is SessionClosed,
            },
    {
        if !self.connected {
            return Err(PlaywLeftError::SessionClosed);
        }
        let id = self.next_id;
        self.pending.insert(id);
        self.next_id = if id == u64::MAX {
            0
        } else {
            id + 1
        };
        Ok(CdpCommand { id, method: method.to_string(), params, session_id })
    }

    /// Routes an incoming message: a reply goes to the command that waits for
    /// it, which then waits no more; an event goes to the listeners.
    pub fn route(&mut self, msg: CdpResponse) -> (r: Routed)
        ensures
            final(self)@ == old(self)@.after_message(msg.id),
            match r {
                Routed::Reply(i, m) => msg.id == Some(i) && old(self)@.pending.contains(i) && m
                    == msg,
                Routed::Unclaimed(i) => msg.id == Some(i) && !old(self)@.pending.contains(i),
                Routed::Event(m) => msg.spec_is_event() && m == msg,
                Routed::Dropped => !msg.spec_is_response() && !msg.spec_is_event(),
            },
            (msg.id is None && msg.method is Some) ==> (r is Event && final(self)@ == old(self)@),
            (msg.id is None && msg.method is None) ==> r is Dropped,
            msg.id is Some ==> (r is Reply || r is Unclaimed),
    {
        if msg.is_response() {
            let id = match msg.id {
                Some(i) => i,
                None => 0,
            };
            if self.pending.remove(&id) {
                Routed::Reply(id, msg)
            } else {
                assert(self.pending@ =~= old(self).pending@);
                Routed::Unclaimed(id)
            }
        } else if msg.is_event() {
            Routed::Event(msg)
        } else {
            Routed::Dropped
        }
    }

    /// Ends the connection: every waiting command gets a "Connection closed"
    /// error reply, exactly one each, and nothing waits any more.
    pub fn shut_down(&mut self) -> (r: Vec<CdpResponse>)
        ensures
            final(self)@ == old(self)@.after_shutdown(),
            forall|k: int|
                0 <= k < r@.len() ==> (#[trigger] r@[k].id is Some && old(self)@.pending.contains(
                    r@[k].id->0,
                ) && is_closed_reply(r@[k], r@[k].id->0)),
            forall|i: u64|
                old(self)@.pending.contains(i) ==> exists|k: int|
                    0 <= k < r@.len() && #[trigger] r@[k].id == Some(i),
            forall|a: int, b: int|
                0 <= a < r@.len() && 0 <= b < r@.len() && a != b ==> r@[a].id != r@[b].id,
    {
        let ids = ids_of(&self.pending);
        let mut replies: Vec<CdpResponse> = Vec::new();
        let mut i: usize = 0;
        while i < ids.len()
            invariant
                0 <= i <= ids@.len(),
                replies@.len() == i,
                forall|k: int| 0 <= k < i ==> is_closed_reply(#[trigger] replies@[k], ids@[k]),
            decreases ids@.len() - i,
        {
            let reply = closed_reply(ids[i]);
            replies.push(reply);
            i = i + 1;
        }
        proof {
            assert forall|k: int| 0 <= k < replies@.len() implies (#[trigger] replies@[k].id is Some
                && old(self)@.pending.contains(replies@[k].id->0) && is_closed_reply(
                replies@[k],
                replies@[k].id->0,
            )) by {
                assert(is_closed_reply(replies@[k], ids@[k]));
                assert(ids@.to_set().contains(ids@[k]));
            }
            assert forall|j: u64| old(self)@.pending.contains(j) implies exists|k: int|
                0 <= k < replies@.len() && #[trigger] replies@[k].id == Some(j) by {
                assert(ids@.to_set().contains(j));
                let k = choose|k: int| 0 <= k < ids@.len() && ids@[k] == j;
                assert(is_closed_reply(replies@[k], ids@[k]));
            }
            assert forall|a: int, b: int|
                0 <= a < replies@.len() && 0 <= b < replies@.len() && a != b implies replies@[a].id
                != replies@[b].id by {
                assert(is_closed_reply(replies@[a], ids@[a]));
                assert(is_closed_reply(replies@[b], ids@[b]));
            }
        }
        self.pending.clear();
        self.connected = false;
        replies
    }

    /// Marks the connection closed by the caller; it accepts no more commands.
    pub fn close(&mut self)
        ensures
            final(self)@ == old(self)@.after_close(),
    {
        self.connected = false;
    }
}

/// The outcome of a command from its reply: the browser's error as a
/// `ProtocolError`, otherwise the result, or `null` where there is none.
pub fn command_result(response: CdpResponse) -> (r: Result<Json, PlaywLeftError>)
    ensures
        match response.error {
            Some(e) => r matches Err(PlaywLeftError::ProtocolError { code, message }) && code
                == e.code && message@ == e.message@,
            None => r matches Ok(v) && v@ == match response.result {
                Some(x) => x@,
                None => JsonV::Null,
            },
        },
{
    if let Some(error) = response.error {
        return Err(PlaywLeftError::ProtocolError { code: error.code, message: error.message });
    }
    match response.result {
        Some(v) => Ok(v),
        None => Ok(Json::Null),
    }
}

/// The event that a waiter for `method` accepts: any event of that name.
pub fn is_event_named(event: &CdpResponse, method: &str) -> (r: bool)
    ensures
        r == (opt_view(event.method) == Some(method@)),
{
    match &event.method {
        Some(m) => crate::text::str_eq(m.as_str(), method),
        None => false,
    }
}

/// The message of a command that got no reply in time.
pub fn command_timeout_message(method: &str, timeout_ms: u64) -> (r: String)
    ensures
        r@ == method@ + " timed out after "@ + decimal(timeout_ms as nat) + "ms"@,
{
    let mut r = concat(method, " timed out after ");
    write_decimal(&mut r, timeout_ms);
    r.append("ms");
    r
}

/// The message of an event that did not come in time.
pub fn event_timeout_message(method: &str) -> (r: String)
    ensures
        r@ == "Waiting for "@ + method@ + " timed out"@,
{
    concat3("Waiting for ", method, " timed out")
}

/// The JSON frame of a command as it goes on the wire: its id and method,
/// then its parameters unless they are `null`, then its session id where it
/// has one.
pub open spec fn command_frame_spec(c: CdpCommand) -> JsonV {
    JsonV::Object(
        seq![("id"@, JsonV::Number(JsonNumber::PosInt(c.id))), ("method"@, JsonV::Str(c.method@))]
            + opt_member("params"@, if c.params@ is Null { None } else { Some(c.params@) })
            + opt_member(
            "sessionId"@,
            match c.session_id {
                Some(s) => Some(JsonV::Str(s@)),
                None => None,
            },
        ),
    )
}

/// The JSON frame of a command (see [`command_frame_spec`]).
pub fn command_frame(c: CdpCommand) -> (r: Json)
    ensures
        r@ == command_frame_spec(c),
{
    let ghost spec_frame = command_frame_spec(c);
    let CdpCommand { id, method, params, session_id } = c;
    let mut fields: Vec<(String, Json)> = Vec::new();
    Json::push_member(&mut fields, "id", Json::uint(id));
    Json::push_member(&mut fields, "method", Json::string(method.as_str()));
    let ghost m0 = members_model(fields@);
    let ghost pv = params@;
    if !params.is_null() {
        Json::push_member(&mut fields, "params", params);
    }
    let ghost m1 = members_model(fields@);
    let ghost sv = opt_view(session_id);
    if let Some(sid) = session_id {
        Json::push_member(&mut fields, "sessionId", Json::string(sid.as_str()));
    }
    proof {
        assert(m1 =~= m0 + opt_member("params"@, if pv is Null { None } else { Some(pv) }));
        assert(members_model(fields@) =~= m1 + opt_member(
            "sessionId"@,
            match sv {
                Some(s) => Some(JsonV::Str(s)),
                None => None,
            },
        ));
        assert(members_model(fields@) =~= spec_frame->Object_0);
    }
    Json::object(fields)
}

/// What happens to a transport, one step at a time: a command is sent, or a
/// message (with its id, where it has one) arrives.
pub enum TransportStep {
    Send,
    Message(Option<u64>),
}

/// The bookkeeping after a run of steps.
pub open spec fn run(v: TransportView, steps: Seq<TransportStep>) -> TransportView
    decreases steps.len(),
{
    if steps.len() == 0 {
        v
    } else {
        let w = run(v, steps.drop_last());
        match steps.last() {
            TransportStep::Send => w.after_send(),
            TransportStep::Message(id) => w.after_message(id),
        }
    }
}

/// How many commands a run of steps sends.
pub open spec fn sends_in(steps: Seq<TransportStep>) -> nat
    decreases steps.len(),
{
    if steps.len() == 0 {
        0
    } else {
        sends_in(steps.drop_last()) + if steps.last() is Send {
            1nat
        } else {
            0nat
        }
    }
}

/// The ids that the commands of a run of steps get, in the order they were
/// sent.
pub open spec fn issued_ids(v: TransportView, steps: Seq<TransportStep>) -> Seq<u64>
    decreases steps.len(),
{
    if steps.len() == 0 {
        Seq::empty()
    } else {
        let before = issued_ids(v, steps.drop_last());
        if steps.last() is Send {
            match run(v, steps.drop_last()).issued() {
                Some(id) => before.push(id),
                None => before,
            }
        } else {
            before
        }
    }
}

// ─── Laws ────────────────────────────────────────────────────────────

/// Two commands sent one after the other get different ids.
pub proof fn law_successive_ids_differ(v: TransportView)
    requires
        v.connected,
    ensures
        v.after_send().issued() matches Some(second) && v.issued() matches Some(first) && first
            != second,
{
}

/// While the id counter has not wrapped around, every command gets an id
/// that no waiting command holds, and every waiting id stays below the
/// counter.
pub proof fn law_fresh_ids(v: TransportView)
    requires
        v.connected,
        v.next_id < u64::MAX,
        forall|p: u64| v.pending.contains(p) ==> p < v.next_id,
    ensures
        v.issued() matches Some(id) && !v.pending.contains(id),
        forall|p: u64| v.after_send().pending.contains(p) ==> p < v.after_send().next_id,
{
}

/// A sent command waits for its reply, and its reply is the one thing that
/// ends the wait: afterwards the same commands wait as before it was sent.
pub proof fn law_reply_ends_wait(v: TransportView)
    requires
        v.connected,
        !v.pending.contains(v.next_id),
    ensures
        v.after_send().claims(v.issued()),
        v.after_send().after_message(v.issued()).pending == v.pending,
{
    assert(v.after_send().pending.remove(v.next_id) =~= v.pending);
}

/// A reply is delivered to its waiter once: the same id arriving again is
/// claimed by no one and changes nothing.
pub proof fn law_reply_delivered_once(v: TransportView, id: u64)
    requires
        v.claims(Some(id)),
    ensures
        !v.after_message(Some(id)).claims(Some(id)),
        v.after_message(Some(id)).after_message(Some(id)) == v.after_message(Some(id)),
{
}

/// Messages without an id (events) leave the bookkeeping as it was.
pub proof fn law_events_keep_state(v: TransportView)
    ensures
        v.after_message(None) == v,
{
}

/// After the connection ends nothing waits, no command is accepted, and the
/// bookkeeping stays as it is.
pub proof fn law_nothing_after_shutdown(v: TransportView)
    ensures
        v.after_shutdown().pending.is_empty(),
        v.after_shutdown().issued() is None,
        v.after_shutdown().after_send() == v.after_shutdown(),
{
}

/// After the caller closes the connection, no command is accepted.
pub proof fn law_nothing_after_close(v: TransportView)
    ensures
        v.after_close().issued() is None,
        v.after_close().after_send() == v.after_close(),
{
}

/// From a fresh connection, whatever replies and events arrive in between,
/// the k-th command sent gets the id k, so no two commands share an id,
/// while fewer than `u64::MAX` commands have been sent; every id still
/// waiting is one of those already given, and the next command gets the
/// next number.
pub proof fn law_kth_command_gets_id_k(steps: Seq<TransportStep>)
    requires
        sends_in(steps) < u64::MAX,
    ensures
        issued_ids(TransportView::initial(), steps) == Seq::new(
            sends_in(steps),
            |i: int| (i + 1) as u64,
        ),
        issued_ids(TransportView::initial(), steps).no_duplicates(),
        run(TransportView::initial(), steps).issued() == Some((sends_in(steps) + 1) as u64),
        forall|p: u64|
            run(TransportView::initial(), steps).pending.contains(p) ==> 1 <= p <= sends_in(steps),
    decreases steps.len(),
{
    let v = TransportView::initial();
    let ids = issued_ids(v, steps);
    if steps.len() > 0 {
        let pre = steps.drop_last();
        law_kth_command_gets_id_k(pre);
        let w = run(v, pre);
        if steps.last() is Send {
            assert(ids =~= Seq::new(sends_in(steps), |i: int| (i + 1) as u64));
        } else {
            assert(ids =~= Seq::new(sends_in(steps), |i: int| (i + 1) as u64));
        }
    } else {
        assert(ids =~= Seq::new(sends_in(steps), |i: int| (i + 1) as u64));
    }
    assert forall|a: int, b: int| 0 <= a < ids.len() && 0 <= b < ids.len() && a != b implies ids[a]
        != ids[b] by {
        assert(ids[a] == (a + 1) as u64);
        assert(ids[b] == (b + 1) as u64);
    }
}

/// Every message without an id that names a method is an event, whatever
/// else it carries (a session id, parameters); a message with an id is a
/// reply, and a message with neither is neither.
pub proof fn law_messages_without_id_are_events(msg: CdpResponse)
    ensures
        (msg.id is None && msg.method is Some) <==> msg.spec_is_event(),
        msg.id is Some <==> msg.spec_is_response(),
        (msg.id is None && msg.method is Some) ==> !msg.spec_is_response(),
{
}

} // verus!
