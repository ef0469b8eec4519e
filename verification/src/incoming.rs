//! Messages from the daemon, and what the client does with each.

use vstd::prelude::*;

use crate::client::{disconnected, request_key, ClientState, ClientView, Disconnected};
use crate::contexts::{
    request_dispatch, Dispatch, DispatchView, HostParams, Rejection, RejectionView,
};
use crate::hubs::hubs_of;
use crate::protocol::{
    METHOD_CONTEXT_CANCEL_HOST, METHOD_SESSION_EVENT, METHOD_SESSION_EVENT_V2,
    METHOD_SESSION_INTERACTION_EVENT, METHOD_TOOL_CANCEL_HOST, METHOD_TURN_EVENT,
};
use crate::requests::{awaiting, response_result, RemoteError, RequestError};
use crate::run::{event_fits, is_news, run_accepted, Accepted, Room, RunEvent, RunState, RunView};
use crate::run_routes::run_routed;
use crate::sessions::{gone, knowing};
use crate::stream::StreamKind;
use crate::tables::{get_handle, insert_link, opt_text, remove_handle, remove_link};
use crate::text::{join2, same_text, signed_text};

verus! {

/// How a message names a request.
#[derive(Debug)]
pub enum RequestId {
    Text(String),
    Number(i64),
}

/// The text by which a request is found.
pub open spec fn id_text(id: RequestId) -> Seq<char> {
    match id {
        RequestId::Text(text) => text@,
        RequestId::Number(number) => request_key(number),
    }
}

impl RequestId {
    /// The text by which the request is found.
    pub fn key(&self) -> (key: String)
        ensures
            key@ == id_text(*self),
    {
        match self {
            RequestId::Text(text) => text.clone(),
            RequestId::Number(number) => signed_text(*number),
        }
    }
}

/// The parameters of a notification, as far as they could be read.
#[derive(Debug)]
pub enum NoticeParams {
    /// The invocation that is no longer wanted.
    Cancelled(String),
    /// An event of a run, with the request for approval that it holds.
    Turn { event: RunEvent, approval: Option<String> },
    /// An event of a session; `valid` says whether it is well formed. The host keeps
    /// the event.
    Event { session: String, valid: Result<(), String> },
    Unreadable,
}

/// A message from the daemon. `V` is the result of a request and `D` the data of an
/// error, as far as the host has read them.
#[derive(Debug)]
#[allow(inconsistent_fields)]
pub enum Incoming<V, D> {
    /// The line is no message.
    Unreadable(String),
    Response { id: RequestId, result: Option<V>, error: Option<RemoteError<D>> },
    Notification { method: String, params: NoticeParams },
    /// `callback` is the host's handle for the invocation, should there be one.
    Request { id: RequestId, method: String, params: HostParams, callback: u64 },
}

/// What the host does with a message.
pub enum IncomingStep<V, D> {
    Nothing,
    /// The connection is given up; where it was already, nothing is left to do.
    GiveUp(Option<Disconnected>),
    /// Hand the answer to whoever waits for it.
    Answer { reply: u64, result: Result<V, RequestError<D>> },
    /// Cancel an invocation.
    Cancel { callback: u64 },
    /// Apply the event to the run.
    Turn { run: u64, event: RunEvent, approval: Option<String> },
    /// Hand the event to the hub.
    Forward { hub: u64 },
    /// Answer or run a request of the daemon.
    Dispatch(Dispatch),
}

/// The client gave the connection up with a message.
pub open spec fn gave_up<V, D>(
    before: ClientView,
    after: ClientView,
    step: IncomingStep<V, D>,
    message: Seq<char>,
) -> bool {
    match step {
        IncomingStep::GiveUp(None) => before.closed && after == before,
        IncomingStep::GiveUp(Some(ended)) => {
            &&& !before.closed
            &&& ended.message@ == message
            &&& ended.covers(before)
            &&& after == disconnected(before)
        },
        _ => false,
    }
}

/// The client is past its handshake and still connected.
pub open spec fn initialized(client: ClientView) -> bool {
    !client.closed && client.initialization.ready()
}

/// What becomes of the answer to a request: whoever waits for it gets it, once.
pub open spec fn response_handled<V, D>(
    before: ClientView,
    after: ClientView,
    id: RequestId,
    result: Option<V>,
    error: Option<RemoteError<D>>,
    step: IncomingStep<V, D>,
) -> bool {
    &&& after == (ClientView { pending: before.pending.remove(id_text(id)), ..before })
    &&& match step {
        IncomingStep::Nothing => !before.pending.contains_key(id_text(id)),
        IncomingStep::Answer { reply, result: told } => {
            &&& before.pending.contains_pair(id_text(id), reply)
            &&& match (error, result, told) {
                (Some(remote), _, Err(RequestError::Remote(seen))) => seen == remote,
                (None, Some(value), Ok(seen)) => seen == value,
                (None, None, Err(RequestError::Sdk(failure))) => failure@
                    == crate::errors::ErrorView::Internal("Response has no result or error"@),
                _ => false,
            }
        },
        _ => false,
    }
}

/// What becomes of a cancellation: the invocation that it means is cancelled.
pub open spec fn cancel_handled<V, D>(
    callbacks: Map<Seq<char>, u64>,
    params: NoticeParams,
    step: IncomingStep<V, D>,
) -> bool {
    match params {
        NoticeParams::Cancelled(key) if callbacks.contains_key(key@) => step
            == (IncomingStep::<V, D>::Cancel { callback: callbacks[key@] }),
        _ => step is Nothing,
    }
}

/// What becomes of an event of a session: its hub gets it, and an event that is not
/// well formed ends the connection.
pub open spec fn event_handled<V, D>(
    before: ClientView,
    after: ClientView,
    kind: StreamKind,
    params: NoticeParams,
    complaint: Seq<char>,
    step: IncomingStep<V, D>,
) -> bool {
    match params {
        NoticeParams::Event { session, valid } => match valid {
            Ok(()) => {
                &&& after == before
                &&& if hubs_of(before, kind).contains_key(session@) {
                    step == (IncomingStep::<V, D>::Forward {
                        hub: hubs_of(before, kind)[session@],
                    })
                } else {
                    step is Nothing
                }
            },
            Err(reason) => gave_up(before, after, step, complaint + ": "@ + reason@),
        },
        _ => gave_up(before, after, step, complaint),
    }
}

/// What becomes of a notification. Before the handshake none counts; unknown ones are
/// ignored.
pub open spec fn notice_handled<V, D>(
    before: ClientView,
    after: ClientView,
    method: Seq<char>,
    params: NoticeParams,
    step: IncomingStep<V, D>,
) -> bool {
    if !initialized(before) {
        after == before && step is Nothing
    } else if method == METHOD_TOOL_CANCEL_HOST@ {
        after == before && cancel_handled(before.tool_callbacks, params, step)
    } else if method == METHOD_CONTEXT_CANCEL_HOST@ {
        after == before && cancel_handled(before.context_callbacks, params, step)
    } else if method == METHOD_TURN_EVENT@ {
        match params {
            NoticeParams::Turn { event, approval } => {
                &&& after == before
                &&& if before.runs.contains_key(event.turn_id@) {
                    step == (IncomingStep::<V, D>::Turn {
                        run: before.runs[event.turn_id@],
                        event,
                        approval,
                    })
                } else {
                    step is Nothing
                }
            },
            _ => gave_up(before, after, step, "Invalid turn.event payload"@),
        }
    } else if method == METHOD_SESSION_EVENT@ {
        event_handled(
            before,
            after,
            StreamKind::Session,
            params,
            "Invalid session.event payload"@,
            step,
        )
    } else if method == METHOD_SESSION_EVENT_V2@ {
        event_handled(
            before,
            after,
            StreamKind::Management,
            params,
            "Invalid session.event.v2 payload"@,
            step,
        )
    } else if method == METHOD_SESSION_INTERACTION_EVENT@ {
        event_handled(
            before,
            after,
            StreamKind::Interaction,
            params,
            "Invalid session.interaction_event payload"@,
            step,
        )
    } else {
        after == before && step is Nothing
    }
}

/// What becomes of a message.
pub open spec fn message_handled<V, D>(
    before: ClientView,
    after: ClientView,
    message: Incoming<V, D>,
    step: IncomingStep<V, D>,
) -> bool {
    match message {
        Incoming::Unreadable(error) => gave_up(
            before,
            after,
            step,
            "Invalid daemon message: "@ + error@,
        ),
        Incoming::Response { id, result, error } => response_handled(
            before,
            after,
            id,
            result,
            error,
            step,
        ),
        Incoming::Notification { method, params } => notice_handled(
            before,
            after,
            method@,
            params,
            step,
        ),
        Incoming::Request { id, method, params, callback } => {
            let (dispatched, expected) = if initialized(before) {
                request_dispatch(before, id_text(id), method@, params, callback)
            } else {
                (before, DispatchView::Reject(RejectionView::NotInitialized))
            };
            &&& after == dispatched
            &&& step is Dispatch
            &&& step->Dispatch_0.is(expected)
        },
    }
}

impl ClientState {
    fn give_up<V, D>(&mut self, message: &str) -> (step: IncomingStep<V, D>)
        ensures
            gave_up(old(self)@, final(self)@, step, message@),
    {
        IncomingStep::GiveUp(self.disconnect(message))
    }

    fn cancel_notice<V, D>(&self, context: bool, params: &NoticeParams) -> (step: IncomingStep<
        V,
        D,
    >)
        ensures
            cancel_handled(
                if context {
                    self@.context_callbacks
                } else {
                    self@.tool_callbacks
                },
                *params,
                step,
            ),
    {
        match params {
            NoticeParams::Cancelled(key) => match self.cancelled_invocation(
                context,
                key.as_str(),
            ) {
                Some(callback) => IncomingStep::Cancel { callback },
                None => IncomingStep::Nothing,
            },
            _ => IncomingStep::Nothing,
        }
    }

    fn event_notice<V, D>(&mut self, kind: StreamKind, params: NoticeParams, complaint: &str) -> (step:
        IncomingStep<V, D>)
        ensures
            event_handled(old(self)@, final(self)@, kind, params, complaint@, step),
    {
        match params {
            NoticeParams::Event { session, valid } => match self.route_event(
                kind,
                session.as_str(),
                valid,
            ) {
                Ok(Some(hub)) => IncomingStep::Forward { hub },
                Ok(None) => IncomingStep::Nothing,
                Err(reason) => {
                    let head = join2(complaint, ": ");
                    self.give_up(join2(head.as_str(), reason.as_str()).as_str())
                },
            },
            _ => self.give_up(complaint),
        }
    }

    fn notice<V, D>(&mut self, method: &str, params: NoticeParams) -> (step: IncomingStep<V, D>)
        ensures
            notice_handled(old(self)@, final(self)@, method@, params, step),
    {
        if !self.is_initialized() {
            return IncomingStep::Nothing;
        }
        if same_text(method, METHOD_TOOL_CANCEL_HOST) {
            self.cancel_notice(false, &params)
        } else if same_text(method, METHOD_CONTEXT_CANCEL_HOST) {
            self.cancel_notice(true, &params)
        } else if same_text(method, METHOD_TURN_EVENT) {
            match params {
                NoticeParams::Turn { event, approval } => match get_handle(
                    &self.runs,
                    event.turn_id.as_str(),
                ) {
                    Some(run) => IncomingStep::Turn { run, event, approval },
                    None => IncomingStep::Nothing,
                },
                _ => self.give_up("Invalid turn.event payload"),
            }
        } else if same_text(method, METHOD_SESSION_EVENT) {
            self.event_notice(StreamKind::Session, params, "Invalid session.event payload")
        } else if same_text(method, METHOD_SESSION_EVENT_V2) {
            self.event_notice(StreamKind::Management, params, "Invalid session.event.v2 payload")
        } else if same_text(method, METHOD_SESSION_INTERACTION_EVENT) {
            self.event_notice(
                StreamKind::Interaction,
                params,
                "Invalid session.interaction_event payload",
            )
        } else {
            IncomingStep::Nothing
        }
    }

    /// Takes a message from the daemon.
    pub fn incoming<V, D>(&mut self, message: Incoming<V, D>) -> (step: IncomingStep<V, D>)
        ensures
            message_handled(old(self)@, final(self)@, message, step),
    {
        match message {
            Incoming::Unreadable(error) => self.give_up(
                join2("Invalid daemon message: ", error.as_str()).as_str(),
            ),
            Incoming::Response { id, result, error } => {
                let key = id.key();
                match self.take_reply(key.as_str()) {
                    Some(reply) => IncomingStep::Answer {
                        reply,
                        result: response_result(result, error),
                    },
                    None => IncomingStep::Nothing,
                }
            },
            Incoming::Notification { method, params } => self.notice(method.as_str(), params),
            Incoming::Request { id, method, params, callback } => {
                if !self.is_initialized() {
                    return IncomingStep::Dispatch(Dispatch::Reject(Rejection::NotInitialized));
                }
                let key = id.key();
                IncomingStep::Dispatch(
                    self.dispatch_request(key.as_str(), method.as_str(), &params, callback),
                )
            },
        }
    }

    /// Applies an event to the run that it was routed to. `room` is what the reader's
    /// buffer would answer. A request for approval is remembered while the session
    /// exists, and the last event of the run ends its route.
    pub fn apply_turn_event(
        &mut self,
        handle: u64,
        run: &mut RunState,
        event: RunEvent,
        approval: Option<String>,
        room: Room,
    ) -> (accepted: Accepted)
        ensures
            final(run)@ == run_accepted(event_claimed(old(run)@, event), event, room),
            accepted.deliver == crate::run::is_delivered(old(run)@, event, room),
            accepted.ends_route == (is_news(old(run)@, event) && event.payload is Finished),
            final(self)@ == route_ended(
                approval_noted(
                    old(self)@,
                    event.thread_id@,
                    event.turn_id@,
                    opt_text(approval),
                ),
                old(run)@.turn,
                handle,
                accepted.ends_route,
            ),
    {
        if same_text(run.thread_id.as_str(), event.thread_id.as_str()) && same_text(
            run.turn_id.as_str(),
            event.turn_id.as_str(),
        ) && event.seq > 0 {
            run.claim_event_route();
        }
        if let Some(request) = approval {
            if self.session_exists(event.thread_id.as_str()) {
                insert_link(
                    &mut self.approval_sessions,
                    request.clone(),
                    event.thread_id.clone(),
                );
                insert_link(&mut self.approval_turns, request, event.turn_id.clone());
            }
        }
        let turn_id = run.turn_id.clone();
        let accepted = run.accept(event, room);
        if accepted.ends_route {
            self.end_route(turn_id.as_str(), handle);
        }
        accepted
    }

    /// Drops the route of a run, unless another run has taken it over.
    pub(crate) fn end_route(&mut self, turn_id: &str, handle: u64)
        ensures
            final(self)@ == route_ended(old(self)@, turn_id@, handle, true),
    {
        if let Some(current) = get_handle(&self.runs, turn_id) {
            if current == handle {
                remove_handle(&mut self.runs, turn_id);
                remove_link(&mut self.run_sessions, turn_id);
            }
        }
    }
}

/// The run when a real event of its own has come.
pub open spec fn event_claimed(run: RunView, event: RunEvent) -> RunView {
    if event_fits(run, event) && event.seq > 0 {
        RunView { event_route_claimed: true, ..run }
    } else {
        run
    }
}

/// The client when a run has asked for an approval.
pub open spec fn approval_noted(
    client: ClientView,
    session: Seq<char>,
    turn: Seq<char>,
    approval: Option<Seq<char>>,
) -> ClientView {
    match approval {
        None => client,
        Some(request) => {
            let known = knowing(client, session);
            if client.closed || gone(known, session) {
                known
            } else {
                ClientView {
                    approval_sessions: known.approval_sessions.insert(request, session),
                    approval_turns: known.approval_turns.insert(request, turn),
                    ..known
                }
            }
        },
    }
}

/// The client when a run no longer gets events. A run that took the route over keeps it.
pub open spec fn route_ended(client: ClientView, turn: Seq<char>, handle: u64, ends: bool) -> ClientView {
    if ends && client.runs.contains_pair(turn, handle) {
        ClientView {
            runs: client.runs.remove(turn),
            run_sessions: client.run_sessions.remove(turn),
            ..client
        }
    } else {
        client
    }
}

/// Until the handshake is done, the daemon can only answer: no notification and no
/// request of it changes the client or runs user code.
pub proof fn nothing_runs_before_the_handshake<V, D>(
    before: ClientView,
    after: ClientView,
    message: Incoming<V, D>,
    step: IncomingStep<V, D>,
)
    requires
        !initialized(before),
        message is Notification || message is Request,
        message_handled(before, after, message, step),
    ensures
        after == before,
        step is Nothing || (step is Dispatch && step->Dispatch_0 is Reject),
{
}

/// An answer is handed on at most once.
pub proof fn answer_is_handed_on_once<V, D>(
    before: ClientView,
    between: ClientView,
    after: ClientView,
    id: RequestId,
    first: Incoming<V, D>,
    second: Incoming<V, D>,
    step: IncomingStep<V, D>,
    again: IncomingStep<V, D>,
)
    requires
        first is Response,
        second is Response,
        first->Response_id == id,
        second->Response_id == id,
        message_handled(before, between, first, step),
        message_handled(between, after, second, again),
    ensures
        again is Nothing,
        after == between,
{
    assert(between.pending.remove(id_text(id)) =~= between.pending);
}

/// The answer to a request reaches whoever waits for it, as the daemon gave it.
pub proof fn answer_reaches_its_request<V, D>(
    client: ClientView,
    after: ClientView,
    id: i64,
    session: Option<Seq<char>>,
    reply: u64,
    value: V,
    step: IncomingStep<V, D>,
)
    requires
        message_handled(
            awaiting(client, request_key(id), session, reply),
            after,
            (Incoming::<V, D>::Response {
                id: RequestId::Number(id),
                result: Some(value),
                error: None,
            }),
            step,
        ),
    ensures
        step == (IncomingStep::<V, D>::Answer { reply, result: Ok(value) }),
        !after.pending.contains_key(request_key(id)),
{
}

/// The events of a run that has a route reach that run and change nothing else.
pub proof fn events_reach_their_run<V, D>(
    client: ClientView,
    after: ClientView,
    session: Seq<char>,
    handle: u64,
    method: String,
    event: RunEvent,
    approval: Option<String>,
    step: IncomingStep<V, D>,
)
    requires
        initialized(client),
        method@ == METHOD_TURN_EVENT@,
        message_handled(
            run_routed(client, session, event.turn_id@, handle),
            after,
            (Incoming::<V, D>::Notification {
                method,
                params: NoticeParams::Turn { event, approval },
            }),
            step,
        ),
    ensures
        step == (IncomingStep::<V, D>::Turn { run: handle, event, approval }),
        after == run_routed(client, session, event.turn_id@, handle),
{
    reveal_strlit("turn.event");
    reveal_strlit("tool.cancel_host");
    reveal_strlit("context.cancel_host");
    assert(METHOD_TURN_EVENT@.len() == 10);
    assert(METHOD_TOOL_CANCEL_HOST@.len() == 16);
    assert(METHOD_CONTEXT_CANCEL_HOST@.len() == 19);
}

/// A message that is none ends the connection, unless it has ended already: everything that
/// was under way is handed to the host, and nothing is left.
pub proof fn unreadable_message_ends_the_connection<V, D>(
    before: ClientView,
    after: ClientView,
    error: String,
    step: IncomingStep<V, D>,
)
    requires
        message_handled(before, after, Incoming::<V, D>::Unreadable(error), step),
    ensures
        before.closed ==> after == before && step == IncomingStep::<V, D>::GiveUp(None),
        !before.closed ==> {
            &&& step matches IncomingStep::GiveUp(Some(ended)) && ended.covers(before)
                && error@.is_suffix_of(ended.message@)
            &&& after == disconnected(before)
            &&& after.closed
        },
{
}

/// An answer that nobody waits for changes nothing. An answer with an error is handed on as
/// that error, whatever else it holds, and one with neither a result nor an error as a
/// failure. Only the wait for it ends.
pub proof fn answers_are_handed_on_whole<V, D>(
    before: ClientView,
    after: ClientView,
    id: RequestId,
    key: Seq<char>,
    result: Option<V>,
    error: Option<RemoteError<D>>,
    step: IncomingStep<V, D>,
    other: Seq<char>,
)
    requires
        message_handled(before, after, (Incoming::<V, D>::Response { id, result, error }), step),
        key == match id {
            RequestId::Text(text) => text@,
            RequestId::Number(number) => request_key(number),
        },
    ensures
        !before.pending.contains_key(key) ==> step is Nothing,
        before.pending.contains_key(key) ==> {
            &&& step matches IncomingStep::Answer { reply, result: told } && reply
                == before.pending[key] && match error {
                Some(remote) => told == Err::<V, RequestError<D>>(RequestError::Remote(remote)),
                None => match result {
                    Some(value) => told == Ok::<V, RequestError<D>>(value),
                    None => told matches Err(RequestError::Sdk(failure)) && failure@ is Internal,
                },
            }
        },
        !after.pending.contains_key(key),
        other != key ==> after.pending.get(other) == before.pending.get(other),
        after == (ClientView { pending: after.pending, ..before }),
{
}

/// A request is found by the text that it was named with, or by the text of its number.
pub proof fn requests_are_found_by_text(text: String, number: i64)
    ensures
        id_text(RequestId::Text(text)) == text@,
        id_text(RequestId::Number(number)) == request_key(number),
{
}

/// The client is initialized exactly where the daemon accepted the handshake and the
/// connection is still there.
pub proof fn initialized_means_accepted_and_connected(client: ClientView)
    ensures
        initialized(client) <==> !client.closed && (client.initialization
            matches crate::initialization::Initialization::Settled(settled) && settled is Ok),
{
}

/// A cancellation finds the invocation that it means, of a tool or of a policy, and nothing
/// else changes. A cancellation of nothing, or one that cannot be read, is ignored.
pub proof fn cancellation_finds_its_invocation<V, D>(
    before: ClientView,
    after: ClientView,
    method: String,
    params: NoticeParams,
    step: IncomingStep<V, D>,
)
    requires
        message_handled(
            before,
            after,
            (Incoming::<V, D>::Notification { method, params }),
            step,
        ),
        initialized(before),
        method@ == "tool.cancel_host"@ || method@ == "context.cancel_host"@,
    ensures
        after == before,
        ({
            let callbacks = if method@ == "tool.cancel_host"@ {
                before.tool_callbacks
            } else {
                before.context_callbacks
            };
            match params {
                NoticeParams::Cancelled(key) => match callbacks.get(key@) {
                    Some(callback) => step == (IncomingStep::<V, D>::Cancel { callback }),
                    None => step is Nothing,
                },
                _ => step is Nothing,
            }
        }),
{
    reveal_strlit("tool.cancel_host");
    reveal_strlit("context.cancel_host");
    assert("tool.cancel_host"@.len() != "context.cancel_host"@.len());
}

/// An event of a session reaches the hub that the session has on that surface, and changes
/// nothing. Where there is none it is ignored. An event that is not well formed, or that
/// cannot be read, ends the connection.
pub proof fn session_events_reach_their_hub<V, D>(
    before: ClientView,
    after: ClientView,
    method: String,
    params: NoticeParams,
    step: IncomingStep<V, D>,
)
    requires
        message_handled(
            before,
            after,
            (Incoming::<V, D>::Notification { method, params }),
            step,
        ),
        initialized(before),
        method@ == "session.event"@ || method@ == "session.event.v2"@ || method@
            == "session.interaction_event"@,
    ensures
        ({
            let hubs = if method@ == "session.event"@ {
                before.session_event_hubs
            } else if method@ == "session.event.v2"@ {
                before.session_event_hubs_v2
            } else {
                before.interaction_event_hubs
            };
            match params {
                NoticeParams::Event { session, valid } if valid is Ok => after == before
                    && match hubs.get(session@) {
                    Some(hub) => step == (IncomingStep::<V, D>::Forward { hub }),
                    None => step is Nothing,
                },
                _ => {
                    &&& step matches IncomingStep::GiveUp(Some(ended)) && ended.covers(before) && (
                    params matches NoticeParams::Event { valid: Err(reason), .. }
                        ==> reason@.is_suffix_of(ended.message@))
                    &&& after == disconnected(before)
                },
            }
        }),
{
    lemma_notices_differ();
}

proof fn lemma_notices_differ()
    ensures
        "tool.cancel_host"@.len() == 16,
        "context.cancel_host"@.len() == 19,
        "turn.event"@.len() == 10,
        "session.event"@.len() == 13,
        "session.event.v2"@.len() == 16,
        "session.event.v2"@[0] != "tool.cancel_host"@[0],
        "session.interaction_event"@.len() == 25,
{
    reveal_strlit("tool.cancel_host");
    reveal_strlit("context.cancel_host");
    reveal_strlit("turn.event");
    reveal_strlit("session.event");
    reveal_strlit("session.event.v2");
    reveal_strlit("session.interaction_event");
}

/// An event of a run without a route is ignored; one that cannot be read ends the
/// connection.
pub proof fn stray_run_events_are_ignored<V, D>(
    before: ClientView,
    after: ClientView,
    method: String,
    params: NoticeParams,
    step: IncomingStep<V, D>,
)
    requires
        message_handled(
            before,
            after,
            (Incoming::<V, D>::Notification { method, params }),
            step,
        ),
        initialized(before),
        method@ == "turn.event"@,
    ensures
        match params {
            NoticeParams::Turn { event, approval } => after == before && match before.runs.get(
                event.turn_id@,
            ) {
                Some(run) => step == (IncomingStep::<V, D>::Turn { run, event, approval }),
                None => step is Nothing,
            },
            _ => after == disconnected(before) && (step matches IncomingStep::GiveUp(Some(ended))
                && ended.covers(before)),
        },
{
    lemma_notices_differ();
}

/// A notification of another name is ignored.
pub proof fn unknown_notices_are_ignored<V, D>(
    before: ClientView,
    after: ClientView,
    method: String,
    params: NoticeParams,
    step: IncomingStep<V, D>,
)
    requires
        message_handled(
            before,
            after,
            (Incoming::<V, D>::Notification { method, params }),
            step,
        ),
        method@ != "tool.cancel_host"@,
        method@ != "context.cancel_host"@,
        method@ != "turn.event"@,
        method@ != "session.event"@,
        method@ != "session.event.v2"@,
        method@ != "session.interaction_event"@,
    ensures
        after == before,
        step is Nothing,
{
}

/// A request of the daemon is dispatched once the handshake was accepted, under the text of
/// its own number; before, it is told that the connection is not initialized.
pub proof fn requests_are_dispatched_after_the_handshake<V, D>(
    before: ClientView,
    after: ClientView,
    id: RequestId,
    method: String,
    params: HostParams,
    callback: u64,
    step: IncomingStep<V, D>,
)
    requires
        message_handled(
            before,
            after,
            (Incoming::<V, D>::Request { id, method, params, callback }),
            step,
        ),
    ensures
        step matches IncomingStep::Dispatch(dispatch) && if initialized(before) {
            let (known, expected) = request_dispatch(
                before,
                match id {
                    RequestId::Text(text) => text@,
                    RequestId::Number(number) => request_key(number),
                },
                method@,
                params,
                callback,
            );
            after == known && dispatch.is(expected)
        } else {
            after == before && (dispatch matches Dispatch::Reject(rejection) && rejection@
                == RejectionView::NotInitialized)
        },
{
}

/// Giving up leaves a client that has given up before alone, and else hands over all that
/// was under way, with the message.
pub proof fn giving_up_happens_once<V, D>(
    before: ClientView,
    after: ClientView,
    step: IncomingStep<V, D>,
    message: Seq<char>,
)
    requires
        gave_up(before, after, step, message),
    ensures
        before.closed ==> step == IncomingStep::<V, D>::GiveUp(None) && after == before,
        !before.closed ==> after == disconnected(before) && (step matches IncomingStep::GiveUp(
            Some(ended),
        ) && ended.message@ == message && ended.covers(before)),
{
}

/// A real event of its own makes sure of a run's route; an event of another run, or one
/// without a number, does not. Nothing else of the run changes.
pub proof fn real_events_claim_the_route(run: RunView, event: RunEvent)
    ensures
        ({
            let after = event_claimed(run, event);
            let own = event.thread_id@ == run.thread && event.turn_id@ == run.turn && event.seq
                > 0;
            &&& own ==> after.event_route_claimed
            &&& !own ==> after == run
            &&& after == (RunView { event_route_claimed: after.event_route_claimed, ..run })
        }),
{
}

/// A request for approval is remembered with its session and its run while the session is
/// there and the connection too, even while a close is under way. Otherwise it is not, and
/// without a request nothing changes.
pub proof fn approvals_are_remembered(
    client: ClientView,
    session: Seq<char>,
    turn: Seq<char>,
    request: Seq<char>,
    other: Seq<char>,
)
    ensures
        ({
            let after = approval_noted(client, session, turn, Some(request));
            let there = !client.closed && (client.sessions.contains_key(session) ==> !(
            client.sessions[session].phase is Releasing || client.sessions[session].phase
                == crate::sessions::SessionPhase::Closed));
            &&& there ==> after.approval_sessions.get(request) == Some(session)
            &&& there ==> after.approval_turns.get(request) == Some(turn)
            &&& !there ==> after.approval_sessions == client.approval_sessions
            &&& !there ==> after.approval_turns == client.approval_turns
            &&& other != request ==> after.approval_sessions.get(other)
                == client.approval_sessions.get(other)
            &&& other != request ==> after.approval_turns.get(other) == client.approval_turns.get(
                other,
            )
            &&& after == (ClientView {
                approval_sessions: after.approval_sessions,
                approval_turns: after.approval_turns,
                ..knowing(client, session)
            })
        }),
        approval_noted(client, session, turn, None) == client,
{
}

/// The route of a run ends where it is to end and is still the run's own. Other routes stay.
pub proof fn own_route_ends(
    client: ClientView,
    turn: Seq<char>,
    handle: u64,
    ends: bool,
    other: Seq<char>,
)
    ensures
        ({
            let after = route_ended(client, turn, handle, ends);
            let own = client.runs.contains_key(turn) && client.runs[turn] == handle;
            &&& ends && own ==> !after.runs.contains_key(turn)
                && !after.run_sessions.contains_key(turn)
            &&& !(ends && own) ==> after == client
            &&& other != turn ==> after.runs.get(other) == client.runs.get(other)
            &&& other != turn ==> after.run_sessions.get(other) == client.run_sessions.get(other)
            &&& after == (ClientView {
                runs: after.runs,
                run_sessions: after.run_sessions,
                ..client
            })
        }),
{
}

} // verus!
