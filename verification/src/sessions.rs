//! The life of a session on this connection: preparing, opening, closing and
//! releasing what it owns.

use vstd::prelude::*;

use crate::client::{ClientState, ClientView};
use crate::errors::{
    client_closed, client_is_closed, error_text, outcome, session_is_closed, ErrorView, SdkError,
};
use crate::protocol::{INVALID_PARAMS, METHOD_NOT_FOUND};
use crate::session_management::SessionLifecycleState;
use crate::tables::{
    binding_views, bindings_of, bindings_without, drop_links_outside, drop_links_to, drop_session_bindings, enumerates,
    get_binding, get_handle, get_lifecycle, handle_views, handles_not_of, handles_of,
    insert_binding, insert_handle, insert_lifecycle, links_within, links_without, list_handles_of, list_session_bindings,
    remove_handle,
    remove_lifecycle, take_handles_of,
};
use crate::text::{join2, join3, join4, same_text, separated, separated_text, text_list};

verus! {

/// How far a session has come on this connection. The number is the close attempt
/// that is under way.
#[derive(Clone, Copy, Debug, PartialEq, Eq, Structural)]
pub enum SessionPhase {
    Preparing,
    Open,
    Closing(u64),
    Releasing(u64),
    Closed,
}

/// The record of a session. `id` is its identity: a session of the same name that
/// comes later has another one.
#[derive(Clone, Copy, Debug, PartialEq, Eq, Structural)]
pub struct SessionLifecycle {
    pub id: u64,
    pub phase: SessionPhase,
    /// Whatever belongs to the session has been told to stop.
    pub released: bool,
    /// Who owns the session's tool packs.
    pub pack_owner: Option<u64>,
    /// The record exists only because someone asked for the session.
    pub provisional: bool,
    /// How many callers ask for it.
    pub provisional_users: u64,
}

/// The record of a session of which nothing is known.
pub open spec fn new_lifecycle(id: u64, provisional: bool) -> SessionLifecycle {
    SessionLifecycle {
        id,
        phase: SessionPhase::Open,
        released: false,
        pack_owner: None,
        provisional,
        provisional_users: 0,
    }
}

/// The number behind `n`; behind the last one comes zero.
pub open spec fn following(n: u64) -> u64 {
    if n == u64::MAX {
        0
    } else {
        (n + 1) as u64
    }
}

/// The number before `n`; before zero comes the last one.
pub open spec fn preceding(n: u64) -> u64 {
    if n == 0 {
        u64::MAX
    } else {
        (n - 1) as u64
    }
}

fn next_number(n: u64) -> (next: u64)
    ensures
        next == following(n),
{
    if n == u64::MAX {
        0
    } else {
        n + 1
    }
}

fn previous_number(n: u64) -> (previous: u64)
    ensures
        previous == preceding(n),
{
    if n == 0 {
        u64::MAX
    } else {
        n - 1
    }
}

/// The client with another record for a session.
pub open spec fn with_record(
    client: ClientView,
    session: Seq<char>,
    lifecycle: SessionLifecycle,
) -> ClientView {
    ClientView { sessions: client.sessions.insert(session, lifecycle), ..client }
}

/// The record of a session that is certainly known.
pub open spec fn record(client: ClientView, session: Seq<char>) -> SessionLifecycle {
    if client.sessions.contains_key(session) {
        SessionLifecycle { provisional: false, ..client.sessions[session] }
    } else {
        new_lifecycle(client.next_object, false)
    }
}

/// The client when it certainly knows a session.
pub open spec fn knowing(client: ClientView, session: Seq<char>) -> ClientView {
    ClientView {
        sessions: client.sessions.insert(session, record(client, session)),
        next_object: if client.sessions.contains_key(session) {
            client.next_object
        } else {
            following(client.next_object)
        },
        ..client
    }
}

/// Whether a session takes work.
pub open spec fn open_verdict(closed: bool, phase: SessionPhase, session: Seq<char>) -> Result<
    (),
    ErrorView,
> {
    if closed {
        Err(client_closed())
    } else if phase != SessionPhase::Open {
        Err(ErrorView::SessionClosed(session))
    } else {
        Ok(())
    }
}

/// Whether a session that has to be known takes work.
pub open spec fn existing_verdict(client: ClientView, session: Seq<char>) -> Result<(), ErrorView> {
    if client.sessions.contains_key(session) {
        open_verdict(client.closed, client.sessions[session].phase, session)
    } else {
        Err(ErrorView::SessionClosed(session))
    }
}

/// The client when a session has an event hub: `hub`, unless it has one already.
pub open spec fn with_hub(client: ClientView, session: Seq<char>, hub: u64) -> ClientView {
    if client.session_event_hubs.contains_key(session) {
        client
    } else {
        ClientView {
            session_event_hubs: client.session_event_hubs.insert(session, hub),
            ..client
        }
    }
}

/// A claim on a session that may turn out not to exist. `counted` claims keep a
/// provisional record alive.
#[derive(Debug)]
pub struct SessionProbe {
    pub session: String,
    pub id: u64,
    pub counted: bool,
}

/// The client when someone asks for a session.
pub open spec fn probed(client: ClientView, session: Seq<char>) -> ClientView {
    if client.sessions.contains_key(session) {
        let lifecycle = client.sessions[session];
        if lifecycle.provisional {
            with_record(
                client,
                session,
                SessionLifecycle {
                    provisional_users: following(lifecycle.provisional_users),
                    ..lifecycle
                },
            )
        } else {
            client
        }
    } else {
        ClientView {
            next_object: following(client.next_object),
            ..with_record(
                client,
                session,
                SessionLifecycle {
                    provisional_users: 1,
                    ..new_lifecycle(client.next_object, true)
                },
            )
        }
    }
}

/// The claim is on the session that the client knows now.
pub open spec fn is_current(client: ClientView, session: Seq<char>, id: u64) -> bool {
    client.sessions.contains_key(session) && client.sessions[session].id == id
}

/// The client when a counted claim is given up: the last one takes a record with it
/// that is still provisional.
pub open spec fn unprobed(client: ClientView, session: Seq<char>, id: u64) -> ClientView {
    if !is_current(client, session, id) {
        client
    } else {
        let lifecycle = client.sessions[session];
        let left = SessionLifecycle {
            provisional_users: preceding(lifecycle.provisional_users),
            ..lifecycle
        };
        if lifecycle.provisional_users == 1 && lifecycle.provisional {
            ClientView { sessions: client.sessions.remove(session), ..client }
        } else {
            with_record(client, session, left)
        }
    }
}

/// The client when a session that was asked for is known to exist.
pub open spec fn committed(client: ClientView, session: Seq<char>, id: u64) -> ClientView {
    if is_current(client, session, id) {
        with_record(
            client,
            session,
            SessionLifecycle { provisional: false, ..client.sessions[session] },
        )
    } else {
        client
    }
}

/// How a request to close a session begins.
#[derive(Clone, Copy, Debug, PartialEq, Eq, Structural)]
pub enum CloseStart {
    /// The session is still being prepared.
    Refused,
    AlreadyClosed,
    /// Another caller is closing the session; this one waits for the same outcome.
    Join { attempt: u64 },
    /// This caller closes the session.
    Own { attempt: u64 },
}

/// How a request to close a session begins, and the client then.
pub open spec fn close_begun(client: ClientView, session: Seq<char>) -> (ClientView, CloseStart) {
    let lifecycle = client.sessions[session];
    match lifecycle.phase {
        SessionPhase::Preparing => (client, CloseStart::Refused),
        SessionPhase::Closed => (client, CloseStart::AlreadyClosed),
        SessionPhase::Closing(attempt) | SessionPhase::Releasing(attempt) => (
            client,
            CloseStart::Join { attempt },
        ),
        SessionPhase::Open => (
            ClientView {
                next_object: following(client.next_object),
                ..with_record(
                    client,
                    session,
                    SessionLifecycle {
                        phase: SessionPhase::Closing(client.next_object),
                        ..lifecycle
                    },
                )
            },
            CloseStart::Own { attempt: client.next_object },
        ),
    }
}

/// What a caller who asked to close a session does.
#[derive(Debug)]
pub enum Close {
    /// The session was closed before; nothing is to be done.
    Done,
    /// Wait for the attempt that is under way, then give the claim up.
    Wait { claim: SessionProbe, attempt: u64 },
    /// Ask the daemon, settle the attempt, then give the claim up.
    Ask { claim: SessionProbe, attempt: u64 },
}

/// What becomes of a request to close a session on an open connection, and the client
/// then. A claim that leads to nothing is given up at once.
pub open spec fn close_asked(client: ClientView, session: Seq<char>) -> (ClientView, CloseStart) {
    let claimed = probed(client, session);
    let (begun, start) = close_begun(claimed, session);
    match start {
        CloseStart::Refused | CloseStart::AlreadyClosed => (
            if claimed.sessions[session].provisional {
                unprobed(begun, session, claimed.sessions[session].id)
            } else {
                begun
            },
            start,
        ),
        _ => (begun, start),
    }
}

/// `claim` is on the session that the client knows under that name.
pub open spec fn claims(claim: SessionProbe, client: ClientView, session: Seq<char>) -> bool {
    &&& claim.session@ == session
    &&& is_current(client, session, claim.id)
    &&& claim.counted == client.sessions[session].provisional
}

/// Why closing a session failed.
#[derive(Debug)]
pub enum CloseFailure {
    Rpc(i64, String),
    Unknown(String),
    LocalResource(String),
}

/// The error that a failed close is.
pub open spec fn close_error(failure: CloseFailure) -> ErrorView {
    match failure {
        CloseFailure::Rpc(code, message) => ErrorView::Rpc { code, message: message@ },
        CloseFailure::Unknown(message) => ErrorView::ChannelClosed(message@),
        CloseFailure::LocalResource(message) => ErrorView::Internal(message@),
    }
}

impl CloseFailure {
    /// The error that callers see.
    pub fn sdk(&self) -> (error: SdkError)
        ensures
            error@ == close_error(*self),
    {
        match self {
            CloseFailure::Rpc(code, message) => SdkError::Rpc {
                code: *code,
                message: message.clone(),
            },
            CloseFailure::Unknown(message) => SdkError::ChannelClosed(message.clone()),
            CloseFailure::LocalResource(message) => SdkError::Internal(message.clone()),
        }
    }
}

/// What every caller of one close attempt is told. Only the one who closed the
/// session learns that it was closed by the call. `outcome` is `None` where the close
/// was abandoned before it had one.
pub fn close_result(outcome: &Option<Result<bool, CloseFailure>>, owner: bool) -> (result: Result<
    bool,
    SdkError,
>)
    ensures
        match (*outcome, result) {
            (Some(Ok(by_daemon)), Ok(closed)) => closed == (owner && by_daemon),
            (Some(Err(failure)), Err(error)) => error@ == close_error(failure),
            (None, Err(error)) => error@ == ErrorView::ChannelClosed(
                "Session close task stopped"@,
            ),
            _ => false,
        },
{
    match outcome {
        Some(Ok(closed)) => Ok(owner && *closed),
        Some(Err(failure)) => Err(failure.sdk()),
        None => Err(SdkError::ChannelClosed("Session close task stopped".to_owned())),
    }
}

/// What the daemon answered to a close.
#[derive(Debug)]
pub enum CloseReply {
    Answered { thread_id: String, closed: bool },
    Failed(SdkError),
}

/// What follows the daemon's answer to a close.
#[derive(Debug)]
pub enum CloseStep {
    /// The daemon has closed the session: release what it owns here, then finish.
    Release { closed: bool },
    /// The daemon has not closed the session; it stays open.
    Reopen(CloseFailure),
    /// Nobody knows what the daemon did: close the connection.
    GiveUp(CloseFailure),
}

/// The daemon refused to close the session and certainly left it alone.
pub open spec fn refuses_close(error: ErrorView) -> bool {
    match error {
        ErrorView::Rpc { code, .. } => code == METHOD_NOT_FOUND || code == INVALID_PARAMS,
        _ => false,
    }
}

/// What nobody knows about a close.
pub open spec fn unknown_close(reply: CloseReply) -> Seq<char> {
    "Session close outcome unknown: "@ + match reply {
        CloseReply::Answered { .. } => "Daemon returned a different session identity"@,
        CloseReply::Failed(error) => error_text(error@),
    }
}

/// The client when a session is in another phase.
pub open spec fn in_phase(
    client: ClientView,
    session: Seq<char>,
    id: u64,
    phase: SessionPhase,
) -> ClientView {
    if is_current(client, session, id) {
        with_record(
            client,
            session,
            SessionLifecycle { phase, ..client.sessions[session] },
        )
    } else {
        client
    }
}

/// The session has been closed, or is giving up what it owns.
pub open spec fn gone(client: ClientView, session: Seq<char>) -> bool {
    client.sessions.contains_key(session) && (client.sessions[session].phase
        == SessionPhase::Closed || client.sessions[session].phase is Releasing)
}

/// What the host ends when a session gives up its routes.
pub struct ReleasedRoutes {
    /// A hub to wake up: its subscribers look for the last events.
    pub nudge: Option<u64>,
    pub session_hub: Option<u64>,
    pub interaction_hub: Option<u64>,
    /// Requests to answer with [`SdkError::SessionClosed`].
    pub replies: Vec<(String, u64)>,
    /// Callbacks of the session's tools, to stop and to wait for.
    pub tool_callbacks: Vec<(String, u64)>,
    /// Callbacks of the session's policy, to stop and to wait for.
    pub context_callbacks: Vec<(String, u64)>,
    /// Registrations of the session, to wait for behind the callbacks.
    pub registrations: Vec<((String, String), u64)>,
}

/// The client when a session has given up its routes.
pub open spec fn routes_released(client: ClientView, session: Seq<char>, id: u64) -> ClientView {
    let told = if is_current(client, session, id) {
        with_record(
            client,
            session,
            SessionLifecycle { released: true, ..client.sessions[session] },
        )
    } else {
        client
    };
    ClientView {
        session_event_hubs: client.session_event_hubs.remove(session),
        interaction_event_hubs: client.interaction_event_hubs.remove(session),
        interaction_sessions: client.interaction_sessions.remove(session),
        pending: handles_not_of(client.pending, client.pending_sessions, session),
        pending_sessions: links_without(client.pending_sessions, session),
        ..told
    }
}

/// What the host ends when a session gives up its bindings.
pub struct ReleasedBindings {
    /// Runs to fail: their session is closed.
    pub runs: Vec<(String, u64)>,
    /// The owner of the session's packs, to be closed.
    pub pack_owner: Option<u64>,
}

/// The client when a session has given up its bindings.
pub open spec fn bindings_released(client: ClientView, session: Seq<char>, id: u64) -> ClientView {
    let taken = if is_current(client, session, id) {
        with_record(
            client,
            session,
            SessionLifecycle { pack_owner: None, ..client.sessions[session] },
        )
    } else {
        client
    };
    ClientView {
        tools: bindings_without(client.tools, session),
        tool_bindings: bindings_without(client.tool_bindings, session),
        registration_locks: bindings_without(client.registration_locks, session),
        context_policies: client.context_policies.remove(session),
        approval_sessions: links_without(client.approval_sessions, session),
        approval_turns: links_within(
            client.approval_turns,
            links_without(client.approval_sessions, session),
        ),
        runs: handles_not_of(client.runs, client.run_sessions, session),
        run_sessions: links_without(client.run_sessions, session),
        run_handles: handles_not_of(client.run_handles, client.run_handle_sessions, session),
        run_handle_sessions: links_without(client.run_handle_sessions, session),
        ..taken
    }
}

impl ClientState {
    fn store(&mut self, session: &str, lifecycle: SessionLifecycle)
        ensures
            final(self)@ == with_record(old(self)@, session@, lifecycle),
    {
        insert_lifecycle(&mut self.sessions, session.to_owned(), lifecycle);
    }

    /// The record of a session, which is thereby known.
    pub fn session_lifecycle(&mut self, session: &str) -> (lifecycle: SessionLifecycle)
        ensures
            final(self)@ == knowing(old(self)@, session@),
            lifecycle == record(old(self)@, session@),
    {
        let lifecycle = match get_lifecycle(&self.sessions, session) {
            Some(lifecycle) => SessionLifecycle { provisional: false, ..lifecycle },
            None => {
                let id: u64 = self.next_object;
                self.next_object = next_number(id);
                SessionLifecycle {
                    id,
                    phase: SessionPhase::Open,
                    released: false,
                    pack_owner: None,
                    provisional: false,
                    provisional_users: 0,
                }
            },
        };
        self.store(session, lifecycle);
        lifecycle
    }

    fn check_phase(&self, session: &str, phase: SessionPhase) -> (result: Result<(), SdkError>)
        ensures
            outcome(result) == open_verdict(self@.closed, phase, session@),
    {
        if self.closed {
            return Err(client_is_closed());
        }
        if phase != SessionPhase::Open {
            return Err(session_is_closed(session));
        }
        Ok(())
    }

    /// Whether a session takes work; it is known from then on.
    pub fn check_session_open(&mut self, session: &str) -> (result: Result<(), SdkError>)
        ensures
            final(self)@ == knowing(old(self)@, session@),
            outcome(result) == open_verdict(
                old(self)@.closed,
                record(old(self)@, session@).phase,
                session@,
            ),
    {
        let lifecycle = self.session_lifecycle(session);
        self.check_phase(session, lifecycle.phase)
    }

    /// Whether a session that has to be known takes work.
    pub fn check_existing_session_open(&self, session: &str) -> (result: Result<(), SdkError>)
        ensures
            outcome(result) == existing_verdict(self@, session@),
    {
        match get_lifecycle(&self.sessions, session) {
            Some(lifecycle) => self.check_phase(session, lifecycle.phase),
            None => Err(session_is_closed(session)),
        }
    }

    /// Gives a session an event hub: `hub`, unless it has one already. The result is
    /// the hub that it has.
    pub fn ensure_session_event_hub(&mut self, session: &str, hub: u64) -> (used: u64)
        ensures
            final(self)@ == with_hub(old(self)@, session@, hub),
            final(self)@.session_event_hubs.contains_pair(session@, used),
    {
        match get_handle(&self.session_event_hubs, session) {
            Some(used) => used,
            None => {
                insert_handle(&mut self.session_event_hubs, session.to_owned(), hub);
                hub
            },
        }
    }

    /// Whether a session takes work; where it does, it has an event hub from then on.
    pub fn ensure_session_open(&mut self, session: &str, hub: u64) -> (result: Result<
        (),
        SdkError,
    >)
        ensures
            outcome(result) == open_verdict(
                old(self)@.closed,
                record(old(self)@, session@).phase,
                session@,
            ),
            final(self)@ == if result is Ok {
                with_hub(knowing(old(self)@, session@), session@, hub)
            } else {
                knowing(old(self)@, session@)
            },
    {
        match self.check_session_open(session) {
            Ok(()) => {
                self.ensure_session_event_hub(session, hub);
                Ok(())
            },
            Err(error) => Err(error),
        }
    }

    /// Starts to prepare a new session: it has an event hub before the daemon hears
    /// of it. The result is the session's record.
    pub fn prepare_session(&mut self, session: &str, hub: u64) -> (result: Result<
        SessionLifecycle,
        SdkError,
    >)
        ensures
            match result {
                Ok(lifecycle) => {
                    &&& !old(self)@.closed
                    &&& record(old(self)@, session@).phase == SessionPhase::Open
                    &&& lifecycle == (SessionLifecycle {
                        phase: SessionPhase::Preparing,
                        ..record(old(self)@, session@)
                    })
                    &&& final(self)@ == with_record(
                        with_hub(knowing(old(self)@, session@), session@, hub),
                        session@,
                        lifecycle,
                    )
                },
                Err(error) => {
                    &&& old(self)@.closed || record(old(self)@, session@).phase
                        != SessionPhase::Open
                    &&& error@ == ErrorView::SessionClosed(session@)
                    &&& final(self)@ == knowing(old(self)@, session@)
                },
            },
    {
        let lifecycle = self.session_lifecycle(session);
        if self.closed || lifecycle.phase != SessionPhase::Open {
            return Err(session_is_closed(session));
        }
        self.ensure_session_event_hub(session, hub);
        let prepared = SessionLifecycle { phase: SessionPhase::Preparing, ..lifecycle };
        self.store(session, prepared);
        Ok(prepared)
    }

    /// Ends the preparation of a session without its packs. A session that was not
    /// accepted is closed; the result then names the hub to end.
    pub fn finish_preparation(&mut self, session: &str, accepted: bool) -> (result: Result<
        Option<u64>,
        SdkError,
    >)
        ensures
            match result {
                Ok(hub) => {
                    let lifecycle = record(old(self)@, session@);
                    let known = knowing(old(self)@, session@);
                    &&& !old(self)@.closed
                    &&& lifecycle.phase == SessionPhase::Preparing
                    &&& if accepted {
                        &&& hub is None
                        &&& final(self)@ == with_record(
                            known,
                            session@,
                            SessionLifecycle { phase: SessionPhase::Open, ..lifecycle },
                        )
                    } else {
                        &&& hub == old(self)@.session_event_hubs.get(session@)
                        &&& final(self)@ == (ClientView {
                            session_event_hubs: known.session_event_hubs.remove(session@),
                            ..with_record(
                                known,
                                session@,
                                SessionLifecycle { phase: SessionPhase::Closed, ..lifecycle },
                            )
                        })
                    }
                },
                Err(error) => {
                    &&& old(self)@.closed || record(old(self)@, session@).phase
                        != SessionPhase::Preparing
                    &&& error@ == ErrorView::SessionClosed(session@)
                    &&& final(self)@ == knowing(old(self)@, session@)
                },
            },
    {
        let lifecycle = self.session_lifecycle(session);
        if self.closed || lifecycle.phase != SessionPhase::Preparing {
            return Err(session_is_closed(session));
        }
        if accepted {
            self.store(session, SessionLifecycle { phase: SessionPhase::Open, ..lifecycle });
            Ok(None)
        } else {
            let hub = remove_handle(&mut self.session_event_hubs, session);
            self.store(session, SessionLifecycle { phase: SessionPhase::Closed, ..lifecycle });
            Ok(hub)
        }
    }

    fn own_names(&mut self, session: &str, id: u64, names: &Vec<String>)
        ensures
            final(self)@ == names_owned(old(self)@, session@, id, text_list(names@)),
    {
        let ghost before = self@;
        drop_session_bindings(&mut self.pack_names, session);
        let mut i: usize = 0;
        while i < names.len()
            invariant
                i <= names.len(),
                self@ == names_owned(before, session@, id, text_list(names@).take(i as int)),
            decreases names.len() - i,
        {
            insert_binding(&mut self.pack_names, session, names[i].as_str(), id);
            proof {
                let shown = text_list(names@).take(i as int);
                let next = text_list(names@).take(i + 1);
                assert(next.drop_last() =~= shown);
                assert(next.last() == names@[i as int]@);
                assert(self@ =~= names_owned(before, session@, id, next));
            }
            i = i + 1;
        }
        assert(text_list(names@).take(i as int) =~= text_list(names@));
    }

    /// Opens a prepared session. `packs` is the owner of its packs with the tool
    /// names that they own; it is taken only where the session is opened. Only the
    /// session that was prepared is opened.
    pub fn accept_prepared_session(
        &mut self,
        session: &str,
        id: u64,
        packs: &mut Option<(u64, Vec<String>)>,
    ) -> (result: Result<(), SdkError>)
        ensures
            outcome(result) == acceptance(old(self)@, session@, id),
            match result {
                Ok(()) => {
                    &&& final(self)@ == accepted(old(self)@, session@, *old(packs))
                    &&& *final(packs) is None
                },
                Err(_) => final(self)@ == old(self)@ && *final(packs) == *old(packs),
            },
    {
        let lifecycle = match get_lifecycle(&self.sessions, session) {
            Some(lifecycle) => lifecycle,
            None => return Err(session_is_closed(session)),
        };
        if lifecycle.id != id {
            return Err(session_is_closed(session));
        }
        if self.closed || lifecycle.phase != SessionPhase::Preparing {
            return Err(session_is_closed(session));
        }
        if lifecycle.pack_owner.is_some() {
            return Err(SdkError::Internal("Prepared Session already owns ToolPacks".to_owned()));
        }
        let pack_owner = match packs.take() {
            Some((owner, names)) => {
                self.own_names(session, id, &names);
                Some(owner)
            },
            None => None,
        };
        self.store(
            session,
            SessionLifecycle { phase: SessionPhase::Open, pack_owner, ..lifecycle },
        );
        Ok(())
    }

    /// Drops a prepared session that the daemon did not take. The result names the
    /// hub to end. A session of the same name that came later is left alone.
    pub fn reject_prepared_session(&mut self, session: &str, id: u64) -> (hub: Option<u64>)
        ensures
            hub == old(self)@.session_event_hubs.get(session@),
            final(self)@ == rejected(old(self)@, session@, id),
    {
        let hub = remove_handle(&mut self.session_event_hubs, session);
        if let Some(lifecycle) = get_lifecycle(&self.sessions, session) {
            if lifecycle.id == id {
                remove_lifecycle(&mut self.sessions, session);
            }
        }
        hub
    }

    /// Takes the owner of a session's packs away from the session.
    pub fn take_attached_pack_owner(&mut self, session: &str) -> (owner: Option<u64>)
        ensures
            ({
                let known = old(self)@.sessions.contains_key(session@);
                let lifecycle = old(self)@.sessions[session@];
                &&& owner == if known {
                    lifecycle.pack_owner
                } else {
                    None
                }
                &&& final(self)@ == if known {
                    with_record(
                        old(self)@,
                        session@,
                        SessionLifecycle { pack_owner: None, ..lifecycle },
                    )
                } else {
                    old(self)@
                }
            }),
    {
        match get_lifecycle(&self.sessions, session) {
            Some(lifecycle) => {
                self.store(session, SessionLifecycle { pack_owner: None, ..lifecycle });
                lifecycle.pack_owner
            },
            None => None,
        }
    }

    /// Whether a session's name for a tool may be registered: the names of its packs
    /// may not.
    pub fn ensure_dynamic_tool_name_available(&self, session: &str, name: &str) -> (result: Result<
        (),
        SdkError,
    >)
        ensures
            outcome(result) == name_verdict(self@, session@, name@),
    {
        let lifecycle = match get_lifecycle(&self.sessions, session) {
            Some(lifecycle) => lifecycle,
            None => return Err(session_is_closed(session)),
        };
        if let Err(error) = self.check_phase(session, lifecycle.phase) {
            return Err(error);
        }
        if let Some(owner) = get_binding(&self.pack_names, session, name) {
            if owner == lifecycle.id {
                return Err(
                    SdkError::InvalidConfiguration(
                        join4("Tool '", name, "' is owned by a ToolPack for Session ", session),
                    ),
                );
            }
        }
        Ok(())
    }

    /// Whether a session has been closed, or is giving up what it owns.
    pub fn session_closed(&self, session: &str) -> (closed: bool)
        ensures
            closed == gone(self@, session@),
    {
        match get_lifecycle(&self.sessions, session) {
            Some(lifecycle) => match lifecycle.phase {
                SessionPhase::Closed | SessionPhase::Releasing(_) => true,
                _ => false,
            },
            None => false,
        }
    }

    /// Whether something may still be recorded for a session: that is so until it has
    /// been closed, even while a close is under way.
    pub fn session_exists(&mut self, session: &str) -> (exists: bool)
        ensures
            final(self)@ == knowing(old(self)@, session@),
            exists == (!old(self)@.closed && !gone(knowing(old(self)@, session@), session@)),
    {
        self.session_lifecycle(session);
        !self.session_closed(session) && !self.closed
    }

    /// How far a session has come, for its managed view.
    pub fn session_lifecycle_v2(&self, session: &str) -> (state: Option<SessionLifecycleState>)
        ensures
            state == managed_state(self@, session@),
    {
        match get_lifecycle(&self.sessions, session) {
            Some(lifecycle) => Some(
                match lifecycle.phase {
                    SessionPhase::Preparing | SessionPhase::Open => SessionLifecycleState::Open,
                    SessionPhase::Closing(_)
                    | SessionPhase::Releasing(_) => SessionLifecycleState::Closing,
                    SessionPhase::Closed => SessionLifecycleState::Closed,
                },
            ),
            None => None,
        }
    }

    /// Asks for a session that may turn out not to exist.
    pub fn probe_session(&mut self, session: &str) -> (probe: SessionProbe)
        ensures
            final(self)@ == probed(old(self)@, session@),
            claims(probe, final(self)@, session@),
    {
        match get_lifecycle(&self.sessions, session) {
            Some(lifecycle) => {
                if lifecycle.provisional {
                    self.store(
                        session,
                        SessionLifecycle {
                            provisional_users: next_number(lifecycle.provisional_users),
                            ..lifecycle
                        },
                    );
                }
                SessionProbe {
                    session: session.to_owned(),
                    id: lifecycle.id,
                    counted: lifecycle.provisional,
                }
            },
            None => {
                let id: u64 = self.next_object;
                self.next_object = next_number(id);
                self.store(
                    session,
                    SessionLifecycle {
                        id,
                        phase: SessionPhase::Open,
                        released: false,
                        pack_owner: None,
                        provisional: true,
                        provisional_users: 1,
                    },
                );
                SessionProbe { session: session.to_owned(), id, counted: true }
            },
        }
    }

    /// Records that the session of a claim exists.
    pub fn commit_probe(&mut self, probe: &SessionProbe)
        ensures
            final(self)@ == committed(old(self)@, probe.session@, probe.id),
    {
        if let Some(lifecycle) = get_lifecycle(&self.sessions, probe.session.as_str()) {
            if lifecycle.id == probe.id {
                self.store(
                    probe.session.as_str(),
                    SessionLifecycle { provisional: false, ..lifecycle },
                );
            }
        }
    }

    /// Gives a claim up.
    pub fn release_probe(&mut self, probe: SessionProbe)
        ensures
            final(self)@ == if probe.counted {
                unprobed(old(self)@, probe.session@, probe.id)
            } else {
                old(self)@
            },
    {
        if !probe.counted {
            return ;
        }
        if let Some(lifecycle) = get_lifecycle(&self.sessions, probe.session.as_str()) {
            if lifecycle.id == probe.id {
                if lifecycle.provisional_users == 1 && lifecycle.provisional {
                    remove_lifecycle(&mut self.sessions, probe.session.as_str());
                } else {
                    self.store(
                        probe.session.as_str(),
                        SessionLifecycle {
                            provisional_users: previous_number(lifecycle.provisional_users),
                            ..lifecycle
                        },
                    );
                }
            }
        }
    }

    /// Asks to close a session. A session that is closed already stays so; one that is
    /// being prepared cannot be closed. Of several callers exactly one asks the daemon,
    /// and the others wait for its outcome.
    pub fn close_session(&mut self, session: &str) -> (result: Result<Close, SdkError>)
        ensures
            old(self)@.closed ==> {
                &&& result is Err
                &&& result->Err_0@ == client_closed()
                &&& final(self)@ == old(self)@
            },
            !old(self)@.closed ==> {
                let (after, start) = close_asked(old(self)@, session@);
                &&& final(self)@ == after
                &&& match (start, result) {
                    (CloseStart::Refused, Err(error)) => error@ == ErrorView::SessionClosed(
                        session@,
                    ),
                    (CloseStart::AlreadyClosed, Ok(Close::Done)) => true,
                    (CloseStart::Join { attempt }, Ok(Close::Wait { claim, attempt: joined })) =>
                        joined == attempt && claims(claim, after, session@),
                    (CloseStart::Own { attempt }, Ok(Close::Ask { claim, attempt: owned })) =>
                        owned == attempt && claims(claim, after, session@),
                    _ => false,
                }
            },
    {
        if self.closed {
            return Err(client_is_closed());
        }
        let claim = self.probe_session(session);
        match self.begin_close(&claim) {
            CloseStart::Refused => {
                self.release_probe(claim);
                Err(session_is_closed(session))
            },
            CloseStart::AlreadyClosed => {
                self.release_probe(claim);
                Ok(Close::Done)
            },
            CloseStart::Join { attempt } => Ok(Close::Wait { claim, attempt }),
            CloseStart::Own { attempt } => Ok(Close::Ask { claim, attempt }),
        }
    }

    fn begin_close(&mut self, probe: &SessionProbe) -> (start: CloseStart)
        requires
            is_current(old(self)@, probe.session@, probe.id),
        ensures
            (final(self)@, start) == close_begun(old(self)@, probe.session@),
    {
        let lifecycle = match get_lifecycle(&self.sessions, probe.session.as_str()) {
            Some(lifecycle) => lifecycle,
            None => return CloseStart::AlreadyClosed,
        };
        match lifecycle.phase {
            SessionPhase::Preparing => CloseStart::Refused,
            SessionPhase::Closed => CloseStart::AlreadyClosed,
            SessionPhase::Closing(attempt) | SessionPhase::Releasing(attempt) => CloseStart::Join {
                attempt,
            },
            SessionPhase::Open => {
                let attempt: u64 = self.next_object;
                self.next_object = next_number(attempt);
                self.store(
                    probe.session.as_str(),
                    SessionLifecycle { phase: SessionPhase::Closing(attempt), ..lifecycle },
                );
                CloseStart::Own { attempt }
            },
        }
    }

    fn move_to(&mut self, session: &str, id: u64, phase: SessionPhase)
        ensures
            final(self)@ == in_phase(old(self)@, session@, id, phase),
    {
        if let Some(lifecycle) = get_lifecycle(&self.sessions, session) {
            if lifecycle.id == id {
                self.store(session, SessionLifecycle { phase, ..lifecycle });
            }
        }
    }

    /// Takes the daemon's answer to the close that this caller owns. An explicit
    /// refusal opens the session again; where nobody knows what the daemon did, the
    /// connection has to be closed.
    pub fn settle_close(&mut self, probe: &SessionProbe, attempt: u64, reply: CloseReply) -> (step:
        CloseStep)
        ensures
            match reply {
                CloseReply::Answered { thread_id, closed } => if thread_id@ == probe.session@ {
                    &&& step == (CloseStep::Release { closed })
                    &&& final(self)@ == in_phase(
                        if closed {
                            committed(old(self)@, probe.session@, probe.id)
                        } else {
                            old(self)@
                        },
                        probe.session@,
                        probe.id,
                        SessionPhase::Releasing(attempt),
                    )
                } else {
                    gave_up(old(self)@, final(self)@, *probe, reply, step)
                },
                CloseReply::Failed(error) => if refuses_close(error@) && !old(self)@.closed {
                    &&& step is Reopen
                    &&& close_error(step->Reopen_0) == error@
                    &&& final(self)@ == in_phase(
                        old(self)@,
                        probe.session@,
                        probe.id,
                        SessionPhase::Open,
                    )
                } else {
                    gave_up(old(self)@, final(self)@, *probe, reply, step)
                },
            },
    {
        match reply {
            CloseReply::Answered { thread_id, closed } => {
                if same_text(thread_id.as_str(), probe.session.as_str()) {
                    if closed {
                        self.commit_probe(probe);
                    }
                    self.move_to(
                        probe.session.as_str(),
                        probe.id,
                        SessionPhase::Releasing(attempt),
                    );
                    CloseStep::Release { closed }
                } else {
                    self.move_to(probe.session.as_str(), probe.id, SessionPhase::Closed);
                    CloseStep::GiveUp(
                        CloseFailure::Unknown(
                            join2(
                                "Session close outcome unknown: ",
                                "Daemon returned a different session identity",
                            ),
                        ),
                    )
                }
            },
            CloseReply::Failed(SdkError::Rpc { code, message }) if (code == METHOD_NOT_FOUND
                || code == INVALID_PARAMS) && !self.closed => {
                self.move_to(probe.session.as_str(), probe.id, SessionPhase::Open);
                CloseStep::Reopen(CloseFailure::Rpc(code, message))
            },
            CloseReply::Failed(error) => {
                let text = error.message();
                self.move_to(probe.session.as_str(), probe.id, SessionPhase::Closed);
                CloseStep::GiveUp(
                    CloseFailure::Unknown(join2("Session close outcome unknown: ", text.as_str())),
                )
            },
        }
    }

    /// Closes a session's routes: its hubs, and the requests that wait for it.
    pub fn release_routes(&mut self, session: &str, id: u64) -> (released: ReleasedRoutes)
        ensures
            final(self)@ == routes_released(old(self)@, session@, id),
            released.nudge == old(self)@.session_event_hubs_v2.get(session@),
            released.session_hub == old(self)@.session_event_hubs.get(session@),
            released.interaction_hub == old(self)@.interaction_event_hubs.get(session@),
            enumerates(
                handle_views(released.replies@),
                handles_of(old(self)@.pending, old(self)@.pending_sessions, session@),
            ),
            enumerates(
                handle_views(released.tool_callbacks@),
                handles_of(
                    old(self)@.tool_callbacks,
                    old(self)@.tool_callback_sessions,
                    session@,
                ),
            ),
            enumerates(
                handle_views(released.context_callbacks@),
                handles_of(
                    old(self)@.context_callbacks,
                    old(self)@.context_callback_sessions,
                    session@,
                ),
            ),
            enumerates(
                binding_views(released.registrations@),
                bindings_of(old(self)@.registration_locks, session@),
            ),
    {
        let nudge = get_handle(&self.session_event_hubs_v2, session);
        let session_hub = remove_handle(&mut self.session_event_hubs, session);
        let interaction_hub = remove_handle(&mut self.interaction_event_hubs, session);
        remove_handle(&mut self.interaction_sessions, session);
        if let Some(lifecycle) = get_lifecycle(&self.sessions, session) {
            if lifecycle.id == id {
                self.store(session, SessionLifecycle { released: true, ..lifecycle });
            }
        }
        let replies = take_handles_of(&mut self.pending, &mut self.pending_sessions, session);
        let tool_callbacks = list_handles_of(
            &self.tool_callbacks,
            &self.tool_callback_sessions,
            session,
        );
        let context_callbacks = list_handles_of(
            &self.context_callbacks,
            &self.context_callback_sessions,
            session,
        );
        let registrations = list_session_bindings(&self.registration_locks, session);
        ReleasedRoutes {
            nudge,
            session_hub,
            interaction_hub,
            replies,
            tool_callbacks,
            context_callbacks,
            registrations,
        }
    }

    /// Drops what is bound to a session, once its callbacks and registrations are at
    /// rest: tools, policies, approvals and runs. The result names the runs to fail
    /// and the owner of the packs to close.
    pub fn release_bindings(&mut self, session: &str, id: u64) -> (released: ReleasedBindings)
        ensures
            final(self)@ == bindings_released(old(self)@, session@, id),
            enumerates(
                handle_views(released.runs@),
                handles_of(old(self)@.runs, old(self)@.run_sessions, session@),
            ),
            released.pack_owner == if is_current(old(self)@, session@, id) {
                old(self)@.sessions[session@].pack_owner
            } else {
                None
            },
    {
        drop_session_bindings(&mut self.tools, session);
        drop_session_bindings(&mut self.tool_bindings, session);
        drop_session_bindings(&mut self.registration_locks, session);
        remove_handle(&mut self.context_policies, session);
        drop_links_to(&mut self.approval_sessions, session);
        drop_links_outside(&mut self.approval_turns, &self.approval_sessions);
        let runs = take_handles_of(&mut self.runs, &mut self.run_sessions, session);
        take_handles_of(&mut self.run_handles, &mut self.run_handle_sessions, session);
        let mut pack_owner = None;
        if let Some(lifecycle) = get_lifecycle(&self.sessions, session) {
            if lifecycle.id == id {
                pack_owner = lifecycle.pack_owner;
                self.store(session, SessionLifecycle { pack_owner: None, ..lifecycle });
            }
        }
        ReleasedBindings { runs, pack_owner }
    }

    /// Ends a close that the daemon has confirmed. `failures` are the packs that could
    /// not be closed.
    pub fn finish_close(&mut self, probe: &SessionProbe, closed: bool, failures: &Vec<String>) -> (outcome:
        Result<bool, CloseFailure>)
        ensures
            final(self)@ == in_phase(
                old(self)@,
                probe.session@,
                probe.id,
                SessionPhase::Closed,
            ),
            match outcome {
                Ok(result) => failures@.len() == 0 && result == closed,
                Err(failure) => {
                    &&& failures@.len() > 0
                    &&& close_error(failure) == ErrorView::Internal(
                        "Session "@ + probe.session@
                            + " closed with ToolPack cleanup failures: "@ + separated(
                            failures@,
                            "; "@,
                        ),
                    )
                },
            },
    {
        self.move_to(probe.session.as_str(), probe.id, SessionPhase::Closed);
        if failures.len() == 0 {
            Ok(closed)
        } else {
            let mut text = join3(
                "Session ",
                probe.session.as_str(),
                " closed with ToolPack cleanup failures: ",
            );
            text.append(separated_text(failures, "; ").as_str());
            Err(CloseFailure::LocalResource(text))
        }
    }
}

/// Nobody knows what the daemon did: the session counts as closed, and the connection
/// has to follow.
pub open spec fn gave_up(
    before: ClientView,
    after: ClientView,
    probe: SessionProbe,
    reply: CloseReply,
    step: CloseStep,
) -> bool {
    &&& step is GiveUp
    &&& close_error(step->GiveUp_0) == ErrorView::ChannelClosed(unknown_close(reply))
    &&& after == in_phase(before, probe.session@, probe.id, SessionPhase::Closed)
}

/// The client when the packs of a session own `names`, and no others.
pub open spec fn names_owned(
    client: ClientView,
    session: Seq<char>,
    id: u64,
    names: Seq<Seq<char>>,
) -> ClientView
    decreases names.len(),
{
    if names.len() == 0 {
        ClientView { pack_names: bindings_without(client.pack_names, session), ..client }
    } else {
        let before = names_owned(client, session, id, names.drop_last());
        ClientView { pack_names: before.pack_names.insert((session, names.last()), id), ..before }
    }
}

/// Whether a prepared session can be opened.
pub open spec fn acceptance(client: ClientView, session: Seq<char>, id: u64) -> Result<
    (),
    ErrorView,
> {
    if !is_current(client, session, id) || client.closed || client.sessions[session].phase
        != SessionPhase::Preparing {
        Err(ErrorView::SessionClosed(session))
    } else if client.sessions[session].pack_owner is Some {
        Err(ErrorView::Internal("Prepared Session already owns ToolPacks"@))
    } else {
        Ok(())
    }
}

/// The client when a prepared session has been opened.
pub open spec fn accepted(
    client: ClientView,
    session: Seq<char>,
    packs: Option<(u64, Vec<String>)>,
) -> ClientView {
    let lifecycle = client.sessions[session];
    match packs {
        Some((owner, names)) => with_record(
            names_owned(client, session, lifecycle.id, text_list(names@)),
            session,
            SessionLifecycle {
                phase: SessionPhase::Open,
                pack_owner: Some(owner),
                ..lifecycle
            },
        ),
        None => with_record(
            client,
            session,
            SessionLifecycle { phase: SessionPhase::Open, pack_owner: None, ..lifecycle },
        ),
    }
}

/// The client when a prepared session has been dropped.
pub open spec fn rejected(client: ClientView, session: Seq<char>, id: u64) -> ClientView {
    ClientView {
        session_event_hubs: client.session_event_hubs.remove(session),
        sessions: if is_current(client, session, id) {
            client.sessions.remove(session)
        } else {
            client.sessions
        },
        ..client
    }
}

/// Whether a tool may be registered under a name.
pub open spec fn name_verdict(client: ClientView, session: Seq<char>, name: Seq<char>) -> Result<
    (),
    ErrorView,
> {
    if existing_verdict(client, session) is Err {
        existing_verdict(client, session)
    } else if client.pack_names.contains_pair((session, name), client.sessions[session].id) {
        Err(
            ErrorView::InvalidConfiguration(
                "Tool '"@ + name + "' is owned by a ToolPack for Session "@ + session,
            ),
        )
    } else {
        Ok(())
    }
}

/// How far a session has come, for its managed view.
pub open spec fn managed_state(client: ClientView, session: Seq<char>) -> Option<
    SessionLifecycleState,
> {
    if client.sessions.contains_key(session) {
        Some(
            match client.sessions[session].phase {
                SessionPhase::Preparing | SessionPhase::Open => SessionLifecycleState::Open,
                SessionPhase::Closing(_)
                | SessionPhase::Releasing(_) => SessionLifecycleState::Closing,
                SessionPhase::Closed => SessionLifecycleState::Closed,
            },
        )
    } else {
        None
    }
}

/// Of two callers who close the same open session, the first asks the daemon and the
/// second waits for it.
pub proof fn close_is_single_flight(client: ClientView, session: Seq<char>)
    requires
        client.sessions.contains_key(session),
        client.sessions[session].phase == SessionPhase::Open,
    ensures
        ({
            let (first, start) = close_begun(client, session);
            let attempt = client.next_object;
            &&& start == CloseStart::Own { attempt }
            &&& close_begun(first, session) == (first, CloseStart::Join { attempt })
        }),
{
}

/// A close that the daemon refuses leaves the session as it was.
pub proof fn refused_close_restores_the_session(client: ClientView, session: Seq<char>)
    requires
        client.sessions.contains_key(session),
        client.sessions[session].phase == SessionPhase::Open,
    ensures
        ({
            let begun = close_begun(client, session).0;
            let id = client.sessions[session].id;
            in_phase(begun, session, id, SessionPhase::Open) == (ClientView {
                next_object: following(client.next_object),
                ..client
            })
        }),
{
    let begun = close_begun(client, session).0;
    let id = client.sessions[session].id;
    assert(in_phase(begun, session, id, SessionPhase::Open).sessions =~= client.sessions);
}

/// A session that is closed, or about to be, takes no work and cannot be prepared
/// again; to close it again changes nothing.
pub proof fn closed_session_takes_no_work(client: ClientView, session: Seq<char>)
    requires
        client.sessions.contains_key(session),
        client.sessions[session].phase == SessionPhase::Closed
            || client.sessions[session].phase is Closing
            || client.sessions[session].phase is Releasing,
    ensures
        existing_verdict(client, session) is Err,
        open_verdict(client.closed, record(client, session).phase, session) is Err,
        record(client, session).phase == client.sessions[session].phase,
        name_verdict(client, session, seq![]) is Err,
        close_begun(client, session).0 == client,
        !(close_begun(client, session).1 is Own),
{
}

/// A closed session stays closed when someone asks for it, and when an answer to a
/// claim comes late.
pub proof fn closed_session_stays_closed(
    client: ClientView,
    session: Seq<char>,
    other: Seq<char>,
    id: u64,
    phase: SessionPhase,
)
    requires
        client.sessions.contains_key(session),
        client.sessions[session].phase == SessionPhase::Closed,
        other != session || id != client.sessions[session].id,
    ensures
        probed(client, other).sessions[session].phase == SessionPhase::Closed,
        knowing(client, other).sessions[session].phase == SessionPhase::Closed,
        committed(client, other, id).sessions[session] == client.sessions[session],
        in_phase(client, other, id, phase).sessions[session] == client.sessions[session],
        unprobed(client, other, id).sessions.contains_pair(session, client.sessions[session]),
        rejected(client, other, id).sessions.contains_pair(session, client.sessions[session]),
{
}

/// To ask for a session that turns out not to exist leaves no trace but a used number.
pub proof fn failed_probe_leaves_no_trace(client: ClientView, session: Seq<char>)
    requires
        !client.sessions.contains_key(session),
    ensures
        unprobed(probed(client, session), session, client.next_object) == (ClientView {
            next_object: following(client.next_object),
            ..client
        }),
{
    let after = unprobed(probed(client, session), session, client.next_object);
    assert(after.sessions =~= client.sessions);
}

/// A claim that is given up while others ask for the same session leaves the record to
/// them.
pub proof fn probes_are_counted(client: ClientView, session: Seq<char>)
    requires
        client.sessions.contains_key(session),
        client.sessions[session].provisional,
        0 < client.sessions[session].provisional_users < u64::MAX,
    ensures
        unprobed(probed(client, session), session, client.sessions[session].id) == client,
{
    let after = unprobed(probed(client, session), session, client.sessions[session].id);
    assert(after.sessions =~= client.sessions);
}

/// The client when a session has been prepared.
pub open spec fn prepared(client: ClientView, session: Seq<char>, hub: u64) -> ClientView {
    with_record(
        with_hub(knowing(client, session), session, hub),
        session,
        SessionLifecycle { phase: SessionPhase::Preparing, ..record(client, session) },
    )
}

/// A session that the daemon did not take is gone without a trace but a used number.
pub proof fn rejection_undoes_preparation(client: ClientView, session: Seq<char>, hub: u64)
    requires
        !client.sessions.contains_key(session),
        !client.session_event_hubs.contains_key(session),
    ensures
        rejected(prepared(client, session, hub), session, client.next_object) == (ClientView {
            next_object: following(client.next_object),
            ..client
        }),
{
    let after = rejected(prepared(client, session, hub), session, client.next_object);
    assert(after.sessions =~= client.sessions);
    assert(after.session_event_hubs =~= client.session_event_hubs);
}

/// A prepared session can be opened once, and is open then.
pub proof fn acceptance_happens_once(
    client: ClientView,
    session: Seq<char>,
    packs: Option<(u64, Vec<String>)>,
    id: u64,
)
    requires
        acceptance(client, session, id) is Ok,
    ensures
        accepted(client, session, packs).sessions.contains_key(session),
        accepted(client, session, packs).sessions[session].phase == SessionPhase::Open,
        accepted(client, session, packs).sessions[session].id == id,
        acceptance(accepted(client, session, packs), session, id) is Err,
{
    match packs {
        Some((_, names)) => lemma_names_owned(client, session, id, text_list(names@)),
        None => {},
    }
}

proof fn lemma_names_owned(client: ClientView, session: Seq<char>, id: u64, names: Seq<Seq<char>>)
    ensures
        ({
            let after = names_owned(client, session, id, names);
            &&& after == (ClientView { pack_names: after.pack_names, ..client })
            &&& forall|name: Seq<char>| #[trigger]
                after.pack_names.contains_key((session, name)) == names.contains(name)
            &&& forall|name: Seq<char>|
                names.contains(name) ==> #[trigger] after.pack_names[(session, name)] == id
            &&& forall|other: Seq<char>, name: Seq<char>|
                other != session ==> #[trigger] after.pack_names.contains_key((other, name))
                    == client.pack_names.contains_key((other, name))
        }),
    decreases names.len(),
{
    if names.len() > 0 {
        let last = names.drop_last();
        lemma_names_owned(client, session, id, last);
        let before = names_owned(client, session, id, last);
        let after = names_owned(client, session, id, names);
        assert forall|name: Seq<char>| #[trigger] names.contains(name) == (last.contains(name)
            || name == names.last()) by {
            if last.contains(name) {
                let i = choose|i: int| 0 <= i < last.len() && last[i] == name;
                assert(names[i] == name);
            }
            if names.contains(name) {
                let i = choose|i: int| 0 <= i < names.len() && names[i] == name;
                if i < last.len() {
                    assert(last[i] == name);
                }
            }
            if name == names.last() {
                assert(names[names.len() - 1] == name);
            }
        }
    }
}

/// To open a session closes nothing, and leaves every other session as it is.
pub proof fn acceptance_keeps_the_connection(
    client: ClientView,
    session: Seq<char>,
    packs: Option<(u64, Vec<String>)>,
    id: u64,
)
    requires
        acceptance(client, session, id) is Ok,
    ensures
        !accepted(client, session, packs).closed,
        forall|other: Seq<char>|
            other != session ==> #[trigger] accepted(client, session, packs).sessions.get(other)
                == client.sessions.get(other),
{
    match packs {
        Some((_, names)) => lemma_names_owned(client, session, id, text_list(names@)),
        None => {},
    }
}

/// Once a session has been opened with packs, no tool can be registered under a name
/// that they own, and every other name is as free as it was.
pub proof fn pack_names_are_reserved(
    client: ClientView,
    session: Seq<char>,
    owner: u64,
    names: Vec<String>,
    name: Seq<char>,
    id: u64,
)
    requires
        acceptance(client, session, id) is Ok,
    ensures
        name_verdict(accepted(client, session, Some((owner, names))), session, name) is Err
            == text_list(names@).contains(name),
{
    lemma_names_owned(client, session, id, text_list(names@));
    let after = accepted(client, session, Some((owner, names)));
    assert(after.pack_names.contains_key((session, name)) == text_list(names@).contains(name));
}

/// To release a session leaves every other one alone: its record, its hubs, its
/// requests, its tools, its runs and its approvals.
pub proof fn release_touches_only_its_session(
    client: ClientView,
    session: Seq<char>,
    id: u64,
    other: Seq<char>,
    key: Seq<char>,
)
    requires
        other != session,
    ensures
        ({
            let after = bindings_released(
                routes_released(client, session, id),
                session,
                id,
            );
            &&& after.closed == client.closed
            &&& after.sessions.get(other) == client.sessions.get(other)
            &&& after.session_event_hubs.get(other) == client.session_event_hubs.get(other)
            &&& after.interaction_event_hubs.get(other) == client.interaction_event_hubs.get(
                other,
            )
            &&& after.session_event_hubs_v2 == client.session_event_hubs_v2
            &&& after.context_policies.get(other) == client.context_policies.get(other)
            &&& after.tools.get((other, key)) == client.tools.get((other, key))
            &&& after.tool_bindings.get((other, key)) == client.tool_bindings.get((other, key))
            &&& client.pending_sessions.get(key) == Some(other) ==> {
                &&& after.pending_sessions.get(key) == Some(other)
                &&& after.pending.get(key) == client.pending.get(key)
            }
            &&& client.run_sessions.get(key) == Some(other) ==> {
                &&& after.run_sessions.get(key) == Some(other)
                &&& after.runs.get(key) == client.runs.get(key)
            }
            &&& client.run_handle_sessions.get(key) == Some(other) ==> after.run_handles.get(key)
                == client.run_handles.get(key)
            &&& client.approval_sessions.get(key) == Some(other) ==> {
                &&& after.approval_sessions.get(key) == Some(other)
                &&& after.approval_turns.get(key) == client.approval_turns.get(key)
            }
        }),
{
}

/// A session that has been released holds nothing more on this connection.
pub proof fn release_leaves_nothing_behind(
    client: ClientView,
    session: Seq<char>,
    id: u64,
    key: Seq<char>,
)
    ensures
        ({
            let after = bindings_released(
                routes_released(client, session, id),
                session,
                id,
            );
            &&& !after.session_event_hubs.contains_key(session)
            &&& !after.interaction_event_hubs.contains_key(session)
            &&& !after.interaction_sessions.contains_key(session)
            &&& !after.context_policies.contains_key(session)
            &&& !after.tools.contains_key((session, key))
            &&& !after.tool_bindings.contains_key((session, key))
            &&& !after.registration_locks.contains_key((session, key))
            &&& after.pending_sessions.get(key) != Some(session)
            &&& after.run_sessions.get(key) != Some(session)
            &&& after.run_handle_sessions.get(key) != Some(session)
            &&& after.approval_sessions.get(key) != Some(session)
            &&& client.pending_sessions.get(key) == Some(session) ==> !after.pending.contains_key(
                key,
            )
            &&& client.run_sessions.get(key) == Some(session) ==> !after.runs.contains_key(key)
            &&& client.approval_sessions.get(key) == Some(session)
                ==> !after.approval_turns.contains_key(key)
            &&& is_current(client, session, id) ==> {
                &&& after.sessions[session].released
                &&& after.sessions[session].pack_owner is None
            }
        }),
{
}

/// A session takes work exactly where it is open on an open connection. Each other case has
/// its own error, and a closed connection comes first.
pub proof fn only_open_sessions_take_work(
    client: ClientView,
    session: Seq<char>,
    closed: bool,
    phase: SessionPhase,
)
    ensures
        open_verdict(closed, phase, session) is Ok <==> !closed && phase == SessionPhase::Open,
        closed ==> open_verdict(closed, phase, session) == Err::<(), ErrorView>(
            ErrorView::ChannelClosed("Client is closed"@),
        ),
        !closed && phase != SessionPhase::Open ==> open_verdict(closed, phase, session) == Err::<
            (),
            ErrorView,
        >(ErrorView::SessionClosed(session)),
        existing_verdict(client, session) is Ok <==> client.sessions.contains_key(session)
            && !client.closed && client.sessions[session].phase == SessionPhase::Open,
        !client.sessions.contains_key(session) ==> existing_verdict(client, session) == Err::<
            (),
            ErrorView,
        >(ErrorView::SessionClosed(session)),
        client.sessions.contains_key(session) && client.closed ==> existing_verdict(
            client,
            session,
        ) == Err::<(), ErrorView>(ErrorView::ChannelClosed("Client is closed"@)),
        client.sessions.contains_key(session) && !client.closed && client.sessions[session].phase
            != SessionPhase::Open ==> existing_verdict(client, session) == Err::<(), ErrorView>(
            ErrorView::SessionClosed(session),
        ),
{
}

/// A session that the client did not know is open, with an identity of its own, and owns
/// nothing. One that it knew stays what it was, but is no longer provisional. Nothing else
/// changes.
pub proof fn known_session_stays_what_it_was(
    client: ClientView,
    session: Seq<char>,
    other: Seq<char>,
)
    ensures
        ({
            let after = knowing(client, session);
            let lifecycle = record(client, session);
            &&& after.sessions.get(session) == Some(lifecycle)
            &&& !lifecycle.provisional
            &&& client.sessions.contains_key(session) ==> {
                let before = client.sessions[session];
                &&& lifecycle.id == before.id
                &&& lifecycle.phase == before.phase
                &&& lifecycle.released == before.released
                &&& lifecycle.pack_owner == before.pack_owner
                &&& lifecycle.provisional_users == before.provisional_users
                &&& after.next_object == client.next_object
            }
            &&& !client.sessions.contains_key(session) ==> {
                &&& lifecycle.id == client.next_object
                &&& lifecycle.phase == SessionPhase::Open
                &&& !lifecycle.released
                &&& lifecycle.pack_owner is None
                &&& lifecycle.provisional_users == 0
                &&& after.next_object != client.next_object
            }
            &&& other != session ==> after.sessions.get(other) == client.sessions.get(other)
            &&& after == (ClientView {
                sessions: after.sessions,
                next_object: after.next_object,
                ..client
            })
        }),
{
}

/// The numbers are counted round: each has a next one, other than itself, and is the one
/// before that.
pub proof fn numbers_are_counted_round(n: u64)
    ensures
        following(n) != n,
        preceding(following(n)) == n,
        following(preceding(n)) == n,
        n < u64::MAX ==> following(n) == n + 1,
        n > 0 ==> preceding(n) == n - 1,
{
}

/// A record replaces only the one of its session.
pub proof fn record_replaces_only_its_own(
    client: ClientView,
    session: Seq<char>,
    lifecycle: SessionLifecycle,
    other: Seq<char>,
)
    ensures
        ({
            let after = with_record(client, session, lifecycle);
            &&& after.sessions.get(session) == Some(lifecycle)
            &&& other != session ==> after.sessions.get(other) == client.sessions.get(other)
            &&& after == (ClientView { sessions: after.sessions, ..client })
        }),
{
}

/// A session keeps the event hub that it has, and gets the given one where it has none.
/// Other sessions keep theirs.
pub proof fn event_hub_is_given_once(
    client: ClientView,
    session: Seq<char>,
    hub: u64,
    other: Seq<char>,
)
    ensures
        ({
            let after = with_hub(client, session, hub);
            &&& client.session_event_hubs.contains_key(session)
                ==> after.session_event_hubs.get(session) == client.session_event_hubs.get(
                session,
            )
            &&& !client.session_event_hubs.contains_key(session)
                ==> after.session_event_hubs.get(session) == Some(hub)
            &&& other != session ==> after.session_event_hubs.get(other)
                == client.session_event_hubs.get(other)
            &&& after == (ClientView { session_event_hubs: after.session_event_hubs, ..client })
        }),
{
}

/// Who asks for a session of which nothing is known makes a provisional record with one
/// claim. On a provisional record one more is counted, and a record that is certain stays
/// as it is. Nothing else changes.
pub proof fn claims_are_counted(client: ClientView, session: Seq<char>, other: Seq<char>)
    ensures
        ({
            let after = probed(client, session);
            &&& !client.sessions.contains_key(session) ==> {
                &&& after.sessions.contains_key(session)
                &&& after.sessions[session].id == client.next_object
                &&& after.sessions[session].phase == SessionPhase::Open
                &&& !after.sessions[session].released
                &&& after.sessions[session].pack_owner is None
                &&& after.sessions[session].provisional
                &&& after.sessions[session].provisional_users == 1
                &&& after.next_object != client.next_object
            }
            &&& client.sessions.contains_key(session) ==> {
                let before = client.sessions[session];
                &&& after.next_object == client.next_object
                &&& !before.provisional ==> after.sessions.get(session) == Some(before)
                &&& before.provisional && before.provisional_users < u64::MAX
                    ==> after.sessions.get(session) == Some(
                    SessionLifecycle {
                        provisional_users: (before.provisional_users + 1) as u64,
                        ..before
                    },
                )
            }
            &&& other != session ==> after.sessions.get(other) == client.sessions.get(other)
            &&& after == (ClientView {
                sessions: after.sessions,
                next_object: after.next_object,
                ..client
            })
        }),
{
}

/// A claim that is given up counts one less. Only the last claim takes a record with it, and
/// only one that is still provisional. A claim on a session that is no longer the one that
/// the client knows changes nothing.
pub proof fn claims_are_given_up(
    client: ClientView,
    session: Seq<char>,
    id: u64,
    other: Seq<char>,
)
    ensures
        ({
            let after = unprobed(client, session, id);
            let current = client.sessions.contains_key(session) && client.sessions[session].id
                == id;
            let before = client.sessions[session];
            &&& !current ==> after == client
            &&& current && before.provisional && before.provisional_users == 1
                ==> !after.sessions.contains_key(session)
            &&& current && !(before.provisional && before.provisional_users == 1)
                && before.provisional_users > 0 ==> after.sessions.get(session) == Some(
                SessionLifecycle {
                    provisional_users: (before.provisional_users - 1) as u64,
                    ..before
                },
            )
            &&& other != session ==> after.sessions.get(other) == client.sessions.get(other)
            &&& after == (ClientView { sessions: after.sessions, ..client })
        }),
{
}

/// A session that is known to exist is no longer provisional, and a session moves to
/// another phase, where the claim is on the session that the client knows: nothing else of
/// the record changes, and no other session.
pub proof fn claim_acts_on_its_own_session(
    client: ClientView,
    session: Seq<char>,
    id: u64,
    phase: SessionPhase,
    other: Seq<char>,
)
    ensures
        ({
            let current = client.sessions.contains_key(session) && client.sessions[session].id
                == id;
            let before = client.sessions[session];
            let kept = committed(client, session, id);
            let moved = in_phase(client, session, id, phase);
            &&& is_current(client, session, id) == current
            &&& !current ==> kept == client && moved == client
            &&& current ==> kept.sessions.get(session) == Some(
                SessionLifecycle { provisional: false, ..before },
            )
            &&& current ==> moved.sessions.get(session) == Some(
                SessionLifecycle { phase, ..before },
            )
            &&& other != session ==> kept.sessions.get(other) == client.sessions.get(other)
            &&& other != session ==> moved.sessions.get(other) == client.sessions.get(other)
            &&& kept == (ClientView { sessions: kept.sessions, ..client })
            &&& moved == (ClientView { sessions: moved.sessions, ..client })
        }),
{
}

/// Who asks to close a session asks the daemon where the session is open, waits where
/// another one does, is done where it is closed and is refused where it is being prepared.
/// Only an open session changes: it is being closed then, by an attempt of its own.
pub proof fn close_begins_by_phase(client: ClientView, session: Seq<char>, other: Seq<char>)
    requires
        client.sessions.contains_key(session),
    ensures
        ({
            let (after, start) = close_begun(client, session);
            let before = client.sessions[session];
            &&& before.phase == SessionPhase::Preparing ==> start == CloseStart::Refused && after
                == client
            &&& before.phase == SessionPhase::Closed ==> start == CloseStart::AlreadyClosed
                && after == client
            &&& before.phase matches SessionPhase::Closing(attempt) ==> start
                == (CloseStart::Join { attempt }) && after == client
            &&& before.phase matches SessionPhase::Releasing(attempt) ==> start
                == (CloseStart::Join { attempt }) && after == client
            &&& before.phase == SessionPhase::Open ==> {
                &&& start == CloseStart::Own { attempt: client.next_object }
                &&& after.sessions.get(session) == Some(
                    SessionLifecycle {
                        phase: SessionPhase::Closing(client.next_object),
                        ..before
                    },
                )
                &&& after.next_object != client.next_object
                &&& after == (ClientView {
                    sessions: after.sessions,
                    next_object: after.next_object,
                    ..client
                })
            }
            &&& other != session ==> after.sessions.get(other) == client.sessions.get(other)
        }),
{
}

/// To close a session that nothing is known of asks the daemon, under a provisional record
/// that counts the caller. On a record, closing begins as its phase says, and a caller who
/// has nothing to wait for leaves the record as it was.
pub proof fn close_asks_unless_it_is_done(client: ClientView, session: Seq<char>, other: Seq<char>)
    ensures
        ({
            let (after, start) = close_asked(client, session);
            &&& !client.sessions.contains_key(session) ==> {
                &&& start is Own
                &&& after.sessions.contains_key(session)
                &&& after.sessions[session].id == client.next_object
                &&& after.sessions[session].phase is Closing
                &&& after.sessions[session].provisional
                &&& after.sessions[session].provisional_users == 1
            }
            &&& client.sessions.contains_key(session) ==> {
                let before = client.sessions[session];
                &&& start is Own <==> before.phase == SessionPhase::Open
                &&& start is Join <==> before.phase is Closing || before.phase is Releasing
                &&& start is AlreadyClosed <==> before.phase == SessionPhase::Closed
                &&& start is Refused <==> before.phase == SessionPhase::Preparing
                &&& before.phase matches SessionPhase::Closing(attempt) ==> start
                    == (CloseStart::Join { attempt })
                &&& before.phase matches SessionPhase::Releasing(attempt) ==> start
                    == (CloseStart::Join { attempt })
                &&& (start is AlreadyClosed || start is Refused) && (before.provisional ==> 0
                    < before.provisional_users < u64::MAX) ==> after.sessions.get(session)
                    == Some(before)
                &&& before.provisional_users < u64::MAX ==> {
                    let counted = SessionLifecycle {
                        provisional_users: if before.provisional {
                            (before.provisional_users + 1) as u64
                        } else {
                            before.provisional_users
                        },
                        ..before
                    };
                    &&& start is Join ==> after.sessions.get(session) == Some(counted)
                    &&& start matches CloseStart::Own { attempt } ==> after.sessions.get(session)
                        == Some(
                        SessionLifecycle { phase: SessionPhase::Closing(attempt), ..counted },
                    )
                }
            }
            &&& other != session ==> after.sessions.get(other) == client.sessions.get(other)
            &&& after == (ClientView {
                sessions: after.sessions,
                next_object: after.next_object,
                ..client
            })
        }),
{
}

/// A claim names its session and its record, and is counted where the record is provisional.
pub proof fn claim_is_on_its_record(claim: SessionProbe, client: ClientView, session: Seq<char>)
    ensures
        claims(claim, client, session) <==> claim.session@ == session
            && client.sessions.contains_key(session) && client.sessions[session].id == claim.id
            && claim.counted == client.sessions[session].provisional,
{
}

/// The daemon has certainly left a session alone only where it does not know the method, or
/// does not take the parameters.
pub proof fn only_two_codes_refuse_a_close(error: ErrorView)
    ensures
        refuses_close(error) <==> (error matches ErrorView::Rpc { code, .. } && (code == -32601
            || code == -32602)),
{
}

/// Each failure of a close becomes an error with its message, and the error of an answer
/// keeps its code.
pub proof fn close_failures_keep_their_message(code: i64, message: String)
    ensures
        close_error(CloseFailure::Rpc(code, message)) == (ErrorView::Rpc { code, message: message@ }),
        close_error(CloseFailure::Unknown(message)) == ErrorView::ChannelClosed(message@),
        close_error(CloseFailure::LocalResource(message)) == ErrorView::Internal(message@),
{
}

/// Where nobody knows what the daemon did, the session of the claim counts as closed, no
/// other one does, and the error tells what came back.
pub proof fn unknown_close_closes_its_session(
    before: ClientView,
    after: ClientView,
    probe: SessionProbe,
    reply: CloseReply,
    step: CloseStep,
    other: Seq<char>,
)
    requires
        gave_up(before, after, probe, reply, step),
        before.sessions.contains_key(probe.session@),
        before.sessions[probe.session@].id == probe.id,
    ensures
        step matches CloseStep::GiveUp(failure) && (close_error(failure)
            matches ErrorView::ChannelClosed(text) && (reply matches CloseReply::Failed(error)
            ==> error_text(error@).is_suffix_of(text))),
        after.sessions.contains_key(probe.session@),
        after.sessions[probe.session@].phase == SessionPhase::Closed,
        other != probe.session@ ==> after.sessions.get(other) == before.sessions.get(other),
        after == (ClientView { sessions: after.sessions, ..before }),
{
}

/// A prepared session is opened exactly where it is still the one that was prepared, the
/// connection is open, and no packs belong to it yet.
pub proof fn only_the_prepared_session_is_opened(client: ClientView, session: Seq<char>, id: u64)
    ensures
        ({
            let preparing = client.sessions.contains_key(session) && client.sessions[session].id
                == id && client.sessions[session].phase == SessionPhase::Preparing
                && !client.closed;
            let verdict = acceptance(client, session, id);
            &&& verdict is Ok <==> preparing && client.sessions[session].pack_owner is None
            &&& !preparing ==> verdict == Err::<(), ErrorView>(ErrorView::SessionClosed(session))
            &&& preparing && client.sessions[session].pack_owner is Some ==> verdict->Err_0
                is Internal
        }),
{
}

/// A session that is opened with packs belongs with them to their owner, and the names of
/// the packs belong to it; one without packs owns none. The packs' names of other sessions,
/// and everything else, stay as they are.
pub proof fn opened_session_owns_its_packs(
    client: ClientView,
    session: Seq<char>,
    packs: Option<(u64, Vec<String>)>,
    other: Seq<char>,
    name: Seq<char>,
)
    requires
        client.sessions.contains_key(session),
    ensures
        ({
            let after = accepted(client, session, packs);
            let before = client.sessions[session];
            &&& after.sessions.get(session) == Some(
                SessionLifecycle {
                    phase: SessionPhase::Open,
                    pack_owner: match packs {
                        Some((owner, _)) => Some(owner),
                        None => None,
                    },
                    ..before
                },
            )
            &&& packs matches Some((_, names)) ==> {
                &&& forall|i: int|
                    0 <= i < names@.len() ==> after.pack_names.get(
                        (session, (#[trigger] names@[i])@),
                    ) == Some(before.id)
                &&& (forall|i: int| 0 <= i < names@.len() ==> (#[trigger] names@[i])@ != name)
                    ==> !after.pack_names.contains_key((session, name))
            }
            &&& packs is None ==> after.pack_names == client.pack_names
            &&& other != session ==> after.sessions.get(other) == client.sessions.get(other)
            &&& other != session ==> after.pack_names.contains_key((other, name))
                == client.pack_names.contains_key((other, name))
            &&& after == (ClientView {
                sessions: after.sessions,
                pack_names: after.pack_names,
                ..client
            })
        }),
{
    match packs {
        Some((_, names)) => {
            let listed = text_list(names@);
            lemma_names_owned(client, session, client.sessions[session].id, listed);
            let after = accepted(client, session, packs);
            assert forall|i: int| 0 <= i < names@.len() implies after.pack_names.get(
                (session, (#[trigger] names@[i])@),
            ) == Some(client.sessions[session].id) by {
                assert(listed[i] == names@[i]@);
                assert(listed.contains(names@[i]@));
                assert(after.pack_names.contains_key((session, names@[i]@)));
            }
            if forall|i: int| 0 <= i < names@.len() ==> (#[trigger] names@[i])@ != name {
                if listed.contains(name) {
                    let i = choose|i: int| 0 <= i < listed.len() && listed[i] == name;
                    assert(names@[i]@ == name);
                }
                assert(after.pack_names.contains_key((session, name)) == listed.contains(name));
            }
        },
        None => {},
    }
}

/// A prepared session that the daemon did not take has no record and no event hub any more.
/// A later session of the same name keeps its record, and other sessions keep everything.
pub proof fn rejected_session_is_forgotten(
    client: ClientView,
    session: Seq<char>,
    id: u64,
    other: Seq<char>,
)
    ensures
        ({
            let after = rejected(client, session, id);
            let current = client.sessions.contains_key(session) && client.sessions[session].id
                == id;
            &&& current ==> !after.sessions.contains_key(session)
            &&& !current ==> after.sessions == client.sessions
            &&& !after.session_event_hubs.contains_key(session)
            &&& other != session ==> after.sessions.get(other) == client.sessions.get(other)
            &&& other != session ==> after.session_event_hubs.get(other)
                == client.session_event_hubs.get(other)
            &&& after == (ClientView {
                sessions: after.sessions,
                session_event_hubs: after.session_event_hubs,
                ..client
            })
        }),
{
}

/// A name can be registered exactly where the session takes work and none of its own packs
/// owns the name. What an earlier session of the same name owned does not count.
pub proof fn names_of_packs_are_taken(client: ClientView, session: Seq<char>, name: Seq<char>)
    ensures
        ({
            let open = client.sessions.contains_key(session) && !client.closed
                && client.sessions[session].phase == SessionPhase::Open;
            let owned = client.pack_names.contains_key((session, name)) && client.pack_names[(
                session,
                name,
            )] == client.sessions[session].id;
            let verdict = name_verdict(client, session, name);
            &&& verdict is Ok <==> open && !owned
            &&& open && owned ==> verdict->Err_0 is InvalidConfiguration
            &&& !client.sessions.contains_key(session) ==> verdict->Err_0
                == ErrorView::SessionClosed(session)
        }),
{
}

/// The managed view shows a session as open while it is prepared and open, as closing until
/// everything is released, and as closed then. It shows no session that is not known.
pub proof fn managed_state_follows_the_phase(client: ClientView, session: Seq<char>)
    ensures
        ({
            let state = managed_state(client, session);
            let phase = client.sessions[session].phase;
            &&& state is None <==> !client.sessions.contains_key(session)
            &&& state == Some(SessionLifecycleState::Open) <==> client.sessions.contains_key(
                session,
            ) && (phase == SessionPhase::Preparing || phase == SessionPhase::Open)
            &&& state == Some(SessionLifecycleState::Closing) <==> client.sessions.contains_key(
                session,
            ) && (phase is Closing || phase is Releasing)
            &&& state == Some(SessionLifecycleState::Closed) <==> client.sessions.contains_key(
                session,
            ) && phase == SessionPhase::Closed
            &&& gone(client, session) <==> client.sessions.contains_key(session) && (phase
                == SessionPhase::Closed || phase is Releasing)
        }),
{
}

/// What belongs to no session, and what other parts of the client hold, survives the release
/// of a session: requests and runs without one, the managed hubs, the policies and callbacks
/// of others, the pack names, and the numbers.
pub proof fn release_spares_what_has_no_session(
    client: ClientView,
    session: Seq<char>,
    id: u64,
    other: Seq<char>,
    key: Seq<char>,
)
    ensures
        ({
            let told = routes_released(client, session, id);
            let freed = bindings_released(client, session, id);
            &&& told == (ClientView {
                sessions: told.sessions,
                session_event_hubs: told.session_event_hubs,
                interaction_event_hubs: told.interaction_event_hubs,
                interaction_sessions: told.interaction_sessions,
                pending: told.pending,
                pending_sessions: told.pending_sessions,
                ..client
            })
            &&& freed == (ClientView {
                sessions: freed.sessions,
                tools: freed.tools,
                tool_bindings: freed.tool_bindings,
                registration_locks: freed.registration_locks,
                context_policies: freed.context_policies,
                approval_sessions: freed.approval_sessions,
                approval_turns: freed.approval_turns,
                runs: freed.runs,
                run_sessions: freed.run_sessions,
                run_handles: freed.run_handles,
                run_handle_sessions: freed.run_handle_sessions,
                ..client
            })
            &&& !client.pending_sessions.contains_key(key) ==> told.pending.get(key)
                == client.pending.get(key) && !told.pending_sessions.contains_key(key)
            &&& !client.run_sessions.contains_key(key) ==> freed.runs.get(key) == client.runs.get(
                key,
            )
            &&& !client.run_handle_sessions.contains_key(key) ==> freed.run_handles.get(key)
                == client.run_handles.get(key)
            &&& client.run_handle_sessions.get(key) == Some(session)
                ==> !freed.run_handles.contains_key(key)
            &&& other != session ==> told.interaction_sessions.get(other)
                == client.interaction_sessions.get(other)
            &&& other != session ==> freed.registration_locks.get((other, key))
                == client.registration_locks.get((other, key))
            &&& client.sessions.contains_key(session) && client.sessions[session].id == id ==> {
                &&& told.sessions.get(session) == Some(
                    SessionLifecycle { released: true, ..client.sessions[session] },
                )
                &&& freed.sessions.get(session) == Some(
                    SessionLifecycle { pack_owner: None, ..client.sessions[session] },
                )
            }
            &&& !(client.sessions.contains_key(session) && client.sessions[session].id == id)
                ==> told.sessions == client.sessions && freed.sessions == client.sessions
        }),
{
}

/// The record of a session that nobody knew is open and owns nothing.
pub proof fn new_record_is_open(id: u64, provisional: bool)
    ensures
        new_lifecycle(id, provisional) == (SessionLifecycle {
            id,
            phase: SessionPhase::Open,
            released: false,
            pack_owner: None,
            provisional,
            provisional_users: 0,
        }),
{
}

/// A session that is prepared has a record in that phase, with the identity that it had or
/// got, and an event hub before the daemon hears of it. Nothing else changes.
pub proof fn prepared_session_has_its_hub(
    client: ClientView,
    session: Seq<char>,
    hub: u64,
    other: Seq<char>,
)
    ensures
        ({
            let after = prepared(client, session, hub);
            &&& after.sessions.contains_key(session)
            &&& after.sessions[session].phase == SessionPhase::Preparing
            &&& !after.sessions[session].provisional
            &&& after.sessions[session].id == if client.sessions.contains_key(session) {
                client.sessions[session].id
            } else {
                client.next_object
            }
            &&& after.session_event_hubs.get(session) == Some(
                if client.session_event_hubs.contains_key(session) {
                    client.session_event_hubs[session]
                } else {
                    hub
                },
            )
            &&& other != session ==> after.sessions.get(other) == client.sessions.get(other)
            &&& other != session ==> after.session_event_hubs.get(other)
                == client.session_event_hubs.get(other)
            &&& after == (ClientView {
                sessions: after.sessions,
                next_object: after.next_object,
                session_event_hubs: after.session_event_hubs,
                ..client
            })
        }),
{
}

/// The names that the packs of other sessions own stay theirs when a session is opened.
pub proof fn other_packs_keep_their_names(
    client: ClientView,
    session: Seq<char>,
    packs: Option<(u64, Vec<String>)>,
    other: Seq<char>,
    name: Seq<char>,
)
    requires
        other != session,
    ensures
        accepted(client, session, packs).pack_names.get((other, name)) == client.pack_names.get(
            (other, name),
        ),
{
    if let Some((_, names)) = packs {
        lemma_other_names(
            client,
            session,
            client.sessions[session].id,
            text_list(names@),
            other,
            name,
        );
    }
}

proof fn lemma_other_names(
    client: ClientView,
    session: Seq<char>,
    id: u64,
    names: Seq<Seq<char>>,
    other: Seq<char>,
    name: Seq<char>,
)
    requires
        other != session,
    ensures
        names_owned(client, session, id, names).pack_names.get((other, name))
            == client.pack_names.get((other, name)),
    decreases names.len(),
{
    if names.len() > 0 {
        lemma_other_names(client, session, id, names.drop_last(), other, name);
    }
}

} // verus!
