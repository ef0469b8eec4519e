//! Requests to the daemon: who waits for which answer, and how a request ends.

use vstd::prelude::*;

use crate::client::{request_key, ClientState, ClientView};
use crate::errors::{
    client_closed, client_is_closed, outcome, session_is_closed, ErrorView, SdkError,
};
use crate::protocol::{RUN_EXPIRED, SESSION_LIMIT_EXCEEDED};
use crate::sessions::{existing_verdict, gone, is_current};
use crate::tables::{
    get_lifecycle, insert_handle, insert_link, remove_handle, remove_link,
};
use crate::text::{decimal_is_injective, signed_text};

verus! {

/// An error that the daemon returned. `data` is what it attached, as far as the
/// caller decodes it.
#[derive(Debug)]
pub struct RemoteError<D> {
    pub code: i64,
    pub message: String,
    pub data: D,
}

/// Why a request failed: on this side, or with an answer of the daemon.
#[derive(Debug)]
pub enum RequestError<D> {
    Sdk(SdkError),
    Remote(RemoteError<D>),
}

/// The error that callers see for an error of the daemon.
pub open spec fn remote_error(code: i64, message: Seq<char>) -> ErrorView {
    if code == RUN_EXPIRED {
        ErrorView::RunExpired(message)
    } else if code == SESSION_LIMIT_EXCEEDED {
        ErrorView::LimitExceeded(message)
    } else {
        ErrorView::Rpc { code, message }
    }
}

/// The error that callers see for a failed request.
pub fn plain_request_error<D>(error: RequestError<D>) -> (mapped: SdkError)
    ensures
        mapped@ == match error {
            RequestError::Sdk(error) => error@,
            RequestError::Remote(remote) => remote_error(remote.code, remote.message@),
        },
{
    match error {
        RequestError::Sdk(error) => error,
        RequestError::Remote(remote) => {
            if remote.code == RUN_EXPIRED {
                SdkError::RunExpired(remote.message)
            } else if remote.code == SESSION_LIMIT_EXCEEDED {
                SdkError::LimitExceeded(remote.message)
            } else {
                SdkError::Rpc { code: remote.code, message: remote.message }
            }
        },
    }
}

/// What a request has to do with a session.
#[derive(Clone, Copy, Debug)]
pub enum SessionRequestAccess<'a> {
    /// Nothing.
    Unscoped,
    /// It needs an open session, and fails when the session is closed.
    Writable(&'a str),
    /// It only looks at a session, which may be closed.
    Viewable(&'a str),
}

impl<'a> SessionRequestAccess<'a> {
    /// The session that has to stay open.
    pub open spec fn session(self) -> Option<Seq<char>> {
        match self {
            SessionRequestAccess::Writable(session) => Some(session@),
            _ => None,
        }
    }
}

/// Whether a request may be made at all.
pub open spec fn request_verdict(client: ClientView, session: Option<Seq<char>>) -> Result<
    (),
    ErrorView,
> {
    if client.closed {
        Err(client_closed())
    } else {
        match session {
            Some(session) => existing_verdict(client, session),
            None => Ok(()),
        }
    }
}

/// Whether the answer to a request may be waited for. A session is looked up before the
/// connection is.
pub open spec fn waiting_verdict(client: ClientView, session: Option<Seq<char>>) -> Result<
    (),
    ErrorView,
> {
    match session {
        Some(session) => existing_verdict(client, session),
        None => if client.closed {
            Err(client_closed())
        } else {
            Ok(())
        },
    }
}

/// The number behind a request's number; behind the last one comes the least.
pub open spec fn following_id(id: i64) -> i64 {
    if id == i64::MAX {
        i64::MIN
    } else {
        (id + 1) as i64
    }
}

/// The client when someone waits for the answer to a request.
pub open spec fn awaiting(
    client: ClientView,
    key: Seq<char>,
    session: Option<Seq<char>>,
    reply: u64,
) -> ClientView {
    ClientView {
        pending: client.pending.insert(key, reply),
        pending_sessions: match session {
            Some(session) => client.pending_sessions.insert(key, session),
            None => client.pending_sessions,
        },
        ..client
    }
}

/// The client when nobody waits for the answer to a request.
pub open spec fn forgotten(client: ClientView, key: Seq<char>) -> ClientView {
    ClientView {
        pending: client.pending.remove(key),
        pending_sessions: client.pending_sessions.remove(key),
        ..client
    }
}

/// What a request that was sent, or was to be sent, came to.
#[derive(Debug)]
pub enum RequestEnd<V, D> {
    /// The session gave up its routes first.
    Released,
    /// Nothing came in time.
    TimedOut,
    /// Whoever was to answer is gone.
    Abandoned,
    /// The request was answered, or could not be sent, or its answer not be read.
    Answered(Result<V, RequestError<D>>),
}

/// What the caller of a request is told.
pub open spec fn conclusion<V, D>(
    client: ClientView,
    session: Option<Seq<char>>,
    method: Seq<char>,
    end: RequestEnd<V, D>,
    result: Result<V, RequestError<D>>,
) -> bool {
    let refused = |error: ErrorView|
        result is Err && result->Err_0 is Sdk && result->Err_0->Sdk_0@ == error;
    if end is TimedOut {
        refused(ErrorView::RequestTimeout(method))
    } else if session is Some && (end is Released || gone(client, session->0)) {
        refused(ErrorView::SessionClosed(session->0))
    } else {
        match end {
            RequestEnd::Answered(answer) => result == answer,
            _ => refused(ErrorView::ChannelClosed("Response channel closed"@)),
        }
    }
}

impl ClientState {
    fn check_request(&self, access: SessionRequestAccess<'_>) -> (result: Result<(), SdkError>)
        ensures
            outcome(result) == request_verdict(self@, access.session()),
    {
        if self.closed {
            return Err(client_is_closed());
        }
        match access {
            SessionRequestAccess::Writable(session) => self.check_existing_session_open(session),
            _ => Ok(()),
        }
    }

    /// Takes a number for a request, if it may be made at all.
    pub fn begin_request(&mut self, access: SessionRequestAccess<'_>) -> (result: Result<
        i64,
        SdkError,
    >)
        ensures
            match result {
                Ok(id) => {
                    &&& request_verdict(old(self)@, access.session()) is Ok
                    &&& id == old(self)@.next_id
                    &&& final(self)@ == (ClientView {
                        next_id: following_id(old(self)@.next_id),
                        ..old(self)@
                    })
                },
                Err(error) => {
                    &&& request_verdict(old(self)@, access.session()) == Err::<(), ErrorView>(
                        error@,
                    )
                    &&& final(self)@ == old(self)@
                },
            },
    {
        if let Err(error) = self.check_request(access) {
            return Err(error);
        }
        let id: i64 = self.next_id;
        self.next_id = if id == i64::MAX {
            i64::MIN
        } else {
            id + 1
        };
        Ok(id)
    }

    /// Lets `reply` wait for the answer to a request, before the request is sent. A
    /// request whose session or connection was closed meanwhile is not made.
    pub fn enlist_request(
        &mut self,
        id: i64,
        access: SessionRequestAccess<'_>,
        reply: u64,
    ) -> (result: Result<(), SdkError>)
        ensures
            outcome(result) == waiting_verdict(old(self)@, access.session()),
            final(self)@ == if result is Ok {
                awaiting(old(self)@, request_key(id), access.session(), reply)
            } else {
                old(self)@
            },
    {
        match access {
            SessionRequestAccess::Writable(session) => {
                if let Err(error) = self.check_existing_session_open(session) {
                    return Err(error);
                }
            },
            _ => {
                if self.closed {
                    return Err(client_is_closed());
                }
            },
        }
        let key = signed_text(id);
        insert_handle(&mut self.pending, key.clone(), reply);
        if let SessionRequestAccess::Writable(session) = access {
            insert_link(&mut self.pending_sessions, key, session.to_owned());
        }
        Ok(())
    }

    /// Ends a request: nobody waits for its answer any more, and its caller is told
    /// what it came to. A request that needed an open session fails when the session
    /// is closed, even with an answer.
    pub fn conclude_request<V, D>(
        &mut self,
        id: i64,
        access: SessionRequestAccess<'_>,
        method: &str,
        end: RequestEnd<V, D>,
    ) -> (result: Result<V, RequestError<D>>)
        ensures
            final(self)@ == forgotten(old(self)@, request_key(id)),
            conclusion(old(self)@, access.session(), method@, end, result),
    {
        let key = signed_text(id);
        remove_handle(&mut self.pending, key.as_str());
        remove_link(&mut self.pending_sessions, key.as_str());
        if let RequestEnd::TimedOut = end {
            return Err(RequestError::Sdk(SdkError::RequestTimeout(method.to_owned())));
        }
        if let SessionRequestAccess::Writable(session) = access {
            let released = match end {
                RequestEnd::Released => true,
                _ => false,
            };
            if released || self.session_closed(session) {
                return Err(RequestError::Sdk(session_is_closed(session)));
            }
        }
        match end {
            RequestEnd::Answered(answer) => answer,
            _ => Err(
                RequestError::Sdk(SdkError::ChannelClosed("Response channel closed".to_owned())),
            ),
        }
    }

    /// Whether the session that a request was made for has given up its routes.
    pub fn session_released(&self, session: &str, id: u64) -> (released: bool)
        ensures
            released == (!is_current(self@, session@, id) || self@.sessions[session@].released),
    {
        match get_lifecycle(&self.sessions, session) {
            Some(lifecycle) => lifecycle.id != id || lifecycle.released,
            None => true,
        }
    }

    /// Who waits for an answer; nobody waits for it afterwards.
    pub fn take_reply(&mut self, key: &str) -> (reply: Option<u64>)
        ensures
            reply == old(self)@.pending.get(key@),
            final(self)@ == (ClientView {
                pending: old(self)@.pending.remove(key@),
                ..old(self)@
            }),
    {
        remove_handle(&mut self.pending, key)
    }
}

/// What an answer says. An error counts, whatever else came with it; an answer with
/// neither a result nor an error is a failure.
pub fn response_result<V, D>(result: Option<V>, error: Option<RemoteError<D>>) -> (answer: Result<
    V,
    RequestError<D>,
>)
    ensures
        match error {
            Some(remote) => answer == Err::<V, RequestError<D>>(RequestError::Remote(remote)),
            None => match result {
                Some(value) => answer == Ok::<V, RequestError<D>>(value),
                None => {
                    &&& answer is Err
                    &&& answer->Err_0 is Sdk
                    &&& answer->Err_0->Sdk_0@ == ErrorView::Internal(
                        "Response has no result or error"@,
                    )
                },
            },
        },
{
    match error {
        Some(remote) => Err(RequestError::Remote(remote)),
        None => match result {
            Some(value) => Ok(value),
            None => Err(
                RequestError::Sdk(
                    SdkError::Internal("Response has no result or error".to_owned()),
                ),
            ),
        },
    }
}

/// An answer reaches the request that it answers and no other: two requests with
/// different numbers wait under different keys, so what is done for one leaves the
/// other alone.
pub proof fn requests_do_not_meet(
    client: ClientView,
    a: i64,
    b: i64,
    session: Option<Seq<char>>,
    reply: u64,
)
    requires
        a != b,
    ensures
        request_key(a) != request_key(b),
        awaiting(client, request_key(a), session, reply).pending.get(request_key(b))
            == client.pending.get(request_key(b)),
        forgotten(client, request_key(a)).pending.get(request_key(b)) == client.pending.get(
            request_key(b),
        ),
        forgotten(client, request_key(a)).pending_sessions.get(request_key(b))
            == client.pending_sessions.get(request_key(b)),
{
    if request_key(a) == request_key(b) {
        decimal_is_injective(a as int, b as int);
    }
}

/// A request that has ended leaves nothing behind.
pub proof fn ended_request_leaves_nothing(
    client: ClientView,
    id: i64,
    session: Option<Seq<char>>,
    reply: u64,
)
    requires
        !client.pending.contains_key(request_key(id)),
        !client.pending_sessions.contains_key(request_key(id)),
    ensures
        forgotten(awaiting(client, request_key(id), session, reply), request_key(id)) == client,
{
    let after = forgotten(awaiting(client, request_key(id), session, reply), request_key(id));
    assert(after.pending =~= client.pending);
    assert(after.pending_sessions =~= client.pending_sessions);
}

/// Two codes of the daemon have an error of their own, and every other one is passed on with
/// its number. The message is passed on in any case.
pub proof fn remote_errors_keep_their_message(code: i64, message: Seq<char>)
    ensures
        code == -32030 ==> remote_error(code, message) == ErrorView::RunExpired(message),
        code == -32031 ==> remote_error(code, message) == ErrorView::LimitExceeded(message),
        code != -32030 && code != -32031 ==> remote_error(code, message) == (ErrorView::Rpc {
            code,
            message,
        }),
{
}

/// A request can be made exactly where the connection is open and its session, if it needs
/// one, is known and open, and it may be waited for in the same case.
pub proof fn requests_need_an_open_connection(client: ClientView, session: Option<Seq<char>>)
    ensures
        ({
            let ready = !client.closed && (session matches Some(name)
                ==> client.sessions.contains_key(name) && client.sessions[name].phase
                == crate::sessions::SessionPhase::Open);
            let made = request_verdict(client, session);
            let waited = waiting_verdict(client, session);
            &&& made is Ok <==> ready
            &&& waited is Ok <==> ready
            &&& client.closed ==> made == Err::<(), ErrorView>(
                ErrorView::ChannelClosed("Client is closed"@),
            )
            &&& client.closed && session is None ==> waited == made
            &&& session matches Some(name) ==> {
                &&& !client.sessions.contains_key(name) ==> waited == Err::<(), ErrorView>(
                    ErrorView::SessionClosed(name),
                )
                &&& client.sessions.contains_key(name) ==> waited == made
                &&& !client.closed ==> waited == made
            }
        }),
{
}

/// Only a request that writes to a session needs the session to stay open.
pub proof fn only_writers_need_their_session(session: &str)
    ensures
        SessionRequestAccess::Writable(session).session() == Some(session@),
        SessionRequestAccess::Viewable(session).session() is None,
        SessionRequestAccess::Unscoped.session() is None,
{
}

/// Requests are numbered in order, and no number is given twice in a row.
pub proof fn numbers_of_requests_go_up(id: i64)
    ensures
        following_id(id) != id,
        id < i64::MAX ==> following_id(id) == id + 1,
{
}

/// Who waits for an answer is on record under the number of the request, with the session
/// where the request has one. Nothing else changes.
pub proof fn waiting_request_is_on_record(
    client: ClientView,
    key: Seq<char>,
    session: Option<Seq<char>>,
    reply: u64,
    other: Seq<char>,
)
    ensures
        ({
            let after = awaiting(client, key, session, reply);
            &&& after.pending.get(key) == Some(reply)
            &&& session is Some ==> after.pending_sessions.get(key) == session
            &&& session is None ==> after.pending_sessions == client.pending_sessions
            &&& other != key ==> after.pending.get(other) == client.pending.get(other)
            &&& other != key ==> after.pending_sessions.get(other)
                == client.pending_sessions.get(other)
            &&& after == (ClientView {
                pending: after.pending,
                pending_sessions: after.pending_sessions,
                ..client
            })
        }),
{
}

/// Nobody waits for a request that has ended, and every other one is still waited for.
pub proof fn ended_request_is_forgotten(client: ClientView, key: Seq<char>, other: Seq<char>)
    ensures
        ({
            let after = forgotten(client, key);
            &&& !after.pending.contains_key(key)
            &&& !after.pending_sessions.contains_key(key)
            &&& other != key ==> after.pending.get(other) == client.pending.get(other)
            &&& other != key ==> after.pending_sessions.get(other)
                == client.pending_sessions.get(other)
            &&& after == (ClientView {
                pending: after.pending,
                pending_sessions: after.pending_sessions,
                ..client
            })
        }),
{
}

/// A caller gets the answer as it came, whether it is a result or an error, as long as the
/// request was not bound to a session that is gone.
pub proof fn caller_gets_the_answer<V, D>(
    client: ClientView,
    session: Option<Seq<char>>,
    method: Seq<char>,
    answer: Result<V, RequestError<D>>,
    result: Result<V, RequestError<D>>,
)
    requires
        conclusion(client, session, method, RequestEnd::Answered(answer), result),
        session matches Some(name) ==> !(client.sessions.contains_key(name) && (
        client.sessions[name].phase == crate::sessions::SessionPhase::Closed
            || client.sessions[name].phase is Releasing)),
    ensures
        result == answer,
{
}

/// A request without an answer fails by what happened: it took too long, its session was
/// closed, or whoever was to answer is gone. A closed session comes before an answer.
pub proof fn failed_request_tells_why<V, D>(
    client: ClientView,
    session: Option<Seq<char>>,
    method: Seq<char>,
    end: RequestEnd<V, D>,
    result: Result<V, RequestError<D>>,
)
    requires
        conclusion(client, session, method, end, result),
    ensures
        ({
            let closed = session matches Some(name) && (end is Released || (
            client.sessions.contains_key(name) && (client.sessions[name].phase
                == crate::sessions::SessionPhase::Closed || client.sessions[name].phase
                is Releasing)));
            &&& end is TimedOut ==> (result matches Err(RequestError::Sdk(error)) && error@
                == ErrorView::RequestTimeout(method))
            &&& !(end is TimedOut) && closed ==> (result matches Err(RequestError::Sdk(error))
                && error@ == ErrorView::SessionClosed(session->0))
            &&& !closed && (end is Abandoned || end is Released) ==> (result matches Err(
                RequestError::Sdk(error),
            ) && error@ is ChannelClosed)
        }),
{
}

} // verus!
