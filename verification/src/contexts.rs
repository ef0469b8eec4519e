//! Calls of the daemon into the host: tools and context policies.
//!
//! An invocation is registered before any user code is scheduled, so a cancellation
//! that follows its request immediately always finds it.

use dashmap::DashMap;
use vstd::prelude::*;

use crate::client::{ClientState, ClientView};
use crate::errors::{error_text, require_valid, ErrorView, SdkError};
use crate::identity::{fresh_identifier, is_identifier};
use crate::protocol::{
    CAPABILITY_INTERACTIONS, INTERNAL_ERROR, INVALID_PARAMS, METHOD_CONTEXT_BUILD_HOST,
    METHOD_NOT_FOUND, METHOD_TOOL_EXECUTE_HOST, PROTOCOL_NOT_INITIALIZED,
};
use crate::sessions::{knowing, open_verdict, record};
use crate::tables::{
    binding_views, bindings, enumerates, get_binding, get_handle, insert_handle, insert_link,
    list_bindings, opt_text, remove_handle, remove_link,
};
use crate::text::{join2, join3, same_text};

verus! {

/// Cooperative cancellation, or expiry of the deadline of a callback's run.
#[derive(Clone, Copy, Debug, PartialEq, Eq, Structural)]
pub struct CancellationSignal {
    pub cancelled: bool,
    pub deadline_unix_ms: Option<u64>,
}

impl CancellationSignal {
    /// The callback has been cancelled, or its deadline is reached at `now_ms`.
    pub open spec fn fired(self, now_ms: u64) -> bool {
        self.cancelled || (self.deadline_unix_ms matches Some(deadline) && deadline <= now_ms)
    }

    /// A signal that has not been given.
    pub fn new(deadline_unix_ms: Option<u64>) -> (signal: Self)
        ensures
            signal == (CancellationSignal { cancelled: false, deadline_unix_ms }),
    {
        CancellationSignal { cancelled: false, deadline_unix_ms }
    }

    /// Gives the signal.
    pub fn cancel(&mut self)
        ensures
            *final(self) == (CancellationSignal { cancelled: true, ..*old(self) }),
    {
        self.cancelled = true;
    }

    /// When the run expires.
    pub fn deadline_unix_ms(&self) -> (deadline: Option<u64>)
        ensures
            deadline == self.deadline_unix_ms,
    {
        self.deadline_unix_ms
    }

    /// Whether the callback should stop.
    pub fn is_cancelled(&self, now_ms: u64) -> (cancelled: bool)
        ensures
            cancelled == self.fired(now_ms),
    {
        self.cancelled || match self.deadline_unix_ms {
            Some(deadline) => deadline <= now_ms,
            None => false,
        }
    }

    /// How many milliseconds to wait for the deadline.
    pub fn remaining(&self, now_ms: u64) -> (wait: Option<u64>)
        ensures
            match self.deadline_unix_ms {
                None => wait is None,
                Some(deadline) => wait == Some(
                    if deadline <= now_ms {
                        0u64
                    } else {
                        (deadline - now_ms) as u64
                    },
                ),
            },
    {
        match self.deadline_unix_ms {
            None => None,
            Some(deadline) => Some(
                if deadline <= now_ms {
                    0
                } else {
                    deadline - now_ms
                },
            ),
        }
    }
}

/// The clock as signals read it. `elapsed` are the milliseconds since the epoch, or
/// nothing where the clock is set before it.
pub fn now_ms(elapsed: Option<u128>) -> (now: u64)
    ensures
        now == match elapsed {
            None => 0,
            Some(millis) => if millis > u64::MAX {
                u64::MAX
            } else {
                millis as u64
            },
        },
{
    match elapsed {
        None => 0,
        Some(millis) => if millis > u64::MAX as u128 {
            u64::MAX
        } else {
            millis as u64
        },
    }
}

/// One invocation as the host holds it.
#[derive(Clone, Copy, Debug, PartialEq, Eq, Structural)]
pub struct ScopedCallback {
    pub cancellation: CancellationSignal,
    /// Nobody waits for the result any more.
    pub stopped: bool,
    pub finished: bool,
}

impl ScopedCallback {
    /// An invocation that may run.
    pub fn new(cancellation: CancellationSignal) -> (callback: Self)
        ensures
            callback == (ScopedCallback { cancellation, stopped: false, finished: false }),
    {
        ScopedCallback { cancellation, stopped: false, finished: false }
    }

    /// Asks the user code to stop.
    pub fn cancel(&mut self)
        ensures
            *final(self) == (ScopedCallback {
                cancellation: CancellationSignal { cancelled: true, ..old(self).cancellation },
                ..*old(self)
            }),
    {
        self.cancellation.cancel();
    }

    /// Asks the user code to stop and gives its result up.
    pub fn stop(&mut self)
        ensures
            *final(self) == (ScopedCallback {
                cancellation: CancellationSignal { cancelled: true, ..old(self).cancellation },
                stopped: true,
                ..*old(self)
            }),
    {
        self.cancel();
        self.stopped = true;
    }

    /// Records that the invocation is over.
    pub fn finish(&mut self)
        ensures
            *final(self) == (ScopedCallback { finished: true, ..*old(self) }),
    {
        self.finished = true;
    }

    /// Whether the user code is called at all.
    pub fn may_start(&self, now_ms: u64, shutdown: bool) -> (may: bool)
        ensures
            may == (!self.cancellation.fired(now_ms) && !self.stopped && !shutdown),
    {
        !self.cancellation.is_cancelled(now_ms) && !self.stopped && !shutdown
    }

    /// Whether the daemon is told what the user code returned.
    pub fn may_reply(&self, now_ms: u64, closed: bool) -> (may: bool)
        ensures
            may == (!self.cancellation.fired(now_ms) && !closed),
    {
        !self.cancellation.is_cancelled(now_ms) && !closed
    }
}

/// The run that a callback belongs to.
#[derive(Debug)]
pub struct RunContextInfo {
    pub thread_id: String,
    pub turn_id: String,
    pub deadline_unix_ms: Option<u64>,
}

/// What the daemon says of the invocation of a tool.
#[derive(Debug)]
pub struct ToolContextInfo {
    pub run: RunContextInfo,
    pub call_id: String,
}

/// A tool that the daemon wants executed. The arguments stay with the host.
#[derive(Debug)]
pub struct ToolExecution {
    pub call_id: String,
    pub name: String,
    pub thread_id: Option<String>,
    pub binding_id: Option<String>,
    pub context: Option<ToolContextInfo>,
}

impl ToolExecution {
    /// The session that the request names, by itself or by its context.
    pub open spec fn session(self) -> Option<Seq<char>> {
        match self.thread_id {
            Some(thread) => Some(thread@),
            None => match self.context {
                Some(context) => Some(context.run.thread_id@),
                None => None,
            },
        }
    }

    /// A context has to be complete, and of the session that the request names.
    pub open spec fn identified(self) -> bool {
        match self.context {
            None => true,
            Some(context) => {
                &&& context.run.thread_id@.len() > 0
                &&& context.run.turn_id@.len() > 0
                &&& context.call_id@.len() > 0
                &&& self.thread_id matches Some(thread) ==> thread@ == context.run.thread_id@
            },
        }
    }

    /// When the run of the request expires.
    pub open spec fn deadline(self) -> Option<u64> {
        match self.context {
            Some(context) => context.run.deadline_unix_ms,
            None => None,
        }
    }

    fn check_identity(&self) -> (identified: bool)
        ensures
            identified == self.identified(),
    {
        match &self.context {
            None => true,
            Some(context) => !context.run.thread_id.as_str().is_empty()
                && !context.run.turn_id.as_str().is_empty()
                && !context.call_id.as_str().is_empty() && match &self.thread_id {
                Some(thread) => same_text(thread.as_str(), context.run.thread_id.as_str()),
                None => true,
            },
        }
    }

    fn session_text(&self) -> (session: Option<String>)
        ensures
            opt_text(session) == self.session(),
    {
        match &self.thread_id {
            Some(thread) => Some(thread.clone()),
            None => match &self.context {
                Some(context) => Some(context.run.thread_id.clone()),
                None => None,
            },
        }
    }

    fn signal(&self) -> (signal: CancellationSignal)
        ensures
            signal == (CancellationSignal { cancelled: false, deadline_unix_ms: self.deadline() }),
    {
        match &self.context {
            Some(context) => CancellationSignal::new(context.run.deadline_unix_ms),
            None => CancellationSignal::new(None),
        }
    }
}

/// `session` is the only one with a tool of that name.
pub open spec fn is_sole_owner(
    tools: Map<(Seq<char>, Seq<char>), u64>,
    session: Seq<char>,
    name: Seq<char>,
) -> bool {
    &&& tools.contains_key((session, name))
    &&& forall|other: Seq<char>| #[trigger] tools.contains_key((other, name)) ==> other == session
}

/// The only session with a tool of that name, if there is exactly one.
pub open spec fn sole_owner(tools: Map<(Seq<char>, Seq<char>), u64>, name: Seq<char>) -> Option<
    Seq<char>,
> {
    if exists|session: Seq<char>| is_sole_owner(tools, session, name) {
        Some(choose|session: Seq<char>| is_sole_owner(tools, session, name))
    } else {
        None
    }
}

fn find_sole_owner(table: &DashMap<(String, String), u64>, name: &str) -> (owner: Option<String>)
    ensures
        opt_text(owner) == sole_owner(bindings(*table), name@),
{
    let ghost tools = bindings(*table);
    let listed = list_bindings(table);
    let ghost views = binding_views(listed@);
    let mut first: Option<String> = None;
    let mut i: usize = 0;
    while i < listed.len()
        invariant
            i <= listed.len(),
            tools == bindings(*table),
            views == binding_views(listed@),
            enumerates(views, tools),
            match first {
                None => forall|j: int| 0 <= j < i ==> (#[trigger] views[j]).0.1 != name@,
                Some(session) => {
                    &&& tools.contains_key((session@, name@))
                    &&& forall|j: int|
                        0 <= j < i && (#[trigger] views[j]).0.1 == name@ ==> views[j].0.0
                            == session@
                },
            },
        decreases listed.len() - i,
    {
        let entry = &listed[i];
        assert(views[i as int] == ((entry.0.0@, entry.0.1@), entry.1));
        assert(tools.contains_key(views[i as int].0));
        if same_text(entry.0.1.as_str(), name) {
            match &first {
                None => {
                    first = Some(entry.0.0.clone());
                },
                Some(session) => {
                    if !same_text(session.as_str(), entry.0.0.as_str()) {
                        proof {
                            assert(tools.contains_key((session@, name@)));
                            assert(tools.contains_key((entry.0.0@, name@)));
                        }
                        return None;
                    }
                },
            }
        }
        i = i + 1;
    }
    proof {
        assert forall|other: Seq<char>| #[trigger] tools.contains_key((other, name@)) implies first
            is Some && other == first->0@ by {
            let j = choose|j: int| 0 <= j < views.len() && (#[trigger] views[j]).0 == (other, name@);
            assert(views[j].0.1 == name@);
        }
        if first is Some {
            assert(is_sole_owner(tools, first->0@, name@));
        }
    }
    first
}

/// The tool that a request means. A version is authoritative: an unknown one never
/// falls back to the name. Without a session the name has to be unique.
pub open spec fn meant_tool(client: ClientView, execution: ToolExecution) -> Option<u64> {
    match execution.binding_id {
        Some(binding) => match execution.session() {
            Some(session) => client.tool_bindings.get((session, binding@)),
            None => None,
        },
        None => match meant_session(client, execution) {
            Some(session) => client.tools.get((session, execution.name@)),
            None => None,
        },
    }
}

/// The session that an invocation belongs to.
pub open spec fn meant_session(client: ClientView, execution: ToolExecution) -> Option<Seq<char>> {
    match execution.session() {
        Some(session) => Some(session),
        None => if execution.binding_id is Some {
            None
        } else {
            sole_owner(client.tools, execution.name@)
        },
    }
}

/// A context that the daemon wants built. The history stays with the host.
#[derive(Debug)]
pub struct ContextBuild {
    pub context: RunContextInfo,
}

/// The parameters of a request, as far as they could be read.
#[derive(Debug)]
pub enum HostParams {
    Tool(ToolExecution),
    Context(ContextBuild),
    Unreadable,
}

/// Why a request of the daemon is refused.
#[derive(Debug)]
pub enum Rejection {
    NotInitialized,
    MethodNotFound(String),
    InvalidParams(String),
    Internal(String),
}

/// A [`Rejection`] by its texts.
pub enum RejectionView {
    NotInitialized,
    MethodNotFound(Seq<char>),
    InvalidParams(Seq<char>),
    Internal(Seq<char>),
}

impl View for Rejection {
    type V = RejectionView;

    open spec fn view(&self) -> RejectionView {
        match *self {
            Rejection::NotInitialized => RejectionView::NotInitialized,
            Rejection::MethodNotFound(method) => RejectionView::MethodNotFound(method@),
            Rejection::InvalidParams(message) => RejectionView::InvalidParams(message@),
            Rejection::Internal(message) => RejectionView::Internal(message@),
        }
    }
}

impl Rejection {
    /// The code of the error response.
    pub fn code(&self) -> (code: i64)
        ensures
            code == match self@ {
                RejectionView::NotInitialized => PROTOCOL_NOT_INITIALIZED,
                RejectionView::MethodNotFound(_) => METHOD_NOT_FOUND,
                RejectionView::InvalidParams(_) => INVALID_PARAMS,
                RejectionView::Internal(_) => INTERNAL_ERROR,
            },
    {
        match self {
            Rejection::NotInitialized => PROTOCOL_NOT_INITIALIZED,
            Rejection::MethodNotFound(_) => METHOD_NOT_FOUND,
            Rejection::InvalidParams(_) => INVALID_PARAMS,
            Rejection::Internal(_) => INTERNAL_ERROR,
        }
    }

    /// The message of the error response; for a method that does not exist, its name.
    pub fn message(&self) -> (message: String)
        ensures
            message@ == match self@ {
                RejectionView::NotInitialized => "Connection is not initialized"@,
                RejectionView::MethodNotFound(method) => method,
                RejectionView::InvalidParams(message) => message,
                RejectionView::Internal(message) => message,
            },
    {
        match self {
            Rejection::NotInitialized => "Connection is not initialized".to_owned(),
            Rejection::MethodNotFound(method) => method.clone(),
            Rejection::InvalidParams(message) => message.clone(),
            Rejection::Internal(message) => message.clone(),
        }
    }
}

/// What the host does with a request of the daemon.
#[derive(Debug)]
pub enum Dispatch {
    /// Answer with an error.
    Reject(Rejection),
    /// Run the tool, or report that it is not bound.
    RunTool { tool: Option<u64>, cancellation: CancellationSignal },
    /// Let the policy build the context.
    BuildContext { policy: u64, cancellation: CancellationSignal },
}

/// A [`Dispatch`] by its texts.
pub enum DispatchView {
    Reject(RejectionView),
    RunTool { tool: Option<u64>, deadline: Option<u64> },
    BuildContext { policy: u64, deadline: Option<u64> },
}

impl Dispatch {
    /// What the host does, with a signal that has not been given.
    pub open spec fn is(self, view: DispatchView) -> bool {
        match (self, view) {
            (Dispatch::Reject(rejection), DispatchView::Reject(expected)) => rejection@
                == expected,
            (
                Dispatch::RunTool { tool, cancellation },
                DispatchView::RunTool { tool: expected, deadline },
            ) => tool == expected && cancellation == (CancellationSignal {
                cancelled: false,
                deadline_unix_ms: deadline,
            }),
            (
                Dispatch::BuildContext { policy, cancellation },
                DispatchView::BuildContext { policy: expected, deadline },
            ) => policy == expected && cancellation == (CancellationSignal {
                cancelled: false,
                deadline_unix_ms: deadline,
            }),
            _ => false,
        }
    }
}

/// The client that certainly knows the session of an invocation.
pub open spec fn invoked(client: ClientView, session: Option<Seq<char>>) -> ClientView {
    match session {
        Some(session) => knowing(client, session),
        None => client,
    }
}

/// Why an invocation cannot be registered.
pub open spec fn invocation_refusal(
    client: ClientView,
    registered: Map<Seq<char>, u64>,
    key: Seq<char>,
    session: Option<Seq<char>>,
) -> Option<Seq<char>> {
    let verdict = match session {
        Some(session) => open_verdict(client.closed, record(client, session).phase, session),
        None => Ok(()),
    };
    match verdict {
        Err(error) => Some(error_text(error)),
        Ok(()) => if registered.contains_key(key) {
            Some("Duplicate host invocation"@)
        } else {
            None
        },
    }
}

/// The sessions of invocations when one more is registered.
pub open spec fn scoped(
    sessions: Map<Seq<char>, Seq<char>>,
    key: Seq<char>,
    session: Option<Seq<char>>,
) -> Map<Seq<char>, Seq<char>> {
    match session {
        Some(session) => sessions.insert(key, session),
        None => sessions.remove(key),
    }
}

/// The client when a tool's invocation is registered.
pub open spec fn tool_invoked(
    client: ClientView,
    key: Seq<char>,
    session: Option<Seq<char>>,
    callback: u64,
) -> ClientView {
    let known = invoked(client, session);
    ClientView {
        tool_callbacks: client.tool_callbacks.insert(key, callback),
        tool_callback_sessions: scoped(client.tool_callback_sessions, key, session),
        ..known
    }
}

/// The client when a policy's invocation is registered.
pub open spec fn context_invoked(
    client: ClientView,
    key: Seq<char>,
    session: Option<Seq<char>>,
    callback: u64,
) -> ClientView {
    let known = invoked(client, session);
    ClientView {
        context_callbacks: client.context_callbacks.insert(key, callback),
        context_callback_sessions: scoped(client.context_callback_sessions, key, session),
        ..known
    }
}

/// What becomes of a request to execute a tool, and the client then.
pub open spec fn tool_dispatch(client: ClientView, execution: ToolExecution, callback: u64) -> (
    ClientView,
    DispatchView,
) {
    let session = meant_session(client, execution);
    if !execution.identified() {
        (
            client,
            DispatchView::Reject(
                RejectionView::InvalidParams("Invalid tool execution identity"@),
            ),
        )
    } else {
        match invocation_refusal(
            client,
            client.tool_callbacks,
            execution.call_id@,
            session,
        ) {
            Some(reason) => (
                invoked(client, session),
                DispatchView::Reject(RejectionView::InvalidParams(reason)),
            ),
            None => (
                tool_invoked(client, execution.call_id@, session, callback),
                DispatchView::RunTool {
                    tool: meant_tool(client, execution),
                    deadline: execution.deadline(),
                },
            ),
        }
    }
}

/// What becomes of a request to build a context, and the client then.
pub open spec fn context_dispatch(
    client: ClientView,
    key: Seq<char>,
    build: ContextBuild,
    callback: u64,
) -> (ClientView, DispatchView) {
    let session = build.context.thread_id@;
    if !client.context_policies.contains_key(session) {
        (
            client,
            DispatchView::Reject(
                RejectionView::InvalidParams("No host context policy bound to this session"@),
            ),
        )
    } else {
        match invocation_refusal(client, client.context_callbacks, key, Some(session)) {
            Some(reason) => (
                knowing(client, session),
                DispatchView::Reject(RejectionView::InvalidParams(reason)),
            ),
            None => (
                context_invoked(client, key, Some(session), callback),
                DispatchView::BuildContext {
                    policy: client.context_policies[session],
                    deadline: build.context.deadline_unix_ms,
                },
            ),
        }
    }
}

/// What becomes of a request of the daemon, and the client then. `key` is the text of
/// the request's number.
pub open spec fn request_dispatch(
    client: ClientView,
    key: Seq<char>,
    method: Seq<char>,
    params: HostParams,
    callback: u64,
) -> (ClientView, DispatchView) {
    if method == METHOD_CONTEXT_BUILD_HOST@ {
        match params {
            HostParams::Context(build) => context_dispatch(client, key, build, callback),
            _ => (
                client,
                DispatchView::Reject(
                    RejectionView::InvalidParams("Invalid context.build_host parameters"@),
                ),
            ),
        }
    } else if method != METHOD_TOOL_EXECUTE_HOST@ {
        (client, DispatchView::Reject(RejectionView::MethodNotFound(method)))
    } else {
        match params {
            HostParams::Tool(execution) => tool_dispatch(client, execution, callback),
            _ => (
                client,
                DispatchView::Reject(
                    RejectionView::InvalidParams("Invalid tool.execute_host parameters"@),
                ),
            ),
        }
    }
}

fn invalid_params(message: &str) -> (dispatch: Dispatch)
    ensures
        dispatch.is(DispatchView::Reject(RejectionView::InvalidParams(message@))),
{
    Dispatch::Reject(Rejection::InvalidParams(message.to_owned()))
}

impl ClientState {
    fn check_invocation(&mut self, occupied: bool, session: &Option<String>) -> (refusal: Option<
        String,
    >)
        ensures
            final(self)@ == invoked(old(self)@, opt_text(*session)),
            opt_text(refusal) == match opt_text(*session) {
                Some(session) => match open_verdict(
                    old(self)@.closed,
                    record(old(self)@, session).phase,
                    session,
                ) {
                    Err(error) => Some(error_text(error)),
                    Ok(()) => if occupied {
                        Some("Duplicate host invocation"@)
                    } else {
                        None
                    },
                },
                None => if occupied {
                    Some("Duplicate host invocation"@)
                } else {
                    None
                },
            },
    {
        if let Some(session) = session {
            if let Err(error) = self.check_session_open(session.as_str()) {
                return Some(error.message());
            }
        }
        if occupied {
            Some("Duplicate host invocation".to_owned())
        } else {
            None
        }
    }

    fn dispatch_tool(&mut self, execution: &ToolExecution, callback: u64) -> (dispatch: Dispatch)
        ensures
            ({
                let (after, expected) = tool_dispatch(old(self)@, *execution, callback);
                final(self)@ == after && dispatch.is(expected)
            }),
    {
        if !execution.check_identity() {
            return invalid_params("Invalid tool execution identity");
        }
        let named = execution.session_text();
        let session = match &named {
            Some(session) => Some(session.clone()),
            None => if execution.binding_id.is_some() {
                None
            } else {
                find_sole_owner(&self.tools, execution.name.as_str())
            },
        };
        let tool = match &execution.binding_id {
            Some(binding) => match &named {
                Some(session) => get_binding(
                    &self.tool_bindings,
                    session.as_str(),
                    binding.as_str(),
                ),
                None => None,
            },
            None => match &session {
                Some(session) => get_binding(
                    &self.tools,
                    session.as_str(),
                    execution.name.as_str(),
                ),
                None => None,
            },
        };
        let occupied = get_handle(&self.tool_callbacks, execution.call_id.as_str()).is_some();
        if let Some(reason) = self.check_invocation(occupied, &session) {
            return Dispatch::Reject(Rejection::InvalidParams(reason));
        }
        insert_handle(&mut self.tool_callbacks, execution.call_id.clone(), callback);
        match session {
            Some(session) => {
                insert_link(
                    &mut self.tool_callback_sessions,
                    execution.call_id.clone(),
                    session,
                );
            },
            None => {
                remove_link(&mut self.tool_callback_sessions, execution.call_id.as_str());
            },
        }
        Dispatch::RunTool { tool, cancellation: execution.signal() }
    }

    fn dispatch_context(&mut self, key: &str, build: &ContextBuild, callback: u64) -> (dispatch:
        Dispatch)
        ensures
            ({
                let (after, expected) = context_dispatch(old(self)@, key@, *build, callback);
                final(self)@ == after && dispatch.is(expected)
            }),
    {
        let session = build.context.thread_id.clone();
        let policy: u64 = match get_handle(&self.context_policies, session.as_str()) {
            Some(policy) => policy,
            None => return invalid_params("No host context policy bound to this session"),
        };
        let occupied = get_handle(&self.context_callbacks, key).is_some();
        let scope = Some(session.clone());
        if let Some(reason) = self.check_invocation(occupied, &scope) {
            return Dispatch::Reject(Rejection::InvalidParams(reason));
        }
        insert_handle(&mut self.context_callbacks, key.to_owned(), callback);
        insert_link(&mut self.context_callback_sessions, key.to_owned(), session);
        Dispatch::BuildContext {
            policy,
            cancellation: CancellationSignal::new(build.context.deadline_unix_ms),
        }
    }

    /// Takes a request of the daemon on an initialized connection. `callback` is the
    /// host's handle for the invocation; it is registered where the result says that
    /// user code runs.
    pub fn dispatch_request(
        &mut self,
        key: &str,
        method: &str,
        params: &HostParams,
        callback: u64,
    ) -> (dispatch: Dispatch)
        ensures
            ({
                let (after, expected) = request_dispatch(
                    old(self)@,
                    key@,
                    method@,
                    *params,
                    callback,
                );
                final(self)@ == after && dispatch.is(expected)
            }),
    {
        if same_text(method, METHOD_CONTEXT_BUILD_HOST) {
            match params {
                HostParams::Context(build) => self.dispatch_context(key, build, callback),
                _ => invalid_params("Invalid context.build_host parameters"),
            }
        } else if !same_text(method, METHOD_TOOL_EXECUTE_HOST) {
            Dispatch::Reject(Rejection::MethodNotFound(method.to_owned()))
        } else {
            match params {
                HostParams::Tool(execution) => self.dispatch_tool(execution, callback),
                _ => invalid_params("Invalid tool.execute_host parameters"),
            }
        }
    }

    /// Forgets an invocation that is over.
    pub fn finish_invocation(&mut self, context: bool, key: &str)
        ensures
            final(self)@ == invocation_over(old(self)@, context, key@),
    {
        if context {
            remove_handle(&mut self.context_callbacks, key);
            remove_link(&mut self.context_callback_sessions, key);
        } else {
            remove_handle(&mut self.tool_callbacks, key);
            remove_link(&mut self.tool_callback_sessions, key);
        }
    }

    /// The invocation that a cancellation means.
    pub fn cancelled_invocation(&self, context: bool, key: &str) -> (callback: Option<u64>)
        ensures
            callback == if context {
                self@.context_callbacks.get(key@)
            } else {
                self@.tool_callbacks.get(key@)
            },
    {
        if context {
            get_handle(&self.context_callbacks, key)
        } else {
            get_handle(&self.tool_callbacks, key)
        }
    }
}

/// The client when an invocation is over.
pub open spec fn invocation_over(client: ClientView, context: bool, key: Seq<char>) -> ClientView {
    if context {
        ClientView {
            context_callbacks: client.context_callbacks.remove(key),
            context_callback_sessions: client.context_callback_sessions.remove(key),
            ..client
        }
    } else {
        ClientView {
            tool_callbacks: client.tool_callbacks.remove(key),
            tool_callback_sessions: client.tool_callback_sessions.remove(key),
            ..client
        }
    }
}

/// How user code ended.
#[derive(Debug)]
pub enum CallbackEnd {
    /// It returned; the number stands for what it returned.
    Returned(u64),
    Failed(String),
    Panicked,
    /// There was no tool to call.
    Unbound,
}

/// What the daemon is told of a tool: what it returned, or a text in its place.
#[derive(Debug)]
pub enum ToolReply {
    Output(u64),
    Error(String),
}

/// What the daemon is told of a tool that has ended.
pub fn tool_reply(end: CallbackEnd, name: &str) -> (reply: ToolReply)
    ensures
        match (end, reply) {
            (CallbackEnd::Returned(output), ToolReply::Output(told)) => told == output,
            (CallbackEnd::Failed(error), ToolReply::Error(text)) => text@ == error@,
            (CallbackEnd::Panicked, ToolReply::Error(text)) => text@ == "Host tool panicked"@,
            (CallbackEnd::Unbound, ToolReply::Error(text)) => text@ == "Host tool '"@ + name@
                + "' is not bound to this session"@,
            _ => false,
        },
{
    match end {
        CallbackEnd::Returned(output) => ToolReply::Output(output),
        CallbackEnd::Failed(error) => ToolReply::Error(error),
        CallbackEnd::Panicked => ToolReply::Error("Host tool panicked".to_owned()),
        CallbackEnd::Unbound => ToolReply::Error(
            join3("Host tool '", name, "' is not bound to this session"),
        ),
    }
}

/// What the daemon is told of a policy that has ended: the context that it built, or
/// an error.
pub fn context_reply(end: CallbackEnd) -> (reply: Result<u64, Rejection>)
    ensures
        match (end, reply) {
            (CallbackEnd::Returned(context), Ok(told)) => told == context,
            (CallbackEnd::Failed(error), Err(rejection)) => rejection@
                == RejectionView::Internal(error@),
            (CallbackEnd::Panicked, Err(rejection)) => rejection@ == RejectionView::Internal(
                "Host context policy panicked"@,
            ),
            (CallbackEnd::Unbound, Err(rejection)) => rejection@ == RejectionView::InvalidParams(
                "No host context policy bound to this session"@,
            ),
            _ => false,
        },
{
    match end {
        CallbackEnd::Returned(context) => Ok(context),
        CallbackEnd::Failed(error) => Err(Rejection::Internal(error)),
        CallbackEnd::Panicked => Err(
            Rejection::Internal("Host context policy panicked".to_owned()),
        ),
        CallbackEnd::Unbound => Err(
            Rejection::InvalidParams("No host context policy bound to this session".to_owned()),
        ),
    }
}

/// What user code knows of its invocation.
#[derive(Debug)]
pub struct ToolContext {
    pub info: Option<ToolContextInfo>,
    pub correlation_id: String,
}

/// Whether the invocation still counts.
pub open spec fn is_active(callback: ScopedCallback, now_ms: u64) -> bool {
    !callback.cancellation.fired(now_ms) && !callback.finished
}

impl ToolContext {
    /// Whether progress is reported to the daemon: not for an invocation that no
    /// longer counts, or that the daemon did not identify. `connected` says whether
    /// the client still exists.
    pub fn report_progress(
        &self,
        callback: &ScopedCallback,
        now_ms: u64,
        valid: Result<(), String>,
        connected: bool,
    ) -> (result: Result<bool, SdkError>)
        ensures
            match valid {
                Err(reason) => result is Err && result->Err_0@
                    == ErrorView::InvalidConfiguration(reason@),
                Ok(()) => if !is_active(*callback, now_ms) || self.info is None {
                    result == Ok::<bool, SdkError>(false)
                } else if !connected {
                    result is Err && result->Err_0@ == ErrorView::ChannelClosed(
                        "Client dropped"@,
                    )
                } else {
                    result == Ok::<bool, SdkError>(true)
                },
            },
    {
        if let Err(error) = require_valid(valid) {
            return Err(error);
        }
        if callback.cancellation.is_cancelled(now_ms) || callback.finished || self.info.is_none() {
            return Ok(false);
        }
        if !connected {
            return Err(SdkError::ChannelClosed("Client dropped".to_owned()));
        }
        Ok(true)
    }

    /// Whether user code may ask the application a question, and the identity of the
    /// question.
    pub fn request_interaction(
        &self,
        callback: &ScopedCallback,
        now_ms: u64,
        valid: Result<(), String>,
        client: Option<&ClientState>,
    ) -> (result: Result<String, SdkError>)
        ensures
            match result {
                Ok(identity) => {
                    &&& valid is Ok
                    &&& client is Some
                    &&& interaction_refusal(*self, *callback, now_ms, client->0@) is None
                    &&& is_identifier(identity@)
                },
                Err(error) => match valid {
                    Err(reason) => error@ == ErrorView::InvalidConfiguration(reason@),
                    Ok(()) => match client {
                        Some(client) => interaction_refusal(
                            *self,
                            *callback,
                            now_ms,
                            client@,
                        ) == Some(error@),
                        None => error@ == match callback_refusal(*self, *callback, now_ms) {
                            Some(refusal) => refusal,
                            None => ErrorView::ChannelClosed("Client dropped"@),
                        },
                    },
                },
            },
    {
        if let Err(error) = require_valid(valid) {
            return Err(error);
        }
        let info = match &self.info {
            Some(info) => info,
            None => return Err(
                SdkError::ProtocolCompatibility(
                    "The daemon did not supply an Interaction-capable ToolContext identity".to_owned(),
                ),
            ),
        };
        if callback.cancellation.is_cancelled(now_ms) || callback.finished {
            return Err(
                SdkError::ChannelClosed("Host tool callback is no longer active".to_owned()),
            );
        }
        let client = match client {
            Some(client) => client,
            None => return Err(SdkError::ChannelClosed("Client dropped".to_owned())),
        };
        if let Err(error) = client.initialization.require_initialized() {
            return Err(error);
        }
        if !client.initialization.offers(CAPABILITY_INTERACTIONS) {
            return Err(
                SdkError::ProtocolCompatibility(
                    "Daemon does not advertise interactions.v1".to_owned(),
                ),
            );
        }
        if get_handle(&client.interaction_sessions, info.run.thread_id.as_str()).is_none() {
            return Err(
                SdkError::InvalidConfiguration(
                    join2(
                        "Interactions are not enabled for Session ",
                        info.run.thread_id.as_str(),
                    ),
                ),
            );
        }
        Ok(fresh_identifier())
    }
}

/// Why the invocation itself may not ask.
pub open spec fn callback_refusal(context: ToolContext, callback: ScopedCallback, now_ms: u64) -> Option<
    ErrorView,
> {
    if context.info is None {
        Some(
            ErrorView::ProtocolCompatibility(
                "The daemon did not supply an Interaction-capable ToolContext identity"@,
            ),
        )
    } else if !is_active(callback, now_ms) {
        Some(ErrorView::ChannelClosed("Host tool callback is no longer active"@))
    } else {
        None
    }
}

/// Why user code may not ask the application a question.
pub open spec fn interaction_refusal(
    context: ToolContext,
    callback: ScopedCallback,
    now_ms: u64,
    client: ClientView,
) -> Option<ErrorView> {
    if callback_refusal(context, callback, now_ms) is Some {
        callback_refusal(context, callback, now_ms)
    } else if client.initialization.refusal() is Some {
        client.initialization.refusal()
    } else if !client.initialization.offering(CAPABILITY_INTERACTIONS@) {
        Some(ErrorView::ProtocolCompatibility("Daemon does not advertise interactions.v1"@))
    } else if !client.interaction_sessions.contains_key(context.info->0.run.thread_id@) {
        Some(
            ErrorView::InvalidConfiguration(
                "Interactions are not enabled for Session "@ + context.info->0.run.thread_id@,
            ),
        )
    } else {
        None
    }
}

/// How the wait for the answer to a question ended.
#[derive(Debug)]
pub enum QuestionEnd {
    Cancelled,
    Finished,
    Failed(SdkError),
    /// The daemon answered the question `request_id`; `valid` says whether the answer
    /// is well formed, and `response` stands for it.
    Answered { request_id: String, valid: Result<(), String>, response: u64 },
}

/// What user code learns of its question.
pub fn conclude_interaction(identity: &str, end: QuestionEnd) -> (result: Result<u64, SdkError>)
    ensures
        match end {
            QuestionEnd::Cancelled => result is Err && result->Err_0@ == ErrorView::ChannelClosed(
                "Host tool callback was cancelled"@,
            ),
            QuestionEnd::Finished => result is Err && result->Err_0@ == ErrorView::ChannelClosed(
                "Host tool callback finished"@,
            ),
            QuestionEnd::Failed(error) => result == Err::<u64, SdkError>(error),
            QuestionEnd::Answered { request_id, valid, response } => match valid {
                Err(reason) => result is Err && result->Err_0@ == ErrorView::Internal(reason@),
                Ok(()) => if request_id@ == identity@ {
                    result == Ok::<u64, SdkError>(response)
                } else {
                    result is Err && result->Err_0@ == ErrorView::Internal(
                        "Daemon returned a different nested Interaction identity"@,
                    )
                },
            },
        },
{
    match end {
        QuestionEnd::Cancelled => Err(
            SdkError::ChannelClosed("Host tool callback was cancelled".to_owned()),
        ),
        QuestionEnd::Finished => Err(
            SdkError::ChannelClosed("Host tool callback finished".to_owned()),
        ),
        QuestionEnd::Failed(error) => Err(error),
        QuestionEnd::Answered { request_id, valid, response } => match valid {
            Err(reason) => Err(SdkError::Internal(reason)),
            Ok(()) => if same_text(request_id.as_str(), identity) {
                Ok(response)
            } else {
                Err(
                    SdkError::Internal(
                        "Daemon returned a different nested Interaction identity".to_owned(),
                    ),
                )
            },
        },
    }
}

/// A request that names its session runs only a tool of that session: what other
/// sessions have bound makes no difference.
pub proof fn session_runs_only_its_own_tools(
    client: ClientView,
    other: ClientView,
    session: Seq<char>,
    execution: ToolExecution,
)
    requires
        execution.session() == Some(session),
        forall|name: Seq<char>| #[trigger]
            client.tools.get((session, name)) == other.tools.get((session, name)),
        forall|version: Seq<char>| #[trigger]
            client.tool_bindings.get((session, version)) == other.tool_bindings.get(
                (session, version),
            ),
    ensures
        meant_tool(client, execution) == meant_tool(other, execution),
{
    assert(client.tools.get((session, execution.name@)) == other.tools.get(
        (session, execution.name@),
    ));
    if execution.binding_id is Some {
        let version = execution.binding_id->0@;
        assert(client.tool_bindings.get((session, version)) == other.tool_bindings.get(
            (session, version),
        ));
    }
}

/// A request for an unknown version of a tool runs no tool, whatever tools of that name
/// the session or any other has.
pub proof fn unknown_version_never_falls_back(client: ClientView, execution: ToolExecution)
    requires
        execution.binding_id is Some,
        execution.session() matches Some(session) ==> !client.tool_bindings.contains_key(
            (session, execution.binding_id->0@),
        ),
    ensures
        meant_tool(client, execution) is None,
{
}

/// Without a session, a name that two sessions use runs no tool.
pub proof fn ambiguous_name_runs_nothing(
    client: ClientView,
    execution: ToolExecution,
    a: Seq<char>,
    b: Seq<char>,
)
    requires
        execution.session() is None,
        a != b,
        client.tools.contains_key((a, execution.name@)),
        client.tools.contains_key((b, execution.name@)),
    ensures
        meant_tool(client, execution) is None,
        meant_session(client, execution) is None,
{
}

/// An invocation of a session that is not open is refused, and runs no user code.
pub proof fn closed_session_runs_no_tool(
    client: ClientView,
    execution: ToolExecution,
    callback: u64,
)
    requires
        execution.session() is Some,
        client.sessions.contains_key(execution.session()->0),
        client.sessions[execution.session()->0].phase != crate::sessions::SessionPhase::Open,
    ensures
        tool_dispatch(client, execution, callback).1 is Reject,
{
}

/// A cancellation that follows a request finds its invocation, and once the invocation
/// is over, nothing of it is left.
pub proof fn invocation_is_found_until_it_is_over(
    client: ClientView,
    execution: ToolExecution,
    callback: u64,
)
    requires
        tool_dispatch(client, execution, callback).1 is RunTool,
        !client.tool_callback_sessions.contains_key(execution.call_id@),
    ensures
        ({
            let running = tool_dispatch(client, execution, callback).0;
            let after = invocation_over(running, false, execution.call_id@);
            &&& running.tool_callbacks.get(execution.call_id@) == Some(callback)
            &&& after.tool_callbacks == client.tool_callbacks
            &&& after.tool_callback_sessions == client.tool_callback_sessions
        }),
{
    let running = tool_dispatch(client, execution, callback).0;
    let after = invocation_over(running, false, execution.call_id@);
    assert(after.tool_callbacks =~= client.tool_callbacks);
    assert(after.tool_callback_sessions =~= client.tool_callback_sessions);
}

/// The same call cannot run twice at the same time.
pub proof fn call_runs_once_at_a_time(
    client: ClientView,
    execution: ToolExecution,
    first: u64,
    second: u64,
)
    requires
        tool_dispatch(client, execution, first).1 is RunTool,
    ensures
        tool_dispatch(tool_dispatch(client, execution, first).0, execution, second).1 is Reject,
{
}

/// A callback is to stop once it has been cancelled, and once its deadline is reached: never
/// before, and never where it has none.
pub proof fn signal_fires_at_its_deadline(signal: CancellationSignal, now_ms: u64)
    ensures
        signal.cancelled ==> signal.fired(now_ms),
        !signal.cancelled ==> match signal.deadline_unix_ms {
            Some(deadline) => signal.fired(now_ms) == (deadline <= now_ms),
            None => !signal.fired(now_ms),
        },
{
}

/// The deadline of a run stops the tools that the daemon has executed for it: the signal of
/// an invocation fires exactly from the deadline of the run in the request's context on, and
/// until then only where it is given.
pub proof fn tool_stops_at_the_deadline_of_its_run(
    client: ClientView,
    execution: ToolExecution,
    callback: u64,
    dispatch: Dispatch,
    now_ms: u64,
)
    requires
        dispatch.is(tool_dispatch(client, execution, callback).1),
        dispatch is RunTool,
    ensures
        dispatch matches Dispatch::RunTool { cancellation, .. } ==> {
            &&& !cancellation.cancelled
            &&& cancellation.fired(now_ms) <==> (execution.context matches Some(context)
                && context.run.deadline_unix_ms matches Some(deadline) && deadline <= now_ms)
            &&& execution.context matches Some(context) ==> cancellation.deadline_unix_ms
                == context.run.deadline_unix_ms
            &&& execution.context is None ==> cancellation.deadline_unix_ms is None
            &&& (CancellationSignal { cancelled: true, ..cancellation }).fired(now_ms)
        },
{
}

/// The deadline of a run stops the policies that build contexts for it in the same way.
pub proof fn policy_stops_at_the_deadline_of_its_run(
    client: ClientView,
    key: Seq<char>,
    build: ContextBuild,
    callback: u64,
    dispatch: Dispatch,
    now_ms: u64,
)
    requires
        dispatch.is(context_dispatch(client, key, build, callback).1),
        dispatch is BuildContext,
    ensures
        dispatch matches Dispatch::BuildContext { cancellation, .. } ==> {
            &&& !cancellation.cancelled
            &&& cancellation.deadline_unix_ms == build.context.deadline_unix_ms
            &&& cancellation.fired(now_ms) <==> (build.context.deadline_unix_ms matches Some(
                deadline,
            ) && deadline <= now_ms)
            &&& (CancellationSignal { cancelled: true, ..cancellation }).fired(now_ms)
        },
{
}

/// A request names its session itself or, failing that, by its context.
pub proof fn session_is_named_directly_or_by_context(execution: ToolExecution)
    ensures
        execution.thread_id matches Some(thread) ==> execution.session() == Some(thread@),
        execution.thread_id is None ==> match execution.context {
            Some(context) => execution.session() == Some(context.run.thread_id@),
            None => execution.session() is None,
        },
{
}

/// A request that names an open session, by itself or by a complete context of it, is run
/// where the same call is not running already: with the session's tool of that version, or
/// of that name where none is given. The invocation is on record, with its session, and
/// nothing else has changed.
pub proof fn open_session_runs_its_tool(
    client: ClientView,
    session: Seq<char>,
    execution: ToolExecution,
    callback: u64,
    other: Seq<char>,
)
    requires
        execution.thread_id matches Some(thread) ==> thread@ == session,
        execution.context matches Some(context) ==> context.run.thread_id@ == session
            && context.run.thread_id@.len() > 0 && context.run.turn_id@.len() > 0
            && context.call_id@.len() > 0,
        execution.thread_id is Some || execution.context is Some,
        !client.closed,
        client.sessions.contains_key(session) ==> client.sessions[session].phase
            == crate::sessions::SessionPhase::Open,
        !client.tool_callbacks.contains_key(execution.call_id@),
    ensures
        ({
            let (after, dispatch) = tool_dispatch(client, execution, callback);
            &&& dispatch matches DispatchView::RunTool { tool, .. } && tool
                == match execution.binding_id {
                Some(version) => client.tool_bindings.get((session, version@)),
                None => client.tools.get((session, execution.name@)),
            }
            &&& after.tool_callbacks == client.tool_callbacks.insert(execution.call_id@, callback)
            &&& after.tool_callback_sessions == client.tool_callback_sessions.insert(
                execution.call_id@,
                session,
            )
            &&& after.sessions.contains_key(session)
            &&& after.sessions[session].phase == crate::sessions::SessionPhase::Open
            &&& other != session ==> after.sessions.get(other) == client.sessions.get(other)
            &&& after == (ClientView {
                tool_callbacks: after.tool_callbacks,
                tool_callback_sessions: after.tool_callback_sessions,
                ..knowing(client, session)
            })
        }),
{
}

/// A request that names no session runs the tool of the one session that has a tool of that
/// name, and belongs to that session.
pub proof fn unique_name_finds_its_session(
    client: ClientView,
    session: Seq<char>,
    execution: ToolExecution,
    callback: u64,
)
    requires
        execution.thread_id is None,
        execution.context is None,
        execution.binding_id is None,
        client.tools.contains_key((session, execution.name@)),
        forall|other: Seq<char>| #[trigger]
            client.tools.contains_key((other, execution.name@)) ==> other == session,
        !client.closed,
        client.sessions.contains_key(session) ==> client.sessions[session].phase
            == crate::sessions::SessionPhase::Open,
        !client.tool_callbacks.contains_key(execution.call_id@),
    ensures
        ({
            let (after, dispatch) = tool_dispatch(client, execution, callback);
            &&& dispatch == (DispatchView::RunTool {
                tool: Some(client.tools[(session, execution.name@)]),
                deadline: None,
            })
            &&& after.tool_callbacks == client.tool_callbacks.insert(execution.call_id@, callback)
            &&& after.tool_callback_sessions == client.tool_callback_sessions.insert(
                execution.call_id@,
                session,
            )
            &&& after == (ClientView {
                tool_callbacks: after.tool_callbacks,
                tool_callback_sessions: after.tool_callback_sessions,
                ..knowing(client, session)
            })
        }),
{
    assert(is_sole_owner(client.tools, session, execution.name@));
    assert(sole_owner(client.tools, execution.name@) == Some(session));
}

/// A request that means no session, since it names none, and no session or more than one
/// has such a tool, is run without a tool, so that the daemon learns that none is bound. Its
/// invocation belongs to no session. A call that is running already is refused.
pub proof fn homeless_request_runs_without_a_tool(
    client: ClientView,
    execution: ToolExecution,
    callback: u64,
    a: Seq<char>,
    b: Seq<char>,
)
    requires
        execution.thread_id is None,
        execution.context is None,
        execution.binding_id is None ==> {
            ||| forall|other: Seq<char>|
                !#[trigger] client.tools.contains_key((other, execution.name@))
            ||| a != b && client.tools.contains_key((a, execution.name@))
                && client.tools.contains_key((b, execution.name@))
        },
    ensures
        ({
            let (after, dispatch) = tool_dispatch(client, execution, callback);
            let running = client.tool_callbacks.contains_key(execution.call_id@);
            &&& running ==> after == client && dispatch == DispatchView::Reject(
                RejectionView::InvalidParams("Duplicate host invocation"@),
            )
            &&& !running ==> {
                &&& dispatch == (DispatchView::RunTool { tool: None, deadline: None })
                &&& after.tool_callbacks == client.tool_callbacks.insert(
                    execution.call_id@,
                    callback,
                )
                &&& after == (ClientView {
                    tool_callbacks: after.tool_callbacks,
                    tool_callback_sessions: client.tool_callback_sessions.remove(
                        execution.call_id@,
                    ),
                    ..client
                })
            }
        }),
{
}

/// A context that is incomplete, or of another session than the request names, is refused,
/// and nothing changes.
pub proof fn false_identity_is_refused(
    client: ClientView,
    execution: ToolExecution,
    callback: u64,
)
    requires
        execution.context matches Some(context) && (context.run.thread_id@.len() == 0
            || context.run.turn_id@.len() == 0 || context.call_id@.len() == 0 || (
        execution.thread_id matches Some(thread) && thread@ != context.run.thread_id@)),
    ensures
        tool_dispatch(client, execution, callback).0 == client,
        tool_dispatch(client, execution, callback).1 matches DispatchView::Reject(rejection)
            && rejection is InvalidParams,
{
}

/// An invocation of a session on a closed connection or of a session that is not open is
/// refused for that reason, and a call that is running already for that one. Nothing is put
/// on record, and what is running stays there.
pub proof fn refused_invocation_leaves_no_record(
    client: ClientView,
    session: Seq<char>,
    execution: ToolExecution,
    callback: u64,
)
    requires
        execution.thread_id matches Some(thread) ==> thread@ == session,
        execution.context matches Some(context) ==> context.run.thread_id@ == session
            && context.run.thread_id@.len() > 0 && context.run.turn_id@.len() > 0
            && context.call_id@.len() > 0,
        execution.thread_id is Some || execution.context is Some,
        client.closed || client.tool_callbacks.contains_key(execution.call_id@) || (
        client.sessions.contains_key(session) && client.sessions[session].phase
            != crate::sessions::SessionPhase::Open),
    ensures
        ({
            let (after, dispatch) = tool_dispatch(client, execution, callback);
            let open = !client.sessions.contains_key(session) || client.sessions[session].phase
                == crate::sessions::SessionPhase::Open;
            &&& after == knowing(client, session)
            &&& after.tool_callbacks == client.tool_callbacks
            &&& after.tool_callback_sessions == client.tool_callback_sessions
            &&& dispatch matches DispatchView::Reject(RejectionView::InvalidParams(reason))
                && reason == if client.closed {
                error_text(ErrorView::ChannelClosed("Client is closed"@))
            } else if !open {
                error_text(ErrorView::SessionClosed(session))
            } else {
                "Duplicate host invocation"@
            }
        }),
{
}

/// A context is built by the policy of its open session, under the key of the request. The
/// invocation is on record, with its session, and nothing else has changed.
pub proof fn open_session_builds_its_context(
    client: ClientView,
    key: Seq<char>,
    build: ContextBuild,
    callback: u64,
    other: Seq<char>,
)
    requires
        client.context_policies.contains_key(build.context.thread_id@),
        !client.closed,
        client.sessions.contains_key(build.context.thread_id@)
            ==> client.sessions[build.context.thread_id@].phase
            == crate::sessions::SessionPhase::Open,
        !client.context_callbacks.contains_key(key),
    ensures
        ({
            let session = build.context.thread_id@;
            let (after, dispatch) = context_dispatch(client, key, build, callback);
            &&& dispatch matches DispatchView::BuildContext { policy, .. } && policy
                == client.context_policies[session]
            &&& after.context_callbacks == client.context_callbacks.insert(key, callback)
            &&& after.context_callback_sessions == client.context_callback_sessions.insert(
                key,
                session,
            )
            &&& after.sessions.contains_key(session)
            &&& other != session ==> after.sessions.get(other) == client.sessions.get(other)
            &&& after == (ClientView {
                context_callbacks: after.context_callbacks,
                context_callback_sessions: after.context_callback_sessions,
                ..knowing(client, session)
            })
        }),
{
}

/// Without a policy, on a closed connection, for a session that is not open and under a key
/// that is in use, no context is built and nothing is put on record.
pub proof fn refused_context_leaves_no_record(
    client: ClientView,
    key: Seq<char>,
    build: ContextBuild,
    callback: u64,
)
    requires
        !client.context_policies.contains_key(build.context.thread_id@) || client.closed
            || client.context_callbacks.contains_key(key) || (client.sessions.contains_key(
            build.context.thread_id@,
        ) && client.sessions[build.context.thread_id@].phase
            != crate::sessions::SessionPhase::Open),
    ensures
        ({
            let (after, dispatch) = context_dispatch(client, key, build, callback);
            let session = build.context.thread_id@;
            let open = !client.sessions.contains_key(session) || client.sessions[session].phase
                == crate::sessions::SessionPhase::Open;
            &&& after.context_callbacks == client.context_callbacks
            &&& after.context_callback_sessions == client.context_callback_sessions
            &&& dispatch matches DispatchView::Reject(rejection) && rejection is InvalidParams
            &&& client.context_policies.contains_key(session) ==> {
                &&& after == knowing(client, session)
                &&& dispatch == DispatchView::Reject(
                    RejectionView::InvalidParams(
                        if client.closed {
                            error_text(ErrorView::ChannelClosed("Client is closed"@))
                        } else if !open {
                            error_text(ErrorView::SessionClosed(session))
                        } else {
                            "Duplicate host invocation"@
                        },
                    ),
                )
            }
            &&& !client.context_policies.contains_key(build.context.thread_id@) ==> after
                == client && dispatch == DispatchView::Reject(
                RejectionView::InvalidParams("No host context policy bound to this session"@),
            )
        }),
{
}

/// The two methods of the daemon lead to tools and to policies, with their parameters; what
/// cannot be read and what has another name changes nothing.
pub proof fn methods_are_told_apart(
    client: ClientView,
    key: Seq<char>,
    method: Seq<char>,
    params: HostParams,
    callback: u64,
)
    ensures
        ({
            let (after, dispatch) = request_dispatch(client, key, method, params, callback);
            &&& method == "tool.execute_host"@ ==> match params {
                HostParams::Tool(execution) => (after, dispatch) == tool_dispatch(
                    client,
                    execution,
                    callback,
                ),
                _ => after == client && (dispatch matches DispatchView::Reject(rejection)
                    && rejection is InvalidParams),
            }
            &&& method == "context.build_host"@ ==> match params {
                HostParams::Context(build) => (after, dispatch) == context_dispatch(
                    client,
                    key,
                    build,
                    callback,
                ),
                _ => after == client && (dispatch matches DispatchView::Reject(rejection)
                    && rejection is InvalidParams),
            }
            &&& method != "tool.execute_host"@ && method != "context.build_host"@ ==> after
                == client && dispatch == DispatchView::Reject(
                RejectionView::MethodNotFound(method),
            )
        }),
{
    reveal_strlit("tool.execute_host");
    reveal_strlit("context.build_host");
    assert("tool.execute_host"@.len() != "context.build_host"@.len());
}

/// What the host does is what was decided: a rejection for a rejection, a tool for a tool,
/// a policy for a policy.
pub proof fn dispatch_is_what_was_decided(dispatch: Dispatch, view: DispatchView)
    requires
        dispatch.is(view),
    ensures
        match view {
            DispatchView::Reject(expected) => dispatch matches Dispatch::Reject(rejection)
                && rejection@ == expected,
            DispatchView::RunTool { tool: expected, deadline } => dispatch
                matches Dispatch::RunTool { tool, cancellation } && tool == expected
                && cancellation.deadline_unix_ms == deadline && !cancellation.cancelled,
            DispatchView::BuildContext { policy: expected, deadline } => dispatch
                matches Dispatch::BuildContext { policy, cancellation } && policy == expected
                && cancellation.deadline_unix_ms == deadline && !cancellation.cancelled,
        },
{
}

/// An invocation that is over leaves every other one as it is, of its own kind and of the
/// other.
pub proof fn ended_invocation_leaves_others_alone(
    client: ClientView,
    context: bool,
    key: Seq<char>,
    other: Seq<char>,
)
    ensures
        ({
            let after = invocation_over(client, context, key);
            &&& context ==> {
                &&& !after.context_callbacks.contains_key(key)
                &&& !after.context_callback_sessions.contains_key(key)
                &&& other != key ==> after.context_callbacks.get(other)
                    == client.context_callbacks.get(other)
                &&& other != key ==> after.context_callback_sessions.get(other)
                    == client.context_callback_sessions.get(other)
                &&& after == (ClientView {
                    context_callbacks: after.context_callbacks,
                    context_callback_sessions: after.context_callback_sessions,
                    ..client
                })
            }
            &&& !context ==> {
                &&& !after.tool_callbacks.contains_key(key)
                &&& !after.tool_callback_sessions.contains_key(key)
                &&& other != key ==> after.tool_callbacks.get(other) == client.tool_callbacks.get(
                    other,
                )
                &&& other != key ==> after.tool_callback_sessions.get(other)
                    == client.tool_callback_sessions.get(other)
                &&& after == (ClientView {
                    tool_callbacks: after.tool_callbacks,
                    tool_callback_sessions: after.tool_callback_sessions,
                    ..client
                })
            }
        }),
{
}

/// An invocation counts until it is over, has been cancelled, or its deadline is reached.
pub proof fn invocation_counts_until_it_ends(callback: ScopedCallback, now_ms: u64)
    ensures
        is_active(callback, now_ms) <==> !callback.finished && !callback.cancellation.cancelled
            && (callback.cancellation.deadline_unix_ms matches Some(deadline) ==> now_ms
            < deadline),
{
}

/// User code may ask the application exactly where the daemon identified an invocation that
/// still counts, the handshake was accepted, the daemon has interactions, and the session of
/// the run uses them.
pub proof fn questions_need_a_live_invocation(
    context: ToolContext,
    callback: ScopedCallback,
    now_ms: u64,
    client: ClientView,
)
    ensures
        ({
            let counts = !callback.finished && !callback.cancellation.cancelled && (
            callback.cancellation.deadline_unix_ms matches Some(deadline) ==> now_ms < deadline);
            let accepted = client.initialization matches
                crate::initialization::Initialization::Settled(settled) && settled is Ok;
            let offered = client.initialization.offering("interactions.v1"@);
            let enabled = context.info matches Some(info)
                && client.interaction_sessions.contains_key(info.run.thread_id@);
            let own = callback_refusal(context, callback, now_ms);
            let refusal = interaction_refusal(context, callback, now_ms, client);
            &&& own is None <==> context.info is Some && counts
            &&& context.info is None ==> own->0 is ProtocolCompatibility
            &&& context.info is Some && !counts ==> own->0 is ChannelClosed
            &&& refusal is None <==> context.info is Some && counts && accepted && offered
                && enabled
            &&& own is Some ==> refusal == own
            &&& own is None && !(accepted && offered) ==> refusal->0 is ProtocolCompatibility
            &&& own is None && accepted && offered && !enabled ==> refusal->0
                is InvalidConfiguration
        }),
{
}

/// A request that means the one session with a tool of that name is refused where that
/// session takes no work, or where the call is running already, and leaves no record.
pub proof fn unique_name_needs_an_open_session(
    client: ClientView,
    session: Seq<char>,
    execution: ToolExecution,
    callback: u64,
)
    requires
        execution.thread_id is None,
        execution.context is None,
        execution.binding_id is None,
        client.tools.contains_key((session, execution.name@)),
        forall|other: Seq<char>| #[trigger]
            client.tools.contains_key((other, execution.name@)) ==> other == session,
        client.closed || client.tool_callbacks.contains_key(execution.call_id@) || (
        client.sessions.contains_key(session) && client.sessions[session].phase
            != crate::sessions::SessionPhase::Open),
    ensures
        tool_dispatch(client, execution, callback).0 == knowing(client, session),
        tool_dispatch(client, execution, callback).1 matches DispatchView::Reject(rejection)
            && rejection is InvalidParams,
{
    assert(is_sole_owner(client.tools, session, execution.name@));
    assert(sole_owner(client.tools, execution.name@) == Some(session));
}

} // verus!
