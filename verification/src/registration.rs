//! Registering tools of a session with the daemon.
//!
//! A registration binds the tool here before the daemon hears of it, under a fresh
//! version, and takes the binding back when the daemon explicitly refuses. Calls name
//! the version that they mean, so earlier versions stay bound for calls under way.

use vstd::prelude::*;

use crate::agent::{ToolDescription, ToolRegistration};
use crate::client::{disconnected, ClientState, ClientView, Disconnected};
use crate::contexts::{meant_tool, ToolExecution};
use crate::errors::{outcome, session_is_closed, ErrorView, SdkError};
use crate::identity::{fresh_identifier, is_identifier};
use crate::requests::remote_error;
use crate::sessions::{gone, knowing, name_verdict, open_verdict, record, with_hub};
use crate::tables::{get_binding, insert_binding, remove_binding};

verus! {

/// A registration that waits for its turn.
#[derive(Debug)]
pub struct Registration {
    /// What the daemon is told, with the version under which the tool will be bound.
    pub definition: ToolRegistration,
    /// The lock that registrations of the same name take in turn.
    pub lock: u64,
}

/// The client when registrations of a name have a lock: `lock`, unless they have one.
pub open spec fn with_lock(client: ClientView, session: Seq<char>, name: Seq<char>, lock: u64) -> ClientView {
    if client.registration_locks.contains_key((session, name)) {
        client
    } else {
        ClientView {
            registration_locks: client.registration_locks.insert((session, name), lock),
            ..client
        }
    }
}

/// The client when a tool is bound.
pub open spec fn tool_bound(
    client: ClientView,
    session: Seq<char>,
    name: Seq<char>,
    binding: Seq<char>,
    tool: u64,
) -> ClientView {
    ClientView {
        tools: client.tools.insert((session, name), tool),
        tool_bindings: client.tool_bindings.insert((session, binding), tool),
        ..client
    }
}

/// The client when a refused registration is taken back. Once the session has been
/// closed only the version goes; the rest went with the session.
pub open spec fn tool_restored(
    client: ClientView,
    session: Seq<char>,
    name: Seq<char>,
    binding: Seq<char>,
    old: Option<u64>,
) -> ClientView {
    let unbound = ClientView {
        tool_bindings: client.tool_bindings.remove((session, binding)),
        ..knowing(client, session)
    };
    if gone(unbound, session) {
        unbound
    } else {
        ClientView {
            tools: match old {
                Some(tool) => client.tools.insert((session, name), tool),
                None => client.tools.remove((session, name)),
            },
            ..unbound
        }
    }
}

/// The client when nobody knows whether the daemon has a tool.
pub open spec fn tool_unbound(
    client: ClientView,
    session: Seq<char>,
    name: Seq<char>,
    binding: Seq<char>,
) -> ClientView {
    ClientView {
        tools: client.tools.remove((session, name)),
        tool_bindings: client.tool_bindings.remove((session, binding)),
        ..client
    }
}

/// Whether a tool can be registered under a name, and the client then. The session has a
/// hub from then on.
pub open spec fn registration_verdict(
    client: ClientView,
    session: Seq<char>,
    name: Seq<char>,
    hub: u64,
) -> (ClientView, Result<(), ErrorView>) {
    let known = knowing(client, session);
    match open_verdict(client.closed, record(client, session).phase, session) {
        Err(error) => (known, Err(error)),
        Ok(()) => {
            let ready = with_hub(known, session, hub);
            (ready, name_verdict(ready, session, name))
        },
    }
}

/// How a registration ended, as far as the daemon's answer tells.
pub enum RegistrationEnd {
    Registered,
    /// The session was closed meanwhile.
    Closed,
    /// The daemon refused.
    Refused,
    /// Nobody knows.
    Unknown,
}

/// The daemon answered a request, and answered with an error.
pub open spec fn is_rejection(error: ErrorView) -> bool {
    error is Rpc || error is LimitExceeded || error is RunExpired
}

/// How a registration ended.
pub open spec fn registration_end(
    client: ClientView,
    session: Seq<char>,
    reply: Result<(), ErrorView>,
) -> RegistrationEnd {
    match reply {
        Ok(()) => if gone(client, session) {
            RegistrationEnd::Closed
        } else {
            RegistrationEnd::Registered
        },
        Err(ErrorView::SessionClosed(_)) => RegistrationEnd::Closed,
        Err(error) => if is_rejection(error) && !client.closed {
            RegistrationEnd::Refused
        } else {
            RegistrationEnd::Unknown
        },
    }
}

impl ClientState {
    /// Prepares the registration of a tool. `hub` and `lock` are the host's, for a
    /// session that has no hub and a name that has no lock yet.
    pub fn begin_registration(
        &mut self,
        session: &str,
        tool: &ToolDescription,
        hub: u64,
        lock: u64,
    ) -> (result: Result<Registration, SdkError>)
        ensures
            ({
                let (ready, verdict) = registration_verdict(
                    old(self)@,
                    session@,
                    tool.name@,
                    hub,
                );
                match result {
                    Ok(registration) => {
                        let definition = registration.definition;
                        &&& verdict is Ok
                        &&& is_identifier(definition.binding_id@)
                        &&& definition.registers(*tool, definition.binding_id@)
                        &&& final(self)@ == with_lock(ready, session@, tool.name@, lock)
                        &&& final(self)@.registration_locks.contains_pair(
                            (session@, tool.name@),
                            registration.lock,
                        )
                    },
                    Err(error) => {
                        &&& verdict == Err::<(), ErrorView>(error@)
                        &&& final(self)@ == ready
                    },
                }
            }),
    {
        let name = tool.name.as_str();
        if let Err(error) = self.ensure_session_open(session, hub) {
            return Err(error);
        }
        if let Err(error) = self.ensure_dynamic_tool_name_available(session, name) {
            return Err(error);
        }
        let definition = tool.registration(fresh_identifier());
        let lock = match get_binding(&self.registration_locks, session, name) {
            Some(lock) => lock,
            None => {
                insert_binding(&mut self.registration_locks, session, name, lock);
                lock
            },
        };
        Ok(Registration { definition, lock })
    }

    /// Binds a tool, once its registration has the lock. The result is the tool that
    /// the name was bound to.
    pub fn bind_tool(
        &mut self,
        session: &str,
        name: &str,
        binding: &str,
        tool: u64,
        hub: u64,
    ) -> (result: Result<Option<u64>, SdkError>)
        ensures
            match result {
                Ok(old_tool) => {
                    let ready = with_hub(knowing(old(self)@, session@), session@, hub);
                    &&& open_verdict(
                        old(self)@.closed,
                        record(old(self)@, session@).phase,
                        session@,
                    ) is Ok
                    &&& old_tool == old(self)@.tools.get((session@, name@))
                    &&& final(self)@ == tool_bound(ready, session@, name@, binding@, tool)
                },
                Err(error) => {
                    &&& open_verdict(
                        old(self)@.closed,
                        record(old(self)@, session@).phase,
                        session@,
                    ) == Err::<(), ErrorView>(error@)
                    &&& final(self)@ == knowing(old(self)@, session@)
                },
            },
    {
        if let Err(error) = self.ensure_session_open(session, hub) {
            return Err(error);
        }
        insert_binding(&mut self.tool_bindings, session, binding, tool);
        Ok(insert_binding(&mut self.tools, session, name, tool))
    }

    /// Takes the daemon's answer to a registration. An explicit refusal restores what
    /// was bound before; where nobody knows what the daemon did, the connection is
    /// given up, so that no later call meets inconsistent bindings. The result names
    /// what the host has to end then.
    pub fn settle_registration(
        &mut self,
        session: &str,
        name: &str,
        binding: &str,
        old_tool: Option<u64>,
        reply: Result<(), SdkError>,
    ) -> (result: (Result<(), SdkError>, Option<Disconnected>))
        ensures
            match registration_end(old(self)@, session@, outcome(reply)) {
                RegistrationEnd::Registered => {
                    &&& outcome(result.0) == Ok::<(), ErrorView>(())
                    &&& result.1 is None
                    &&& final(self)@ == old(self)@
                },
                RegistrationEnd::Closed => {
                    &&& outcome(result.0) == match outcome(reply) {
                        Ok(()) => Err(ErrorView::SessionClosed(session@)),
                        Err(error) => Err::<(), ErrorView>(error),
                    }
                    &&& result.1 is None
                    &&& final(self)@ == old(self)@
                },
                RegistrationEnd::Refused => {
                    &&& outcome(result.0) == outcome(reply)
                    &&& result.1 is None
                    &&& final(self)@ == tool_restored(
                        old(self)@,
                        session@,
                        name@,
                        binding@,
                        old_tool,
                    )
                },
                RegistrationEnd::Unknown => {
                    let unbound = tool_unbound(old(self)@, session@, name@, binding@);
                    &&& outcome(result.0) == outcome(reply)
                    &&& match result.1 {
                        None => old(self)@.closed && final(self)@ == unbound,
                        Some(ended) => {
                            &&& !old(self)@.closed
                            &&& ended.message@ == "Tool registration outcome is unknown"@
                            &&& ended.covers(unbound)
                            &&& final(self)@ == disconnected(unbound)
                        },
                    }
                },
            },
    {
        match reply {
            Ok(()) => {
                if self.session_closed(session) {
                    (Err(session_is_closed(session)), None)
                } else {
                    (Ok(()), None)
                }
            },
            Err(SdkError::SessionClosed(which)) => (Err(SdkError::SessionClosed(which)), None),
            Err(error) => {
                let refused = match &error {
                    SdkError::Rpc { .. } => !self.closed,
                    SdkError::LimitExceeded(_) => !self.closed,
                    SdkError::RunExpired(_) => !self.closed,
                    _ => false,
                };
                if refused {
                    remove_binding(&mut self.tool_bindings, session, binding);
                    if self.session_exists(session) {
                        match old_tool {
                            Some(tool) => {
                                insert_binding(&mut self.tools, session, name, tool);
                            },
                            None => {
                                remove_binding(&mut self.tools, session, name);
                            },
                        }
                    }
                    (Err(error), None)
                } else {
                    remove_binding(&mut self.tool_bindings, session, binding);
                    remove_binding(&mut self.tools, session, name);
                    let ended = self.disconnect("Tool registration outcome is unknown");
                    (Err(error), ended)
                }
            },
        }
    }
}

/// Whatever error the daemon answers a registration with, it has refused it, as long as
/// the connection is there.
pub proof fn every_error_answer_is_a_refusal(
    client: ClientView,
    session: Seq<char>,
    code: i64,
    message: Seq<char>,
)
    requires
        !client.closed,
    ensures
        registration_end(client, session, Err(remote_error(code, message)))
            == RegistrationEnd::Refused,
{
}

/// A registration that the daemon refuses leaves every binding as it was, and the
/// connection too.
pub proof fn refused_registration_restores_the_bindings(
    client: ClientView,
    session: Seq<char>,
    name: Seq<char>,
    binding: Seq<char>,
    tool: u64,
)
    requires
        client.sessions.contains_key(session),
        !gone(client, session),
        !client.tool_bindings.contains_key((session, binding)),
    ensures
        ({
            let after = tool_restored(
                tool_bound(client, session, name, binding, tool),
                session,
                name,
                binding,
                client.tools.get((session, name)),
            );
            &&& after.tools == client.tools
            &&& after.tool_bindings == client.tool_bindings
            &&& after.closed == client.closed
        }),
{
    let bound = tool_bound(client, session, name, binding, tool);
    let after = tool_restored(
        bound,
        session,
        name,
        binding,
        client.tools.get((session, name)),
    );
    assert(!gone(
        ClientView {
            tool_bindings: bound.tool_bindings.remove((session, binding)),
            ..knowing(bound, session)
        },
        session,
    ));
    assert(after.tools =~= client.tools);
    assert(after.tool_bindings =~= client.tool_bindings);
}

/// A tool that is bound anew is found by its name and by its version, and every earlier
/// version is found as before.
pub proof fn earlier_versions_stay_bound(
    client: ClientView,
    session: Seq<char>,
    name: Seq<char>,
    binding: Seq<char>,
    tool: u64,
    earlier: (Seq<char>, Seq<char>),
)
    requires
        earlier != (session, binding),
    ensures
        ({
            let after = tool_bound(client, session, name, binding, tool);
            &&& after.tools.get((session, name)) == Some(tool)
            &&& after.tool_bindings.get((session, binding)) == Some(tool)
            &&& after.tool_bindings.get(earlier) == client.tool_bindings.get(earlier)
        }),
{
}

/// A tool that is bound is the one that the daemon means, by its version and by its name.
pub proof fn bound_tool_is_meant(
    client: ClientView,
    session: Seq<char>,
    name: Seq<char>,
    binding: Seq<char>,
    tool: u64,
    execution: ToolExecution,
)
    requires
        execution.session() == Some(session),
        execution.name@ == name,
        execution.binding_id matches Some(version) ==> version@ == binding,
    ensures
        meant_tool(tool_bound(client, session, name, binding, tool), execution) == Some(tool),
{
}

/// A registration that ends after its session was closed binds nothing: a refused one
/// adds no tool to what the session has.
pub proof fn closed_session_gets_no_tool_back(
    client: ClientView,
    session: Seq<char>,
    name: Seq<char>,
    binding: Seq<char>,
    old: Option<u64>,
)
    requires
        gone(client, session),
    ensures
        tool_restored(client, session, name, binding, old).tools == client.tools,
{
}

/// Registrations of a name share one lock: the first one's. Other names keep theirs.
pub proof fn names_share_one_lock(
    client: ClientView,
    session: Seq<char>,
    name: Seq<char>,
    lock: u64,
    other: (Seq<char>, Seq<char>),
)
    ensures
        ({
            let after = with_lock(client, session, name, lock);
            &&& client.registration_locks.contains_key((session, name))
                ==> after.registration_locks.get((session, name)) == client.registration_locks.get(
                (session, name),
            )
            &&& !client.registration_locks.contains_key((session, name))
                ==> after.registration_locks.get((session, name)) == Some(lock)
            &&& other != (session, name) ==> after.registration_locks.get(other)
                == client.registration_locks.get(other)
            &&& after == (ClientView { registration_locks: after.registration_locks, ..client })
        }),
{
}

/// To bind a tool changes only its name and its version in its session.
pub proof fn binding_touches_only_its_name(
    client: ClientView,
    session: Seq<char>,
    name: Seq<char>,
    binding: Seq<char>,
    tool: u64,
    other: (Seq<char>, Seq<char>),
)
    ensures
        ({
            let after = tool_bound(client, session, name, binding, tool);
            &&& other != (session, name) ==> after.tools.get(other) == client.tools.get(other)
            &&& other != (session, binding) ==> after.tool_bindings.get(other)
                == client.tool_bindings.get(other)
            &&& after == (ClientView {
                tools: after.tools,
                tool_bindings: after.tool_bindings,
                ..client
            })
        }),
{
}

/// A refused registration gives the name back to the tool that it had, or to none, and takes
/// the version away; a session that is gone gets nothing back. Other names, other versions
/// and other sessions stay.
pub proof fn refusal_restores_the_name(
    client: ClientView,
    session: Seq<char>,
    name: Seq<char>,
    binding: Seq<char>,
    old_tool: Option<u64>,
    other: (Seq<char>, Seq<char>),
)
    ensures
        ({
            let after = tool_restored(client, session, name, binding, old_tool);
            let there = client.sessions.contains_key(session) ==> !(client.sessions[session].phase
                is Releasing || client.sessions[session].phase
                == crate::sessions::SessionPhase::Closed);
            &&& there ==> after.tools.get((session, name)) == old_tool
            &&& !there ==> after.tools == client.tools
            &&& !after.tool_bindings.contains_key((session, binding))
            &&& other != (session, name) ==> after.tools.get(other) == client.tools.get(other)
            &&& other != (session, binding) ==> after.tool_bindings.get(other)
                == client.tool_bindings.get(other)
            &&& after == (ClientView {
                tools: after.tools,
                tool_bindings: after.tool_bindings,
                sessions: after.sessions,
                next_object: after.next_object,
                ..client
            })
        }),
{
}

/// Where nobody knows whether the daemon has a tool, neither its name nor its version is
/// bound any more. Others stay.
pub proof fn unknown_registration_binds_nothing(
    client: ClientView,
    session: Seq<char>,
    name: Seq<char>,
    binding: Seq<char>,
    other: (Seq<char>, Seq<char>),
)
    ensures
        ({
            let after = tool_unbound(client, session, name, binding);
            &&& !after.tools.contains_key((session, name))
            &&& !after.tool_bindings.contains_key((session, binding))
            &&& other != (session, name) ==> after.tools.get(other) == client.tools.get(other)
            &&& other != (session, binding) ==> after.tool_bindings.get(other)
                == client.tool_bindings.get(other)
            &&& after == (ClientView {
                tools: after.tools,
                tool_bindings: after.tool_bindings,
                ..client
            })
        }),
{
}

/// A tool can be registered exactly where the session takes work and none of its packs owns
/// the name. The session is known from then on, and has an event hub where it takes work.
pub proof fn registration_needs_an_open_session(
    client: ClientView,
    session: Seq<char>,
    name: Seq<char>,
    hub: u64,
)
    ensures
        ({
            let (after, verdict) = registration_verdict(client, session, name, hub);
            let open = !client.closed && (client.sessions.contains_key(session)
                ==> client.sessions[session].phase == crate::sessions::SessionPhase::Open);
            let id = if client.sessions.contains_key(session) {
                client.sessions[session].id
            } else {
                client.next_object
            };
            let owned = client.pack_names.contains_key((session, name)) && client.pack_names[(
                session,
                name,
            )] == id;
            &&& verdict is Ok <==> open && !owned
            &&& client.closed ==> verdict == Err::<(), ErrorView>(
                ErrorView::ChannelClosed("Client is closed"@),
            )
            &&& !client.closed && !open ==> verdict == Err::<(), ErrorView>(
                ErrorView::SessionClosed(session),
            )
            &&& open && owned ==> verdict->Err_0 is InvalidConfiguration
            &&& after.sessions.contains_key(session)
            &&& open ==> after.session_event_hubs.get(session) == Some(
                if client.session_event_hubs.contains_key(session) {
                    client.session_event_hubs[session]
                } else {
                    hub
                },
            )
            &&& !open ==> after.session_event_hubs == client.session_event_hubs
            &&& after == (ClientView {
                sessions: after.sessions,
                next_object: after.next_object,
                session_event_hubs: after.session_event_hubs,
                ..client
            })
        }),
{
}

/// A registration has ended well where the daemon took it and the session is still there. It
/// was refused where the daemon answered with an error on a connection that is still there,
/// and it came too late where the session was closed. In every other case nobody knows.
pub proof fn registrations_end_as_the_daemon_says(
    client: ClientView,
    session: Seq<char>,
    reply: Result<(), ErrorView>,
)
    ensures
        ({
            let end = registration_end(client, session, reply);
            let left = client.sessions.contains_key(session) && (client.sessions[session].phase
                is Releasing || client.sessions[session].phase
                == crate::sessions::SessionPhase::Closed);
            let answered = reply matches Err(error) && (error is Rpc || error is LimitExceeded
                || error is RunExpired);
            &&& end is Registered <==> reply is Ok && !left
            &&& end is Closed <==> (reply is Ok && left) || (reply matches Err(error) && error
                is SessionClosed)
            &&& end is Refused <==> answered && !client.closed
            &&& end is Unknown <==> (reply matches Err(error) && !(error is SessionClosed) && !(
            answered && !client.closed))
        }),
{
}

} // verus!
