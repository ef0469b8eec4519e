//! What a connected client keeps: the routes of everything that is under way.

use dashmap::DashMap;
use vstd::prelude::*;

use crate::errors::{ErrorView, SdkError};
use crate::initialization::Initialization;
use crate::receiver::{HubTermination, TerminationView};
use crate::sessions::{SessionLifecycle, SessionPhase};
use crate::tables::{
    bindings, clear_bindings, clear_handles, clear_links, enumerates, handle_views, handles,
    insert_lifecycle, lifecycle_views, lifecycles, links, list_handles, list_lifecycles,
    new_bindings, new_handles, new_lifecycles, new_links, no_bindings, no_handles, no_lifecycles,
    no_links,
};
use crate::text::decimal;

verus! {

/// The state of a client. The host keeps the objects that the tables' numbers stand
/// for, and calls one method at a time.
pub struct ClientState {
    pub initialization: Initialization,
    pub closed: bool,
    pub next_id: i64,
    /// The identity of the next session record or close attempt.
    pub next_object: u64,
    /// Who waits for the answer to a request.
    pub pending: DashMap<String, u64>,
    /// Which session a request belongs to.
    pub pending_sessions: DashMap<String, String>,
    pub approval_sessions: DashMap<String, String>,
    pub approval_turns: DashMap<String, String>,
    pub sessions: DashMap<String, SessionLifecycle>,
    /// The tool names that the packs of a session own, with the session's record.
    pub pack_names: DashMap<(String, String), u64>,
    pub session_event_hubs: DashMap<String, u64>,
    pub session_event_hubs_v2: DashMap<String, u64>,
    pub interaction_event_hubs: DashMap<String, u64>,
    pub interaction_sessions: DashMap<String, u64>,
    /// The runs that live events go to.
    pub runs: DashMap<String, u64>,
    pub run_sessions: DashMap<String, String>,
    /// The runs that someone may still hold.
    pub run_handles: DashMap<String, u64>,
    pub run_handle_sessions: DashMap<String, String>,
    /// Tools by session and name.
    pub tools: DashMap<(String, String), u64>,
    /// Tools by session and version.
    pub tool_bindings: DashMap<(String, String), u64>,
    pub registration_locks: DashMap<(String, String), u64>,
    pub context_policies: DashMap<String, u64>,
    pub tool_callbacks: DashMap<String, u64>,
    pub tool_callback_sessions: DashMap<String, String>,
    pub context_callbacks: DashMap<String, u64>,
    pub context_callback_sessions: DashMap<String, String>,
}

/// A [`ClientState`] by what its tables hold.
#[verifier::ext_equal]
pub struct ClientView {
    pub initialization: Initialization,
    pub closed: bool,
    pub next_id: i64,
    pub next_object: u64,
    pub pending: Map<Seq<char>, u64>,
    pub pending_sessions: Map<Seq<char>, Seq<char>>,
    pub approval_sessions: Map<Seq<char>, Seq<char>>,
    pub approval_turns: Map<Seq<char>, Seq<char>>,
    pub sessions: Map<Seq<char>, SessionLifecycle>,
    pub pack_names: Map<(Seq<char>, Seq<char>), u64>,
    pub session_event_hubs: Map<Seq<char>, u64>,
    pub session_event_hubs_v2: Map<Seq<char>, u64>,
    pub interaction_event_hubs: Map<Seq<char>, u64>,
    pub interaction_sessions: Map<Seq<char>, u64>,
    pub runs: Map<Seq<char>, u64>,
    pub run_sessions: Map<Seq<char>, Seq<char>>,
    pub run_handles: Map<Seq<char>, u64>,
    pub run_handle_sessions: Map<Seq<char>, Seq<char>>,
    pub tools: Map<(Seq<char>, Seq<char>), u64>,
    pub tool_bindings: Map<(Seq<char>, Seq<char>), u64>,
    pub registration_locks: Map<(Seq<char>, Seq<char>), u64>,
    pub context_policies: Map<Seq<char>, u64>,
    pub tool_callbacks: Map<Seq<char>, u64>,
    pub tool_callback_sessions: Map<Seq<char>, Seq<char>>,
    pub context_callbacks: Map<Seq<char>, u64>,
    pub context_callback_sessions: Map<Seq<char>, Seq<char>>,
}

impl View for ClientState {
    type V = ClientView;

    open spec fn view(&self) -> ClientView {
        ClientView {
            initialization: self.initialization,
            closed: self.closed,
            next_id: self.next_id,
            next_object: self.next_object,
            pending: handles(self.pending),
            pending_sessions: links(self.pending_sessions),
            approval_sessions: links(self.approval_sessions),
            approval_turns: links(self.approval_turns),
            sessions: lifecycles(self.sessions),
            pack_names: bindings(self.pack_names),
            session_event_hubs: handles(self.session_event_hubs),
            session_event_hubs_v2: handles(self.session_event_hubs_v2),
            interaction_event_hubs: handles(self.interaction_event_hubs),
            interaction_sessions: handles(self.interaction_sessions),
            runs: handles(self.runs),
            run_sessions: links(self.run_sessions),
            run_handles: handles(self.run_handles),
            run_handle_sessions: links(self.run_handle_sessions),
            tools: bindings(self.tools),
            tool_bindings: bindings(self.tool_bindings),
            registration_locks: bindings(self.registration_locks),
            context_policies: handles(self.context_policies),
            tool_callbacks: handles(self.tool_callbacks),
            tool_callback_sessions: links(self.tool_callback_sessions),
            context_callbacks: handles(self.context_callbacks),
            context_callback_sessions: links(self.context_callback_sessions),
        }
    }
}

/// A client on a fresh connection.
pub open spec fn new_client() -> ClientView {
    ClientView {
        initialization: Initialization::NotStarted,
        closed: false,
        next_id: 1,
        next_object: 0,
        pending: no_handles(),
        pending_sessions: no_links(),
        approval_sessions: no_links(),
        approval_turns: no_links(),
        sessions: no_lifecycles(),
        pack_names: no_bindings(),
        session_event_hubs: no_handles(),
        session_event_hubs_v2: no_handles(),
        interaction_event_hubs: no_handles(),
        interaction_sessions: no_handles(),
        runs: no_handles(),
        run_sessions: no_links(),
        run_handles: no_handles(),
        run_handle_sessions: no_links(),
        tools: no_bindings(),
        tool_bindings: no_bindings(),
        registration_locks: no_bindings(),
        context_policies: no_handles(),
        tool_callbacks: no_handles(),
        tool_callback_sessions: no_links(),
        context_callbacks: no_handles(),
        context_callback_sessions: no_links(),
    }
}

/// A session's record when its connection is lost.
pub open spec fn drained(lifecycle: SessionLifecycle) -> SessionLifecycle {
    SessionLifecycle {
        phase: SessionPhase::Closed,
        released: true,
        pack_owner: None,
        ..lifecycle
    }
}

/// The records of all sessions when their connection is lost.
pub open spec fn all_drained(sessions: Map<Seq<char>, SessionLifecycle>) -> Map<
    Seq<char>,
    SessionLifecycle,
> {
    Map::new(
        |session: Seq<char>| sessions.contains_key(session),
        |session: Seq<char>| drained(sessions[session]),
    )
}

/// The client when its connection is lost: no route is left, and every session is
/// closed.
pub open spec fn disconnected(client: ClientView) -> ClientView {
    ClientView {
        closed: true,
        sessions: all_drained(client.sessions),
        initialization: client.initialization,
        next_id: client.next_id,
        next_object: client.next_object,
        pack_names: client.pack_names,
        ..new_client()
    }
}

/// What the host does when the connection is lost: it ends every hub with the
/// message, stops the callbacks, fails the waiting requests and the runs with the
/// message, and closes the packs of every session at once.
pub struct Disconnected {
    pub message: String,
    pub session_hubs: Vec<(String, u64)>,
    pub session_hubs_v2: Vec<(String, u64)>,
    pub interaction_hubs: Vec<(String, u64)>,
    pub tool_callbacks: Vec<(String, u64)>,
    pub context_callbacks: Vec<(String, u64)>,
    pub replies: Vec<(String, u64)>,
    pub runs: Vec<(String, u64)>,
    /// The sessions' records as they were, with the owners of their packs.
    pub sessions: Vec<(String, SessionLifecycle)>,
}

impl Disconnected {
    /// What every waiting request is answered.
    pub fn error(&self) -> (error: SdkError)
        ensures
            error@ == ErrorView::ChannelClosed(self.message@),
    {
        SdkError::ChannelClosed(self.message.clone())
    }

    /// How every hub ends.
    pub fn termination(&self) -> (termination: HubTermination)
        ensures
            termination@ == TerminationView::ConnectionLost(self.message@),
    {
        HubTermination::ConnectionLost(self.message.clone())
    }

    /// Everything that was under way is listed, each once.
    pub open spec fn covers(self, client: ClientView) -> bool {
        &&& enumerates(handle_views(self.session_hubs@), client.session_event_hubs)
        &&& enumerates(handle_views(self.session_hubs_v2@), client.session_event_hubs_v2)
        &&& enumerates(handle_views(self.interaction_hubs@), client.interaction_event_hubs)
        &&& enumerates(handle_views(self.tool_callbacks@), client.tool_callbacks)
        &&& enumerates(handle_views(self.context_callbacks@), client.context_callbacks)
        &&& enumerates(handle_views(self.replies@), client.pending)
        &&& enumerates(handle_views(self.runs@), client.runs)
        &&& enumerates(lifecycle_views(self.sessions@), client.sessions)
    }
}

/// The text under which a request waits for its answer.
pub open spec fn request_key(id: i64) -> Seq<char> {
    decimal(id as int)
}

impl ClientState {
    /// A client on a fresh connection.
    pub fn new() -> (client: Self)
        ensures
            client@ == new_client(),
    {
        ClientState {
            initialization: Initialization::NotStarted,
            closed: false,
            next_id: 1,
            next_object: 0,
            pending: new_handles(),
            pending_sessions: new_links(),
            approval_sessions: new_links(),
            approval_turns: new_links(),
            sessions: new_lifecycles(),
            pack_names: new_bindings(),
            session_event_hubs: new_handles(),
            session_event_hubs_v2: new_handles(),
            interaction_event_hubs: new_handles(),
            interaction_sessions: new_handles(),
            runs: new_handles(),
            run_sessions: new_links(),
            run_handles: new_handles(),
            run_handle_sessions: new_links(),
            tools: new_bindings(),
            tool_bindings: new_bindings(),
            registration_locks: new_bindings(),
            context_policies: new_handles(),
            tool_callbacks: new_handles(),
            tool_callback_sessions: new_links(),
            context_callbacks: new_handles(),
            context_callback_sessions: new_links(),
        }
    }

    /// Whether the daemon has accepted the handshake and the connection is in use.
    pub fn is_initialized(&self) -> (initialized: bool)
        ensures
            initialized == (!self@.closed && self@.initialization.ready()),
    {
        !self.closed && self.initialization.is_ready()
    }

    fn drain_sessions(&mut self) -> (listed: Vec<(String, SessionLifecycle)>)
        ensures
            final(self)@ == (ClientView {
                sessions: all_drained(old(self)@.sessions),
                ..old(self)@
            }),
            enumerates(lifecycle_views(listed@), old(self)@.sessions),
    {
        let ghost before = self@;
        let listed = list_lifecycles(&self.sessions);
        let ghost views = lifecycle_views(listed@);
        let mut i: usize = 0;
        while i < listed.len()
            invariant
                i <= listed.len(),
                views == lifecycle_views(listed@),
                enumerates(views, before.sessions),
                self@ == (ClientView { sessions: self@.sessions, ..before }),
                self@.sessions.dom() == before.sessions.dom(),
                forall|j: int|
                    0 <= j < views.len() ==> self@.sessions[(#[trigger] views[j]).0] == if j < i {
                        drained(views[j].1)
                    } else {
                        views[j].1
                    },
            decreases listed.len() - i,
        {
            let ghost current = self@.sessions;
            let (session, lifecycle) = &listed[i];
            assert(views[i as int] == (session@, *lifecycle));
            let drained = SessionLifecycle {
                phase: SessionPhase::Closed,
                released: true,
                pack_owner: None,
                ..*lifecycle
            };
            insert_lifecycle(&mut self.sessions, session.clone(), drained);
            proof {
                assert(before.sessions.contains_key(session@));
                assert(self@.sessions =~= current.insert(session@, drained));
                assert(self@.sessions.dom() =~= before.sessions.dom());
                assert forall|j: int| 0 <= j < views.len() implies self@.sessions[(
                #[trigger] views[j]).0] == if j < i + 1 {
                    crate::client::drained(views[j].1)
                } else {
                    views[j].1
                } by {
                    if j != i {
                        assert(views[j].0 != views[i as int].0);
                    }
                }
            }
            i = i + 1;
        }
        proof {
            assert forall|session: Seq<char>| #[trigger]
                before.sessions.contains_key(session) implies self@.sessions[session]
                == crate::client::drained(before.sessions[session]) by {
                let j = choose|j: int|
                    0 <= j < views.len() && (#[trigger] views[j]).0 == session;
                assert(before.sessions.contains_pair(views[j].0, views[j].1));
            }
            assert(self@.sessions =~= all_drained(before.sessions));
        }
        listed
    }

    /// Gives the connection up. The first call lists what the host has to end; later
    /// ones change nothing.
    pub fn disconnect(&mut self, message: &str) -> (result: Option<Disconnected>)
        ensures
            match result {
                None => old(self)@.closed && final(self)@ == old(self)@,
                Some(ended) => {
                    &&& !old(self)@.closed
                    &&& ended.message@ == message@
                    &&& ended.covers(old(self)@)
                    &&& final(self)@ == disconnected(old(self)@)
                },
            },
    {
        if self.closed {
            return None;
        }
        let ghost before = self@;
        self.closed = true;
        let session_hubs = list_handles(&self.session_event_hubs);
        clear_handles(&mut self.session_event_hubs);
        let session_hubs_v2 = list_handles(&self.session_event_hubs_v2);
        clear_handles(&mut self.session_event_hubs_v2);
        let interaction_hubs = list_handles(&self.interaction_event_hubs);
        clear_handles(&mut self.interaction_event_hubs);
        clear_handles(&mut self.interaction_sessions);
        let tool_callbacks = list_handles(&self.tool_callbacks);
        let context_callbacks = list_handles(&self.context_callbacks);
        clear_handles(&mut self.context_policies);
        clear_links(&mut self.approval_sessions);
        clear_links(&mut self.approval_turns);
        let replies = list_handles(&self.pending);
        clear_handles(&mut self.pending);
        let runs = list_handles(&self.runs);
        clear_handles(&mut self.runs);
        clear_links(&mut self.run_sessions);
        clear_handles(&mut self.run_handles);
        clear_links(&mut self.run_handle_sessions);
        clear_bindings(&mut self.tools);
        clear_bindings(&mut self.tool_bindings);
        clear_bindings(&mut self.registration_locks);
        clear_links(&mut self.pending_sessions);
        clear_handles(&mut self.tool_callbacks);
        clear_links(&mut self.tool_callback_sessions);
        clear_handles(&mut self.context_callbacks);
        clear_links(&mut self.context_callback_sessions);
        let sessions = self.drain_sessions();
        assert(self@ =~= disconnected(before));
        Some(
            Disconnected {
                message: message.to_owned(),
                session_hubs,
                session_hubs_v2,
                interaction_hubs,
                tool_callbacks,
                context_callbacks,
                replies,
                runs,
                sessions,
            },
        )
    }
}

/// Giving a connection up twice is the same as giving it up once.
pub proof fn disconnect_is_idempotent(client: ClientView)
    ensures
        disconnected(client).closed,
        disconnected(disconnected(client)) == disconnected(client),
{
    assert(all_drained(all_drained(client.sessions)) =~= all_drained(client.sessions));
    assert(disconnected(disconnected(client)) =~= disconnected(client));
}

/// A client that has given its connection up holds no route and no tool, and every
/// session that it knew is closed and holds no pack.
pub proof fn nothing_survives_a_disconnect(client: ClientView, session: Seq<char>)
    ensures
        ({
            let after = disconnected(client);
            &&& after.pending.dom().is_empty()
            &&& after.pending_sessions.dom().is_empty()
            &&& after.runs.dom().is_empty()
            &&& after.tools.dom().is_empty()
            &&& after.tool_bindings.dom().is_empty()
            &&& after.context_policies.dom().is_empty()
            &&& after.tool_callbacks.dom().is_empty()
            &&& after.context_callbacks.dom().is_empty()
            &&& after.session_event_hubs.dom().is_empty()
            &&& after.session_event_hubs_v2.dom().is_empty()
            &&& after.interaction_event_hubs.dom().is_empty()
            &&& after.sessions.dom() == client.sessions.dom()
            &&& after.sessions.contains_key(session) ==> {
                &&& after.sessions[session].phase == SessionPhase::Closed
                &&& after.sessions[session].released
                &&& after.sessions[session].pack_owner is None
            }
        }),
{
    assert(disconnected(client).sessions.dom() =~= client.sessions.dom());
}

/// A fresh client has sent nothing, knows nothing and is open; its first request has the
/// number one.
pub proof fn fresh_client_holds_nothing(key: Seq<char>, session: Seq<char>)
    ensures
        ({
            let client = new_client();
            &&& client.initialization is NotStarted
            &&& !client.closed
            &&& client.next_id == 1
            &&& !client.pending.contains_key(key)
            &&& !client.pending_sessions.contains_key(key)
            &&& !client.approval_sessions.contains_key(key)
            &&& !client.approval_turns.contains_key(key)
            &&& !client.sessions.contains_key(session)
            &&& !client.pack_names.contains_key((session, key))
            &&& !client.session_event_hubs.contains_key(session)
            &&& !client.session_event_hubs_v2.contains_key(session)
            &&& !client.interaction_event_hubs.contains_key(session)
            &&& !client.interaction_sessions.contains_key(session)
            &&& !client.runs.contains_key(key)
            &&& !client.run_sessions.contains_key(key)
            &&& !client.run_handles.contains_key(key)
            &&& !client.run_handle_sessions.contains_key(key)
            &&& !client.tools.contains_key((session, key))
            &&& !client.tool_bindings.contains_key((session, key))
            &&& !client.registration_locks.contains_key((session, key))
            &&& !client.context_policies.contains_key(session)
            &&& !client.tool_callbacks.contains_key(key)
            &&& !client.tool_callback_sessions.contains_key(key)
            &&& !client.context_callbacks.contains_key(key)
            &&& !client.context_callback_sessions.contains_key(key)
        }),
{
}

/// A lost connection takes with it the approvals, the runs that someone may still hold, the
/// registrations and the sessions of callbacks too. What the handshake said, the numbers and
/// the identities of sessions stay.
pub proof fn disconnect_keeps_identities(client: ClientView, session: Seq<char>)
    ensures
        ({
            let after = disconnected(client);
            &&& after.initialization == client.initialization
            &&& after.next_id == client.next_id
            &&& after.next_object == client.next_object
            &&& after.pack_names == client.pack_names
            &&& after.approval_sessions.dom().is_empty()
            &&& after.approval_turns.dom().is_empty()
            &&& after.run_sessions.dom().is_empty()
            &&& after.run_handles.dom().is_empty()
            &&& after.run_handle_sessions.dom().is_empty()
            &&& after.interaction_sessions.dom().is_empty()
            &&& after.registration_locks.dom().is_empty()
            &&& after.tool_callback_sessions.dom().is_empty()
            &&& after.context_callback_sessions.dom().is_empty()
            &&& after.sessions.contains_key(session) == client.sessions.contains_key(session)
            &&& client.sessions.contains_key(session) ==> {
                &&& after.sessions[session].id == client.sessions[session].id
                &&& after.sessions[session].provisional == client.sessions[session].provisional
                &&& after.sessions[session].provisional_users
                    == client.sessions[session].provisional_users
            }
        }),
{
}

/// Whatever was under way when the connection was lost is handed to the host: every waiting
/// request, every run, every callback, every hub and every session with its packs.
pub proof fn disconnect_forgets_nobody(ended: Disconnected, client: ClientView, key: Seq<char>)
    requires
        ended.covers(client),
    ensures
        client.pending.contains_key(key) ==> exists|i: int|
            0 <= i < ended.replies@.len() && (#[trigger] ended.replies@[i]).0@ == key
                && ended.replies@[i].1 == client.pending[key],
        client.runs.contains_key(key) ==> exists|i: int|
            0 <= i < ended.runs@.len() && (#[trigger] ended.runs@[i]).0@ == key
                && ended.runs@[i].1 == client.runs[key],
        client.tool_callbacks.contains_key(key) ==> exists|i: int|
            0 <= i < ended.tool_callbacks@.len() && (#[trigger] ended.tool_callbacks@[i]).0@ == key
                && ended.tool_callbacks@[i].1 == client.tool_callbacks[key],
        client.context_callbacks.contains_key(key) ==> exists|i: int|
            0 <= i < ended.context_callbacks@.len() && (#[trigger] ended.context_callbacks@[i]).0@
                == key && ended.context_callbacks@[i].1 == client.context_callbacks[key],
        client.session_event_hubs.contains_key(key) ==> exists|i: int|
            0 <= i < ended.session_hubs@.len() && (#[trigger] ended.session_hubs@[i]).0@ == key
                && ended.session_hubs@[i].1 == client.session_event_hubs[key],
        client.session_event_hubs_v2.contains_key(key) ==> exists|i: int|
            0 <= i < ended.session_hubs_v2@.len() && (#[trigger] ended.session_hubs_v2@[i]).0@
                == key && ended.session_hubs_v2@[i].1 == client.session_event_hubs_v2[key],
        client.interaction_event_hubs.contains_key(key) ==> exists|i: int|
            0 <= i < ended.interaction_hubs@.len() && (#[trigger] ended.interaction_hubs@[i]).0@
                == key && ended.interaction_hubs@[i].1 == client.interaction_event_hubs[key],
        client.sessions.contains_key(key) ==> exists|i: int|
            0 <= i < ended.sessions@.len() && (#[trigger] ended.sessions@[i]).0@ == key
                && ended.sessions@[i].1 == client.sessions[key],
{
    if client.pending.contains_key(key) {
        lemma_listed(ended.replies@, client.pending, key);
    }
    if client.runs.contains_key(key) {
        lemma_listed(ended.runs@, client.runs, key);
    }
    if client.tool_callbacks.contains_key(key) {
        lemma_listed(ended.tool_callbacks@, client.tool_callbacks, key);
    }
    if client.context_callbacks.contains_key(key) {
        lemma_listed(ended.context_callbacks@, client.context_callbacks, key);
    }
    if client.session_event_hubs.contains_key(key) {
        lemma_listed(ended.session_hubs@, client.session_event_hubs, key);
    }
    if client.session_event_hubs_v2.contains_key(key) {
        lemma_listed(ended.session_hubs_v2@, client.session_event_hubs_v2, key);
    }
    if client.interaction_event_hubs.contains_key(key) {
        lemma_listed(ended.interaction_hubs@, client.interaction_event_hubs, key);
    }
    if client.sessions.contains_key(key) {
        let views = lifecycle_views(ended.sessions@);
        let i = choose|i: int| 0 <= i < views.len() && (#[trigger] views[i]).0 == key;
        assert(client.sessions.contains_pair(views[i].0, views[i].1));
        assert(ended.sessions@[i].0@ == key);
    }
}

proof fn lemma_listed(listed: Seq<(String, u64)>, table: Map<Seq<char>, u64>, key: Seq<char>)
    requires
        enumerates(handle_views(listed), table),
        table.contains_key(key),
    ensures
        exists|i: int|
            0 <= i < listed.len() && (#[trigger] listed[i]).0@ == key && listed[i].1
                == table[key],
{
    let views = handle_views(listed);
    let i = choose|i: int| 0 <= i < views.len() && (#[trigger] views[i]).0 == key;
    assert(table.contains_pair(views[i].0, views[i].1));
    assert(listed[i].0@ == key);
}

} // verus!
