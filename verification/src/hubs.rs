//! Event hubs: which of them a session has, and where its events go.
//!
//! The hub of a session's view lives as long as the session. The hubs of managed
//! views and of interactions live as long as anyone subscribes to them.

use vstd::prelude::*;

use crate::client::{ClientState, ClientView};
use crate::errors::{client_closed, client_is_closed, ErrorView, SdkError};
use crate::sessions::{knowing, open_verdict, record, with_hub};
use crate::stream::StreamKind;
use crate::tables::{get_handle, insert_handle, remove_handle};

verus! {

/// The hubs of a kind.
pub open spec fn hubs_of(client: ClientView, kind: StreamKind) -> Map<Seq<char>, u64> {
    match kind {
        StreamKind::Session => client.session_event_hubs,
        StreamKind::Management => client.session_event_hubs_v2,
        StreamKind::Interaction => client.interaction_event_hubs,
    }
}

/// The client with other hubs of a kind.
pub open spec fn with_hubs(client: ClientView, kind: StreamKind, hubs: Map<Seq<char>, u64>) -> ClientView {
    match kind {
        StreamKind::Session => ClientView { session_event_hubs: hubs, ..client },
        StreamKind::Management => ClientView { session_event_hubs_v2: hubs, ..client },
        StreamKind::Interaction => ClientView { interaction_event_hubs: hubs, ..client },
    }
}

/// The hubs when a session certainly has one: `fresh`, unless it has one that is alive.
pub open spec fn with_live_hub(
    hubs: Map<Seq<char>, u64>,
    session: Seq<char>,
    fresh: u64,
    alive: bool,
) -> Map<Seq<char>, u64> {
    if hubs.contains_key(session) && alive {
        hubs
    } else {
        hubs.insert(session, fresh)
    }
}

/// The hubs when one of them is gone. Another hub of the same session stays.
pub open spec fn without_hub(
    hubs: Map<Seq<char>, u64>,
    session: Seq<char>,
    hub: u64,
) -> Map<Seq<char>, u64> {
    if hubs.contains_pair(session, hub) {
        hubs.remove(session)
    } else {
        hubs
    }
}

impl ClientState {
    fn hub(&self, kind: StreamKind, session: &str) -> (hub: Option<u64>)
        ensures
            hub == hubs_of(self@, kind).get(session@),
    {
        match kind {
            StreamKind::Session => get_handle(&self.session_event_hubs, session),
            StreamKind::Management => get_handle(&self.session_event_hubs_v2, session),
            StreamKind::Interaction => get_handle(&self.interaction_event_hubs, session),
        }
    }

    /// Subscribes to a session's events, which have to come before anything else is
    /// asked of the session. The result is the hub to subscribe to.
    pub fn subscribe_session_events(&mut self, session: &str, fresh: u64) -> (result: Result<
        u64,
        SdkError,
    >)
        ensures
            match result {
                Ok(hub) => {
                    &&& open_verdict(
                        old(self)@.closed,
                        record(old(self)@, session@).phase,
                        session@,
                    ) is Ok
                    &&& final(self)@ == with_hub(knowing(old(self)@, session@), session@, fresh)
                    &&& final(self)@.session_event_hubs.contains_pair(session@, hub)
                },
                Err(error) => {
                    &&& open_verdict(
                        old(self)@.closed,
                        record(old(self)@, session@).phase,
                        session@,
                    ) == Err::<(), ErrorView>(error@)
                    &&& final(self)@ == knowing(old(self)@, session@)
                },
            },
    {
        match self.check_session_open(session) {
            Ok(()) => Ok(self.ensure_session_event_hub(session, fresh)),
            Err(error) => Err(error),
        }
    }

    /// Whether a session may be looked at: a closed one may, on an open connection.
    pub fn ensure_session_viewable(&self) -> (result: Result<(), SdkError>)
        ensures
            crate::errors::outcome(result) == if self@.closed {
                Err(client_closed())
            } else {
                Ok(())
            },
    {
        if self.closed {
            Err(client_is_closed())
        } else {
            Ok(())
        }
    }

    /// Gives a session a hub of a kind: `fresh`, unless it has one that is alive. The
    /// result is the hub that it has.
    pub(crate) fn ensure_live_hub(
        &mut self,
        kind: StreamKind,
        session: &str,
        fresh: u64,
        alive: bool,
    ) -> (hub: u64)
        ensures
            final(self)@ == with_hubs(
                old(self)@,
                kind,
                with_live_hub(hubs_of(old(self)@, kind), session@, fresh, alive),
            ),
            hubs_of(final(self)@, kind).contains_pair(session@, hub),
    {
        if let Some(hub) = self.hub(kind, session) {
            if alive {
                return hub;
            }
        }
        match kind {
            StreamKind::Session => {
                insert_handle(&mut self.session_event_hubs, session.to_owned(), fresh);
            },
            StreamKind::Management => {
                insert_handle(&mut self.session_event_hubs_v2, session.to_owned(), fresh);
            },
            StreamKind::Interaction => {
                insert_handle(&mut self.interaction_event_hubs, session.to_owned(), fresh);
            },
        }
        fresh
    }

    /// Subscribes to a managed view's events. The result is the hub to subscribe to:
    /// the session's own, where `alive` says that someone still holds it.
    pub fn subscribe_session_events_v2(
        &mut self,
        session: &str,
        fresh: u64,
        alive: bool,
    ) -> (result: Result<u64, SdkError>)
        ensures
            match result {
                Ok(hub) => {
                    &&& !old(self)@.closed
                    &&& final(self)@ == (ClientView {
                        session_event_hubs_v2: with_live_hub(
                            old(self)@.session_event_hubs_v2,
                            session@,
                            fresh,
                            alive,
                        ),
                        ..old(self)@
                    })
                    &&& final(self)@.session_event_hubs_v2.contains_pair(session@, hub)
                },
                Err(error) => {
                    &&& old(self)@.closed
                    &&& error@ == client_closed()
                    &&& final(self)@ == old(self)@
                },
            },
    {
        match self.ensure_session_viewable() {
            Ok(()) => Ok(self.ensure_live_hub(StreamKind::Management, session, fresh, alive)),
            Err(error) => Err(error),
        }
    }

    /// Forgets a hub that nobody holds any more. A hub that took its place stays.
    pub fn drop_hub(&mut self, kind: StreamKind, session: &str, hub: u64)
        ensures
            final(self)@ == with_hubs(
                old(self)@,
                kind,
                without_hub(hubs_of(old(self)@, kind), session@, hub),
            ),
    {
        if let Some(current) = self.hub(kind, session) {
            if current == hub {
                match kind {
                    StreamKind::Session => {
                        remove_handle(&mut self.session_event_hubs, session);
                    },
                    StreamKind::Management => {
                        remove_handle(&mut self.session_event_hubs_v2, session);
                    },
                    StreamKind::Interaction => {
                        remove_handle(&mut self.interaction_event_hubs, session);
                    },
                }
            }
        }
    }

    /// Where an event goes: to the session's hub, if it has one. An event that is not
    /// valid goes nowhere.
    pub fn route_event(&self, kind: StreamKind, session: &str, valid: Result<(), String>) -> (result:
        Result<Option<u64>, String>)
        ensures
            match valid {
                Ok(()) => result == Ok::<Option<u64>, String>(
                    hubs_of(self@, kind).get(session@),
                ),
                Err(reason) => result == Err::<Option<u64>, String>(reason),
            },
    {
        match valid {
            Ok(()) => Ok(self.hub(kind, session)),
            Err(reason) => Err(reason),
        }
    }
}

/// A subscriber that comes while a hub is alive joins it, and one that comes later gets
/// a hub of its own; when the last subscriber of a hub is gone the session has none.
pub proof fn hub_lives_with_its_subscribers(
    hubs: Map<Seq<char>, u64>,
    session: Seq<char>,
    first: u64,
    second: u64,
)
    requires
        !hubs.contains_key(session),
        first != second,
    ensures
        ({
            let subscribed = with_live_hub(hubs, session, first, false);
            let joined = with_live_hub(subscribed, session, second, true);
            let replaced = with_live_hub(subscribed, session, second, false);
            &&& subscribed[session] == first
            &&& joined == subscribed
            &&& replaced[session] == second
            &&& without_hub(subscribed, session, first) == hubs
            &&& without_hub(replaced, session, first) == replaced
        }),
{
    let subscribed = with_live_hub(hubs, session, first, false);
    assert(without_hub(subscribed, session, first) =~= hubs);
}

/// Each surface has hubs of its own: to change those of one leaves those of the others, and
/// everything else, as they are.
pub proof fn surfaces_have_their_own_hubs(
    client: ClientView,
    kind: StreamKind,
    hubs: Map<Seq<char>, u64>,
)
    ensures
        hubs_of(client, StreamKind::Session) == client.session_event_hubs,
        hubs_of(client, StreamKind::Management) == client.session_event_hubs_v2,
        hubs_of(client, StreamKind::Interaction) == client.interaction_event_hubs,
        ({
            let after = with_hubs(client, kind, hubs);
            &&& kind == StreamKind::Session ==> after == (ClientView {
                session_event_hubs: hubs,
                ..client
            })
            &&& kind == StreamKind::Management ==> after == (ClientView {
                session_event_hubs_v2: hubs,
                ..client
            })
            &&& kind == StreamKind::Interaction ==> after == (ClientView {
                interaction_event_hubs: hubs,
                ..client
            })
        }),
{
}

/// A session keeps the hub that is alive, and gets the fresh one otherwise. A hub goes only
/// where it is still the session's. Other sessions keep theirs.
pub proof fn hub_changes_only_for_its_session(
    hubs: Map<Seq<char>, u64>,
    session: Seq<char>,
    hub: u64,
    alive: bool,
    other: Seq<char>,
)
    ensures
        ({
            let given = with_live_hub(hubs, session, hub, alive);
            let taken = without_hub(hubs, session, hub);
            let own = hubs.contains_key(session) && hubs[session] == hub;
            &&& hubs.contains_key(session) && alive ==> given.get(session) == hubs.get(session)
            &&& !(hubs.contains_key(session) && alive) ==> given.get(session) == Some(hub)
            &&& own ==> !taken.contains_key(session)
            &&& !own ==> taken.get(session) == hubs.get(session)
            &&& other != session ==> given.get(other) == hubs.get(other)
            &&& other != session ==> taken.get(other) == hubs.get(other)
        }),
{
}

} // verus!
