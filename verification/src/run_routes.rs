//! Runs and the client: starting them, asking for them, and giving them up.
//!
//! The route of a run leads its live events to it. Beside the routes the client
//! remembers which runs someone still holds, so that a second caller who asks for such
//! a run gets the same one.

use vstd::prelude::*;

use crate::client::{ClientState, ClientView};
use crate::errors::{outcome, ErrorView, SdkError};
use crate::identity::{fresh_identifier, is_identifier};
use crate::incoming::{approval_noted, route_ended};
use crate::protocol::CAPABILITY_INTERACTIONS;
use crate::run::{
    check_started, new_run, run_asked, run_observed, run_released, RunSnapshot, RunState, RunView,
};
use crate::sessions::{existing_verdict, gone, knowing, open_verdict, record, with_hub};
use crate::tables::{get_handle, get_link, insert_handle, insert_link, remove_handle, remove_link};
use crate::text::same_text;

verus! {

/// The client when someone holds a run.
pub open spec fn run_held(
    client: ClientView,
    session: Seq<char>,
    turn: Seq<char>,
    handle: u64,
) -> ClientView {
    ClientView {
        run_handles: client.run_handles.insert(turn, handle),
        run_handle_sessions: client.run_handle_sessions.insert(turn, session),
        ..client
    }
}

/// The client when the events of a run go to it.
pub open spec fn run_routed(
    client: ClientView,
    session: Seq<char>,
    turn: Seq<char>,
    handle: u64,
) -> ClientView {
    ClientView {
        runs: client.runs.insert(turn, handle),
        run_sessions: client.run_sessions.insert(turn, session),
        ..client
    }
}

/// The client when nobody holds a run any more. Another run of the same name stays.
pub open spec fn run_dropped(client: ClientView, turn: Seq<char>, handle: u64) -> ClientView {
    if client.run_handles.contains_pair(turn, handle) {
        ClientView {
            run_handles: client.run_handles.remove(turn),
            run_handle_sessions: client.run_handle_sessions.remove(turn),
            ..client
        }
    } else {
        client
    }
}

/// A run that is being started; its events may be collected as a whole.
pub open spec fn starting_run(session: Seq<char>, turn: Seq<char>, collect: bool) -> RunView {
    if collect {
        RunView {
            legacy_events: Some(Seq::empty()),
            sender_open: false,
            ..new_run(session, turn, false)
        }
    } else {
        new_run(session, turn, false)
    }
}

/// Where a caller finds the run that it asks for.
#[derive(Clone, Copy, Debug, PartialEq, Eq, Structural)]
pub enum RunPlace {
    /// Its events go to this run already.
    Routed(u64),
    /// Someone holds this run.
    Held(u64),
    Unknown,
}

/// Where a caller finds a run. `alive` says whether the run that the client remembers is
/// still held by anyone.
pub open spec fn run_place(client: ClientView, turn: Seq<char>, alive: bool) -> RunPlace {
    if client.runs.contains_key(turn) {
        RunPlace::Routed(client.runs[turn])
    } else if client.run_handles.contains_key(turn) && alive {
        RunPlace::Held(client.run_handles[turn])
    } else {
        RunPlace::Unknown
    }
}

/// Who takes the answer to a request for approval.
#[derive(Debug)]
pub enum ApprovalRoute {
    /// The generic interaction of this run.
    Interaction { session: String, turn: String },
    /// The approval of this session.
    Session(String),
    /// The approval of a session that is not known here.
    Unscoped,
}

impl ClientState {
    fn cache_run(&mut self, session: &str, turn: &str, handle: u64)
        ensures
            final(self)@ == run_held(old(self)@, session@, turn@, handle),
    {
        insert_handle(&mut self.run_handles, turn.to_owned(), handle);
        insert_link(&mut self.run_handle_sessions, turn.to_owned(), session.to_owned());
    }

    fn route_run(&mut self, session: &str, turn: &str, handle: u64)
        ensures
            final(self)@ == run_routed(old(self)@, session@, turn@, handle),
    {
        insert_handle(&mut self.runs, turn.to_owned(), handle);
        insert_link(&mut self.run_sessions, turn.to_owned(), session.to_owned());
    }

    /// Prepares a new run under a fresh identity: its route is there before the daemon
    /// hears of it. `handle` is the host's for the run, `hub` one for the session
    /// should it have none. `collect` keeps every event for a caller who wants them at
    /// the end.
    pub fn start_run(&mut self, session: &str, hub: u64, handle: u64, collect: bool) -> (result: Result<
        RunState,
        SdkError,
    >)
        ensures
            match result {
                Ok(run) => {
                    let known = with_hub(knowing(old(self)@, session@), session@, hub);
                    &&& open_verdict(
                        old(self)@.closed,
                        record(old(self)@, session@).phase,
                        session@,
                    ) is Ok
                    &&& is_identifier(run@.turn)
                    &&& run@ == starting_run(session@, run@.turn, collect)
                    &&& final(self)@ == run_routed(
                        run_held(known, session@, run@.turn, handle),
                        session@,
                        run@.turn,
                        handle,
                    )
                },
                Err(error) => {
                    &&& open_verdict(
                        old(self)@.closed,
                        record(old(self)@, session@).phase,
                        session@,
                    ) == Err::<(), ErrorView>(error@)
                    &&& final(self)@ == knowing(old(self)@, session@)
                },
            },
    {
        if let Err(error) = self.ensure_session_open(session, hub) {
            return Err(error);
        }
        let turn_id = fresh_identifier();
        self.cache_run(session, turn_id.as_str(), handle);
        self.route_run(session, turn_id.as_str(), handle);
        let mut run = RunState::new(session.to_owned(), turn_id);
        if collect {
            run.buffer_legacy_events();
        }
        Ok(run)
    }

    /// Takes the daemon's answer to the start of a run. `reply` holds the session and
    /// the turn that the daemon accepted. Where the run was not started, its route goes,
    /// unless an event has claimed it.
    pub fn settle_start(
        &mut self,
        handle: u64,
        run: &RunState,
        reply: Result<(String, String), SdkError>,
    ) -> (result: Result<(), SdkError>)
        ensures
            outcome(result) == match reply {
                Ok(accepted) => if accepted.0@ == run@.thread && accepted.1@ == run@.turn {
                    Ok(())
                } else {
                    Err(ErrorView::Internal("Daemon returned a different run identity"@))
                },
                Err(error) => Err(error@),
            },
            final(self)@ == route_ended(
                old(self)@,
                run@.turn,
                handle,
                result is Err && !run@.event_route_claimed,
            ),
    {
        let result = match reply {
            Ok((thread_id, turn_id)) => check_started(
                thread_id.as_str(),
                turn_id.as_str(),
                run.thread_id.as_str(),
                run.turn_id.as_str(),
            ),
            Err(error) => Err(error),
        };
        if result.is_err() {
            self.abandon_start(handle, run);
        }
        result
    }

    /// Gives up the start of a run that nobody waits for. A run that already gets
    /// events keeps its route.
    pub fn abandon_start(&mut self, handle: u64, run: &RunState)
        ensures
            final(self)@ == route_ended(
                old(self)@,
                run@.turn,
                handle,
                !run@.event_route_claimed,
            ),
    {
        if !run.event_route_claimed {
            self.end_route(run.turn_id.as_str(), handle);
        }
    }

    /// The run of that name that the client remembers.
    pub fn held_run(&self, turn: &str) -> (handle: Option<u64>)
        ensures
            handle == self@.run_handles.get(turn@),
    {
        get_handle(&self.run_handles, turn)
    }

    /// Where a caller finds the run that it asks for, if its session takes work.
    pub fn locate_run(&self, session: &str, turn: &str, alive: bool) -> (result: Result<
        RunPlace,
        SdkError,
    >)
        ensures
            match result {
                Ok(place) => {
                    &&& existing_verdict(self@, session@) is Ok
                    &&& place == run_place(self@, turn@, alive)
                },
                Err(error) => existing_verdict(self@, session@) == Err::<(), ErrorView>(error@),
            },
    {
        if let Err(error) = self.check_existing_session_open(session) {
            return Err(error);
        }
        if let Some(handle) = get_handle(&self.runs, turn) {
            return Ok(RunPlace::Routed(handle));
        }
        match get_handle(&self.run_handles, turn) {
            Some(handle) if alive => Ok(RunPlace::Held(handle)),
            _ => Ok(RunPlace::Unknown),
        }
    }

    /// Asks for a run that was found. A held run whose end is not known gets its route
    /// back.
    pub fn join_run(&mut self, place: RunPlace, run: &mut RunState)
        requires
            old(run)@.query matches Some(query) ==> query.waiters < u64::MAX,
        ensures
            final(run)@ == run_asked(old(run)@),
            final(self)@ == match place {
                RunPlace::Held(handle) if old(run)@.query is Some && old(run)@.terminal is None =>
                    run_routed(old(self)@, old(run)@.thread, old(run)@.turn, handle),
                _ => old(self)@,
            },
    {
        run.acquire();
        if let RunPlace::Held(handle) = place {
            if run.pending_query() {
                self.route_run(run.thread_id.as_str(), run.turn_id.as_str(), handle);
            }
        }
    }

    /// Asks for a run that nobody holds: it gets a route until its callers know more.
    pub fn query_run(&mut self, session: &str, turn: &str, handle: u64) -> (run: RunState)
        ensures
            run@ == run_asked(new_run(session@, turn@, true)),
            final(self)@ == run_routed(
                run_held(old(self)@, session@, turn@, handle),
                session@,
                turn@,
                handle,
            ),
    {
        let mut run = RunState::new_query(session.to_owned(), turn.to_owned());
        self.cache_run(session, turn, handle);
        run.acquire();
        self.route_run(session, turn, handle);
        run
    }

    /// Gives up the claim of a caller on the run that it asked for.
    pub fn release_run(&mut self, handle: u64, run: &mut RunState)
        requires
            old(run)@.query matches Some(query) ==> query.waiters > 0,
        ensures
            final(run)@ == run_released(old(run)@).0,
            final(self)@ == route_ended(
                old(self)@,
                old(run)@.turn,
                handle,
                run_released(old(run)@).1,
            ),
    {
        if run.release() {
            self.end_route(run.turn_id.as_str(), handle);
        }
    }

    /// Forgets a run that nobody holds any more.
    pub fn drop_run(&mut self, turn: &str, handle: u64)
        ensures
            final(self)@ == run_dropped(old(self)@, turn@, handle),
    {
        if let Some(current) = get_handle(&self.run_handles, turn) {
            if current == handle {
                remove_handle(&mut self.run_handles, turn);
                remove_link(&mut self.run_handle_sessions, turn);
            }
        }
    }

    /// Who takes the answer to a request for approval: the interaction, where the run is
    /// known and its session uses interactions, else the approval itself.
    pub fn approval_route(&self, request: &str) -> (route: ApprovalRoute)
        ensures
            match route {
                ApprovalRoute::Interaction { session, turn } => {
                    &&& by_interaction(self@, request@)
                    &&& session@ == self@.approval_sessions[request@]
                    &&& turn@ == self@.approval_turns[request@]
                },
                ApprovalRoute::Session(session) => {
                    &&& !by_interaction(self@, request@)
                    &&& self@.approval_sessions.contains_pair(request@, session@)
                },
                ApprovalRoute::Unscoped => !self@.approval_sessions.contains_key(request@),
            },
    {
        let session = match get_link(&self.approval_sessions, request) {
            Some(session) => session,
            None => return ApprovalRoute::Unscoped,
        };
        if let Some(turn) = get_link(&self.approval_turns, request) {
            if self.approves_by_interaction(session.as_str()) {
                return ApprovalRoute::Interaction { session, turn };
            }
        }
        ApprovalRoute::Session(session)
    }

    /// Whether approvals of a session are answered as interactions.
    pub fn approves_by_interaction(&self, session: &str) -> (by: bool)
        ensures
            by == uses_interactions(self@, session@),
    {
        self.initialization.offers(CAPABILITY_INTERACTIONS) && get_handle(
            &self.interaction_sessions,
            session,
        ).is_some()
    }
}

/// The daemon offers interactions, and the session uses them.
pub open spec fn uses_interactions(client: ClientView, session: Seq<char>) -> bool {
    client.initialization.offering(CAPABILITY_INTERACTIONS@)
        && client.interaction_sessions.contains_key(session)
}

/// A request for approval is answered as an interaction.
pub open spec fn by_interaction(client: ClientView, request: Seq<char>) -> bool {
    &&& client.approval_sessions.contains_key(request)
    &&& client.approval_turns.contains_key(request)
    &&& uses_interactions(client, client.approval_sessions[request])
}

/// Whether a run that was found is one of the session that it was asked for.
pub fn check_run_session(run: &RunState, session: &str) -> (result: Result<(), SdkError>)
    ensures
        outcome(result) == if run@.thread == session@ {
            Ok(())
        } else {
            Err(ErrorView::Internal("Run belongs to another session"@))
        },
{
    if same_text(run.thread_id.as_str(), session) {
        Ok(())
    } else {
        Err(SdkError::Internal("Run belongs to another session".to_owned()))
    }
}

/// The answer to a request for approval goes to the run that asked, where its session
/// uses interactions, and else to its session.
pub proof fn approval_goes_back_to_its_run(
    client: ClientView,
    session: Seq<char>,
    turn: Seq<char>,
    request: Seq<char>,
)
    requires
        !client.closed,
        !gone(knowing(client, session), session),
    ensures
        ({
            let asked = approval_noted(client, session, turn, Some(request));
            &&& asked.approval_sessions.get(request) == Some(session)
            &&& asked.approval_turns.get(request) == Some(turn)
            &&& by_interaction(asked, request) == uses_interactions(client, session)
        }),
{
}

/// A caller who asks for a run that someone holds gets that run, not a second one.
pub proof fn held_run_is_found_again(
    client: ClientView,
    session: Seq<char>,
    turn: Seq<char>,
    handle: u64,
)
    requires
        !client.runs.contains_key(turn),
    ensures
        run_place(run_held(client, session, turn, handle), turn, true) == RunPlace::Held(handle),
        run_place(
            run_routed(run_held(client, session, turn, handle), session, turn, handle),
            turn,
            true,
        ) == RunPlace::Routed(handle),
{
}

/// A run whose end was known before anyone asked leaves no route behind: the one that it
/// got for the asking goes with its last caller.
pub proof fn archived_run_keeps_no_route(
    client: ClientView,
    session: Seq<char>,
    turn: Seq<char>,
    handle: u64,
    snapshot: RunSnapshot,
)
    requires
        !client.runs.contains_key(turn),
        !client.run_sessions.contains_key(turn),
        snapshot.terminal,
        snapshot.thread_id@ == session,
        snapshot.turn_id@ == turn,
    ensures
        ({
            let asked = run_routed(
                run_held(client, session, turn, handle),
                session,
                turn,
                handle,
            );
            let run = run_observed(run_asked(new_run(session, turn, true)), snapshot);
            let (left, ends) = run_released(run);
            &&& ends
            &&& !left.sender_open
            &&& route_ended(asked, turn, handle, ends) == run_held(client, session, turn, handle)
        }),
{
    let asked = run_routed(run_held(client, session, turn, handle), session, turn, handle);
    let after = route_ended(asked, turn, handle, true);
    assert(after.runs =~= client.runs);
    assert(after.run_sessions =~= client.run_sessions);
}

/// A run that was seen alive keeps its route when its callers are gone.
pub proof fn live_run_keeps_its_route(
    client: ClientView,
    session: Seq<char>,
    turn: Seq<char>,
    handle: u64,
    snapshot: RunSnapshot,
)
    requires
        !snapshot.terminal,
        snapshot.thread_id@ == session,
        snapshot.turn_id@ == turn,
    ensures
        ({
            let run = run_observed(run_asked(new_run(session, turn, true)), snapshot);
            !run_released(run).1
        }),
{
}

/// To give up a run's route never takes one that another run has got meanwhile.
pub proof fn only_the_own_route_ends(
    client: ClientView,
    session: Seq<char>,
    turn: Seq<char>,
    handle: u64,
    other: u64,
    ends: bool,
)
    requires
        handle != other,
    ensures
        route_ended(run_routed(client, session, turn, other), turn, handle, ends) == run_routed(
            client,
            session,
            turn,
            other,
        ),
        run_dropped(run_held(client, session, turn, other), turn, handle) == run_held(
            client,
            session,
            turn,
            other,
        ),
{
}

/// Who holds a run is on record with the run's session, and where its events go is on
/// another record with the session. Neither touches the other, or another run.
pub proof fn runs_are_held_and_routed_apart(
    client: ClientView,
    session: Seq<char>,
    turn: Seq<char>,
    handle: u64,
    other: Seq<char>,
)
    ensures
        ({
            let held = run_held(client, session, turn, handle);
            let routed = run_routed(client, session, turn, handle);
            &&& held.run_handles.get(turn) == Some(handle)
            &&& held.run_handle_sessions.get(turn) == Some(session)
            &&& other != turn ==> held.run_handles.get(other) == client.run_handles.get(other)
            &&& other != turn ==> held.run_handle_sessions.get(other)
                == client.run_handle_sessions.get(other)
            &&& held == (ClientView {
                run_handles: held.run_handles,
                run_handle_sessions: held.run_handle_sessions,
                ..client
            })
            &&& routed.runs.get(turn) == Some(handle)
            &&& routed.run_sessions.get(turn) == Some(session)
            &&& other != turn ==> routed.runs.get(other) == client.runs.get(other)
            &&& other != turn ==> routed.run_sessions.get(other) == client.run_sessions.get(other)
            &&& routed == (ClientView {
                runs: routed.runs,
                run_sessions: routed.run_sessions,
                ..client
            })
        }),
{
}

/// A run that nobody holds any more is forgotten, where it is still the one on record. Its
/// route and other runs stay.
pub proof fn dropped_run_is_forgotten(
    client: ClientView,
    turn: Seq<char>,
    handle: u64,
    other: Seq<char>,
)
    ensures
        ({
            let after = run_dropped(client, turn, handle);
            let own = client.run_handles.contains_key(turn) && client.run_handles[turn] == handle;
            &&& own ==> !after.run_handles.contains_key(turn)
                && !after.run_handle_sessions.contains_key(turn)
            &&& !own ==> after == client
            &&& other != turn ==> after.run_handles.get(other) == client.run_handles.get(other)
            &&& other != turn ==> after.run_handle_sessions.get(other)
                == client.run_handle_sessions.get(other)
            &&& after == (ClientView {
                run_handles: after.run_handles,
                run_handle_sessions: after.run_handle_sessions,
                ..client
            })
        }),
{
}

/// A run is found where its events go, else where it is held and alive, and else nowhere.
pub proof fn run_is_found_by_its_route_first(client: ClientView, turn: Seq<char>, alive: bool)
    ensures
        ({
            let place = run_place(client, turn, alive);
            &&& client.runs.contains_key(turn) ==> place == RunPlace::Routed(client.runs[turn])
            &&& !client.runs.contains_key(turn) && client.run_handles.contains_key(turn) && alive
                ==> place == RunPlace::Held(client.run_handles[turn])
            &&& !client.runs.contains_key(turn) && !(client.run_handles.contains_key(turn)
                && alive) ==> place == RunPlace::Unknown
        }),
{
}

/// A run that is started belongs to its session, waits for its first event and has no
/// result. Its events are collected, and streamed to nobody, exactly where that is wanted.
pub proof fn started_run_waits_for_its_events(
    session: Seq<char>,
    turn: Seq<char>,
    collect: bool,
)
    ensures
        ({
            let run = starting_run(session, turn, collect);
            &&& collect ==> (run.legacy_events matches Some(events) && events.len() == 0)
            &&& !collect ==> run.legacy_events is None
            &&& run == (RunView {
                thread: session,
                turn,
                sender_open: !collect,
                receiver_taken: false,
                terminal: None,
                last_seq: 0,
                event_route_claimed: false,
                lagged: false,
                legacy_events: run.legacy_events,
                query: None,
            })
        }),
{
}

/// An approval is answered as an interaction exactly where the daemon has them, the run and
/// the session of the request are known, and the session uses them.
pub proof fn approvals_go_by_interaction_where_they_can(client: ClientView, request: Seq<char>)
    ensures
        by_interaction(client, request) <==> client.approval_sessions.contains_key(request)
            && client.approval_turns.contains_key(request) && client.initialization.offering(
            "interactions.v1"@,
        ) && client.interaction_sessions.contains_key(client.approval_sessions[request]),
{
}

} // verus!
