//! One accepted turn: its events, its single final state, and who still asks for it.
//!
//! Event payloads, snapshots and results stay with the host; a number stands for
//! each of them.

use vstd::prelude::*;

use crate::errors::{ErrorView, SdkError};
use crate::text::same_text;

verus! {

/// How many events a run buffers for its reader.
pub const EVENT_CAPACITY: usize = 256;

/// What is known of a run at one moment. `handle` stands for the whole snapshot.
#[derive(Debug)]
pub struct RunSnapshot {
    pub thread_id: String,
    pub turn_id: String,
    /// The run is over.
    pub terminal: bool,
    pub last_seq: u64,
    pub has_result: bool,
    pub handle: u64,
}

/// What an event of a run carries.
#[derive(Debug)]
pub enum RunEventPayload {
    Stream,
    Finished { snapshot: RunSnapshot },
}

/// One event of a run. `handle` stands for the whole event.
#[derive(Debug)]
pub struct RunEvent {
    pub thread_id: String,
    pub turn_id: String,
    pub seq: u64,
    pub handle: u64,
    pub payload: RunEventPayload,
}

/// Whether the reader's buffer takes another event.
#[derive(Clone, Copy, Debug, PartialEq, Eq, Structural)]
pub enum Room {
    Available,
    Full,
    Closed,
}

/// Who asks the daemon for a run that this client did not start.
#[derive(Clone, Copy, Debug, PartialEq, Eq, Structural)]
pub struct QueryOwnership {
    pub waiters: u64,
    pub observed_live: bool,
    pub observed_terminal: bool,
}

/// The state of a run.
#[derive(Debug)]
pub struct RunState {
    pub thread_id: String,
    pub turn_id: String,
    /// Events are still handed to the reader's buffer.
    pub sender_open: bool,
    pub receiver_taken: bool,
    /// The final snapshot, or why there is none.
    pub terminal: Option<Result<u64, String>>,
    pub last_seq: u64,
    pub event_route_claimed: bool,
    pub lagged: bool,
    /// The events that are collected for a caller who wants them all at the end.
    pub legacy_events: Option<Vec<u64>>,
    pub query: Option<QueryOwnership>,
}

/// A [`RunState`] by its texts.
pub struct RunView {
    pub thread: Seq<char>,
    pub turn: Seq<char>,
    pub sender_open: bool,
    pub receiver_taken: bool,
    pub terminal: Option<Result<u64, Seq<char>>>,
    pub last_seq: u64,
    pub event_route_claimed: bool,
    pub lagged: bool,
    pub legacy_events: Option<Seq<u64>>,
    pub query: Option<QueryOwnership>,
}

/// The view of a final state.
pub open spec fn final_state(terminal: Option<Result<u64, String>>) -> Option<
    Result<u64, Seq<char>>,
> {
    match terminal {
        Some(Ok(handle)) => Some(Ok(handle)),
        Some(Err(message)) => Some(Err(message@)),
        None => None,
    }
}

/// The view of a collection of events.
pub open spec fn collected(events: Option<Vec<u64>>) -> Option<Seq<u64>> {
    match events {
        Some(events) => Some(events@),
        None => None,
    }
}

impl View for RunState {
    type V = RunView;

    open spec fn view(&self) -> RunView {
        RunView {
            thread: self.thread_id@,
            turn: self.turn_id@,
            sender_open: self.sender_open,
            receiver_taken: self.receiver_taken,
            terminal: final_state(self.terminal),
            last_seq: self.last_seq,
            event_route_claimed: self.event_route_claimed,
            lagged: self.lagged,
            legacy_events: collected(self.legacy_events),
            query: self.query,
        }
    }
}

/// A run of which nothing is known yet.
pub open spec fn new_run(thread: Seq<char>, turn: Seq<char>, query: bool) -> RunView {
    RunView {
        thread,
        turn,
        sender_open: true,
        receiver_taken: false,
        terminal: None,
        last_seq: 0,
        event_route_claimed: false,
        lagged: false,
        legacy_events: None,
        query: if query {
            Some(QueryOwnership { waiters: 0, observed_live: false, observed_terminal: false })
        } else {
            None
        },
    }
}

/// The run after a failure: it ends with `message` unless it has ended already, and
/// hands on no more events.
pub open spec fn run_failed(run: RunView, message: Seq<char>) -> RunView {
    RunView {
        terminal: match run.terminal {
            Some(terminal) => Some(terminal),
            None => Some(Err(message)),
        },
        sender_open: false,
        ..run
    }
}

/// The snapshot is one of this run.
pub open spec fn snapshot_fits(run: RunView, snapshot: RunSnapshot) -> bool {
    snapshot.thread_id@ == run.thread && snapshot.turn_id@ == run.turn
}

/// The run after a snapshot: a terminal one ends it unless it has ended already.
pub open spec fn run_completed(run: RunView, snapshot: RunSnapshot) -> RunView {
    if !snapshot_fits(run, snapshot) {
        run_failed(run, "Snapshot belongs to another run"@)
    } else if snapshot.terminal && !snapshot.has_result {
        run_failed(run, "Terminal snapshot has no result"@)
    } else if snapshot.terminal {
        RunView {
            terminal: match run.terminal {
                Some(terminal) => Some(terminal),
                None => Some(Ok(snapshot.handle)),
            },
            ..run
        }
    } else {
        run
    }
}

/// The event is one of this run.
pub open spec fn event_fits(run: RunView, event: RunEvent) -> bool {
    event.thread_id@ == run.thread && event.turn_id@ == run.turn
}

/// The event belongs to the run and is newer than everything the run has seen.
pub open spec fn is_news(run: RunView, event: RunEvent) -> bool {
    event_fits(run, event) && event.seq > run.last_seq
}

/// The event goes to the reader.
pub open spec fn is_delivered(run: RunView, event: RunEvent, room: Room) -> bool {
    is_news(run, event) && run.sender_open && event.seq == run.last_seq + 1 && room
        == Room::Available
}

/// The run once it has taken note of a new event, before a final snapshot counts.
pub open spec fn noticed(run: RunView, event: RunEvent, room: Room) -> RunView {
    let gap = event.seq != run.last_seq + 1;
    RunView {
        last_seq: event.seq,
        query: match run.query {
            Some(query) => Some(
                if event.payload is Stream {
                    QueryOwnership { observed_live: true, ..query }
                } else {
                    query
                },
            ),
            None => None,
        },
        legacy_events: match run.legacy_events {
            Some(events) => Some(events.push(event.handle)),
            None => None,
        },
        lagged: run.lagged || gap || (run.sender_open && room == Room::Full),
        sender_open: is_delivered(run, event, room) && event.payload is Stream,
        ..run
    }
}

/// The run after an event.
pub open spec fn run_accepted(run: RunView, event: RunEvent, room: Room) -> RunView {
    if !event_fits(run, event) {
        run_failed(run, "Event belongs to another run"@)
    } else if event.seq <= run.last_seq {
        run
    } else {
        let next = noticed(run, event, room);
        match event.payload {
            RunEventPayload::Stream => next,
            RunEventPayload::Finished { snapshot } => if snapshot.last_seq != event.seq
                || !snapshot.terminal {
                run_failed(next, "Invalid terminal event"@)
            } else {
                run_completed(next, snapshot)
            },
        }
    }
}

/// What the host does with an event.
#[derive(Clone, Copy, Debug, PartialEq, Eq, Structural)]
pub struct Accepted {
    /// The event goes to the reader's buffer.
    pub deliver: bool,
    /// The run's route ends.
    pub ends_route: bool,
}

impl RunState {
    /// A run that this client starts.
    pub fn new(thread_id: String, turn_id: String) -> (run: Self)
        ensures
            run@ == new_run(thread_id@, turn_id@, false),
    {
        RunState::new_inner(thread_id, turn_id, false)
    }

    /// A run that this client asks for.
    pub fn new_query(thread_id: String, turn_id: String) -> (run: Self)
        ensures
            run@ == new_run(thread_id@, turn_id@, true),
    {
        RunState::new_inner(thread_id, turn_id, true)
    }

    fn new_inner(thread_id: String, turn_id: String, query: bool) -> (run: Self)
        ensures
            run@ == new_run(thread_id@, turn_id@, query),
    {
        RunState {
            thread_id,
            turn_id,
            sender_open: true,
            receiver_taken: false,
            terminal: None,
            last_seq: 0,
            event_route_claimed: false,
            lagged: false,
            legacy_events: None,
            query: if query {
                Some(
                    QueryOwnership { waiters: 0, observed_live: false, observed_terminal: false },
                )
            } else {
                None
            },
        }
    }

    /// Collects events from now on for a caller who wants them all at the end,
    /// instead of buffering them for a reader.
    pub fn buffer_legacy_events(&mut self)
        ensures
            final(self)@ == (RunView {
                legacy_events: Some(Seq::empty()),
                sender_open: false,
                ..old(self)@
            }),
    {
        self.legacy_events = Some(Vec::new());
        self.sender_open = false;
        assert(self@.legacy_events->0 =~= Seq::empty());
    }

    /// Hands out the events that were collected.
    pub fn take_legacy_events(&mut self) -> (events: Vec<u64>)
        ensures
            events@ == match old(self)@.legacy_events {
                Some(events) => events,
                None => Seq::empty(),
            },
            final(self)@ == (RunView { legacy_events: None, ..old(self)@ }),
    {
        match self.legacy_events.take() {
            Some(events) => events,
            None => {
                let events: Vec<u64> = Vec::new();
                assert(events@ =~= Seq::empty());
                events
            },
        }
    }

    /// Ends the run with an error, unless it has ended already.
    pub fn fail(&mut self, error: &str)
        ensures
            final(self)@ == run_failed(old(self)@, error@),
    {
        if self.terminal.is_none() {
            self.terminal = Some(Err(error.to_owned()));
        }
        self.sender_open = false;
    }

    /// Takes note of a snapshot of the run.
    pub fn complete(&mut self, snapshot: &RunSnapshot)
        ensures
            final(self)@ == run_completed(old(self)@, *snapshot),
    {
        if !same_text(snapshot.thread_id.as_str(), self.thread_id.as_str()) || !same_text(
            snapshot.turn_id.as_str(),
            self.turn_id.as_str(),
        ) {
            self.fail("Snapshot belongs to another run");
        } else if snapshot.terminal {
            if !snapshot.has_result {
                self.fail("Terminal snapshot has no result");
                return ;
            }
            if self.terminal.is_none() {
                self.terminal = Some(Ok(snapshot.handle));
            }
        }
    }

    /// Ends the reader's stream of a run that was over before anyone asked for it.
    pub fn finish_snapshot_only(&mut self)
        ensures
            final(self)@ == (RunView { sender_open: false, ..old(self)@ }),
    {
        self.sender_open = false;
    }

    /// Whether the run was only asked for, and its end is not known.
    pub fn pending_query(&self) -> (pending: bool)
        ensures
            pending == (self@.query is Some && self@.terminal is None),
    {
        self.query.is_some() && self.terminal.is_none()
    }

    /// Records that a real event came for the run.
    pub fn claim_event_route(&mut self)
        ensures
            final(self)@ == (RunView { event_route_claimed: true, ..old(self)@ }),
    {
        self.event_route_claimed = true;
    }

    /// Takes an event. `room` is what the reader's buffer would answer. Events of
    /// other runs fail the run, old ones are dropped, and a missing one or a full
    /// buffer ends the reader's stream.
    pub fn accept(&mut self, event: RunEvent, room: Room) -> (accepted: Accepted)
        ensures
            final(self)@ == run_accepted(old(self)@, event, room),
            accepted.deliver == is_delivered(old(self)@, event, room),
            accepted.ends_route == (is_news(old(self)@, event) && event.payload is Finished),
    {
        if !same_text(event.thread_id.as_str(), self.thread_id.as_str()) || !same_text(
            event.turn_id.as_str(),
            self.turn_id.as_str(),
        ) {
            self.fail("Event belongs to another run");
            return Accepted { deliver: false, ends_route: false };
        }
        let previous: u64 = self.last_seq;
        if event.seq <= previous {
            return Accepted { deliver: false, ends_route: false };
        }
        self.last_seq = event.seq;
        if let RunEventPayload::Stream = event.payload {
            if let Some(query) = self.query {
                self.query = Some(QueryOwnership { observed_live: true, ..query });
            }
        }
        if let Some(events) = self.legacy_events.take() {
            let mut events = events;
            events.push(event.handle);
            self.legacy_events = Some(events);
        }
        let mut deliver = false;
        if event.seq != previous + 1 {
            self.lagged = true;
            self.sender_open = false;
        }
        if self.sender_open {
            match room {
                Room::Available => {
                    deliver = true;
                },
                Room::Full => {
                    self.lagged = true;
                    self.sender_open = false;
                },
                Room::Closed => {
                    self.sender_open = false;
                },
            }
        }
        match event.payload {
            RunEventPayload::Finished { snapshot } => {
                self.sender_open = false;
                if snapshot.last_seq != event.seq || !snapshot.terminal {
                    self.fail("Invalid terminal event");
                } else {
                    self.complete(&snapshot);
                }
                Accepted { deliver, ends_route: true }
            },
            RunEventPayload::Stream => Accepted { deliver, ends_route: false },
        }
    }

    /// Takes the one reader's place.
    pub fn events(&mut self) -> (result: Result<(), SdkError>)
        ensures
            match result {
                Ok(()) => {
                    &&& !old(self)@.receiver_taken
                    &&& final(self)@ == (RunView { receiver_taken: true, ..old(self)@ })
                },
                Err(error) => {
                    &&& old(self)@.receiver_taken
                    &&& error@ == ErrorView::AlreadySubscribed
                    &&& final(self)@ == old(self)@
                },
            },
    {
        if self.receiver_taken {
            return Err(SdkError::AlreadySubscribed);
        }
        self.receiver_taken = true;
        Ok(())
    }

    /// The final result, if the run has ended.
    pub fn result(&self) -> (result: Option<Result<u64, SdkError>>)
        ensures
            match result {
                None => self@.terminal is None,
                Some(Ok(handle)) => self@.terminal == Some(Ok::<u64, Seq<char>>(handle)),
                Some(Err(error)) => {
                    &&& self@.terminal is Some
                    &&& self@.terminal->0 is Err
                    &&& error@ == ErrorView::ChannelClosed(self@.terminal->0->Err_0)
                },
            },
    {
        match &self.terminal {
            None => None,
            Some(Ok(handle)) => Some(Ok(*handle)),
            Some(Err(message)) => Some(Err(SdkError::ChannelClosed(message.clone()))),
        }
    }

    /// One more caller asks for the run.
    pub fn acquire(&mut self)
        requires
            old(self)@.query matches Some(query) ==> query.waiters < u64::MAX,
        ensures
            final(self)@ == run_asked(old(self)@),
    {
        if let Some(query) = self.query {
            self.query = Some(QueryOwnership { waiters: query.waiters + 1, ..query });
        }
    }

    /// A caller who asked for the run saw this snapshot.
    pub fn observe(&mut self, snapshot: &RunSnapshot)
        ensures
            final(self)@ == run_observed(old(self)@, *snapshot),
    {
        if let Some(query) = self.query {
            if same_text(snapshot.thread_id.as_str(), self.thread_id.as_str()) && same_text(
                snapshot.turn_id.as_str(),
                self.turn_id.as_str(),
            ) {
                if snapshot.terminal {
                    self.query = Some(QueryOwnership { observed_terminal: true, ..query });
                } else {
                    self.query = Some(QueryOwnership { observed_live: true, ..query });
                }
            }
        }
    }

    /// A caller who asked for the run is gone. The result says whether the run's
    /// route goes with it: that is so for the last one, where nobody saw the run
    /// alive.
    pub fn release(&mut self) -> (drop_route: bool)
        requires
            old(self)@.query matches Some(query) ==> query.waiters > 0,
        ensures
            (final(self)@, drop_route) == run_released(old(self)@),
    {
        if let Some(query) = self.query {
            let waiters: u64 = query.waiters - 1;
            self.query = Some(QueryOwnership { waiters, ..query });
            if waiters == 0 && !query.observed_live {
                if query.observed_terminal {
                    self.finish_snapshot_only();
                }
                return true;
            }
        }
        false
    }
}

/// The run when one more caller asks for it.
pub open spec fn run_asked(run: RunView) -> RunView {
    match run.query {
        Some(query) => RunView {
            query: Some(QueryOwnership { waiters: (query.waiters + 1) as u64, ..query }),
            ..run
        },
        None => run,
    }
}

/// The run when a caller who asked for it saw `snapshot`.
pub open spec fn run_observed(run: RunView, snapshot: RunSnapshot) -> RunView {
    match run.query {
        Some(query) => if !snapshot_fits(run, snapshot) {
            run
        } else if snapshot.terminal {
            RunView {
                query: Some(QueryOwnership { observed_terminal: true, ..query }),
                ..run
            }
        } else {
            RunView { query: Some(QueryOwnership { observed_live: true, ..query }), ..run }
        },
        None => run,
    }
}

/// The run when a caller who asked for it is gone, and whether its route goes too.
pub open spec fn run_released(run: RunView) -> (RunView, bool) {
    match run.query {
        Some(query) => {
            let last = query.waiters == 1 && !query.observed_live;
            (
                RunView {
                    query: Some(QueryOwnership { waiters: (query.waiters - 1) as u64, ..query }),
                    sender_open: run.sender_open && !(last && query.observed_terminal),
                    ..run
                },
                last,
            )
        },
        None => (run, false),
    }
}

/// The reader of a run's buffered events.
#[derive(Clone, Copy, Debug, PartialEq, Eq, Structural)]
pub struct RunEventStream {
    pub ended: bool,
}

/// What a reader of buffered events gets.
#[derive(Debug)]
pub enum RunReceived {
    Event(u64),
    Failed(SdkError),
    End,
    Wait,
}

impl RunEventStream {
    /// Asks for the next event before waiting for the buffer.
    pub fn poll(&mut self, run: &RunState) -> (received: RunReceived)
        ensures
            match received {
                RunReceived::End => old(self).ended && *final(self) == *old(self),
                RunReceived::Failed(error) => {
                    &&& !old(self).ended
                    &&& run@.lagged
                    &&& error@ == ErrorView::EventLagged
                    &&& final(self).ended
                },
                RunReceived::Wait => {
                    &&& !old(self).ended
                    &&& !run@.lagged
                    &&& *final(self) == *old(self)
                },
                RunReceived::Event(_) => false,
            },
    {
        if self.ended {
            return RunReceived::End;
        }
        if run.lagged {
            self.ended = true;
            return RunReceived::Failed(SdkError::EventLagged);
        }
        RunReceived::Wait
    }

    /// Takes what the buffer gave: an event, or nothing where no more will come.
    pub fn wake(&mut self, run: &RunState, item: Option<u64>) -> (received: RunReceived)
        requires
            !old(self).ended,
        ensures
            final(self).ended == (run@.lagged || item is None),
            match received {
                RunReceived::Event(handle) => !run@.lagged && item == Some(handle),
                RunReceived::Failed(error) => if run@.lagged {
                    error@ == ErrorView::EventLagged
                } else {
                    &&& item is None
                    &&& run@.terminal is Some
                    &&& run@.terminal->0 is Err
                    &&& error@ == ErrorView::ChannelClosed(run@.terminal->0->Err_0)
                },
                RunReceived::End => {
                    &&& !run@.lagged
                    &&& item is None
                    &&& run@.terminal is None || run@.terminal->0 is Ok
                },
                RunReceived::Wait => false,
            },
    {
        if run.lagged {
            self.ended = true;
            return RunReceived::Failed(SdkError::EventLagged);
        }
        match item {
            Some(handle) => RunReceived::Event(handle),
            None => {
                self.ended = true;
                match &run.terminal {
                    Some(Err(message)) => RunReceived::Failed(
                        SdkError::ChannelClosed(message.clone()),
                    ),
                    _ => RunReceived::End,
                }
            },
        }
    }
}

/// The error of a run whose result can no longer come.
pub fn result_lost() -> (error: SdkError)
    ensures
        error@ == ErrorView::ChannelClosed("Run result channel closed"@),
{
    SdkError::ChannelClosed("Run result channel closed".to_owned())
}

/// What a turn that was collected as a whole ends with.
#[derive(Debug)]
pub enum LegacyEnd {
    TurnCompleted,
    TurnFailed { code: String, message: String },
}

/// The closing event of a collected turn: a run that did not complete reports its
/// error, or that it was cancelled.
pub fn legacy_end(completed: bool, error: Option<(String, String)>) -> (end: LegacyEnd)
    ensures
        match end {
            LegacyEnd::TurnCompleted => completed,
            LegacyEnd::TurnFailed { code, message } => !completed && match error {
                Some(error) => code@ == error.0@ && message@ == error.1@,
                None => code@ == "cancelled"@ && message@ == "Run cancelled"@,
            },
        },
{
    if completed {
        return LegacyEnd::TurnCompleted;
    }
    match error {
        Some((code, message)) => LegacyEnd::TurnFailed { code, message },
        None => LegacyEnd::TurnFailed {
            code: "cancelled".to_owned(),
            message: "Run cancelled".to_owned(),
        },
    }
}

/// Whether the daemon accepted the turn that it was asked to start.
pub fn check_started(
    accepted_thread: &str,
    accepted_turn: &str,
    thread_id: &str,
    turn_id: &str,
) -> (result: Result<(), SdkError>)
    ensures
        crate::errors::outcome(result) == if accepted_thread@ == thread_id@ && accepted_turn@
            == turn_id@ {
            Ok(())
        } else {
            Err(ErrorView::Internal("Daemon returned a different run identity"@))
        },
{
    if same_text(accepted_turn, turn_id) && same_text(accepted_thread, thread_id) {
        Ok(())
    } else {
        Err(SdkError::Internal("Daemon returned a different run identity".to_owned()))
    }
}

/// A run has one final state: once it has one, no event, snapshot or failure changes
/// it.
pub proof fn final_state_is_single(
    run: RunView,
    event: RunEvent,
    room: Room,
    snapshot: RunSnapshot,
    message: Seq<char>,
)
    requires
        run.terminal is Some,
    ensures
        run_accepted(run, event, room).terminal == run.terminal,
        run_completed(run, snapshot).terminal == run.terminal,
        run_failed(run, message).terminal == run.terminal,
        run_observed(run, snapshot).terminal == run.terminal,
        run_released(run).0.terminal == run.terminal,
        run_asked(run).terminal == run.terminal,
{
}

/// The sequence number of a run never goes back, and a stream to the reader that has
/// ended never starts again.
pub proof fn run_moves_forward(run: RunView, event: RunEvent, room: Room)
    ensures
        run_accepted(run, event, room).last_seq >= run.last_seq,
        !run.sender_open ==> !run_accepted(run, event, room).sender_open,
        run.lagged ==> run_accepted(run, event, room).lagged,
{
}

/// The run after a series of events, each with what the reader's buffer answered.
pub open spec fn run_after(run: RunView, events: Seq<(RunEvent, Room)>) -> RunView
    decreases events.len(),
{
    if events.len() == 0 {
        run
    } else {
        let (event, room) = events.last();
        run_accepted(run_after(run, events.drop_last()), event, room)
    }
}

/// The events of a series that went to the reader.
pub open spec fn run_delivered(run: RunView, events: Seq<(RunEvent, Room)>) -> Seq<RunEvent>
    decreases events.len(),
{
    if events.len() == 0 {
        Seq::empty()
    } else {
        let (event, room) = events.last();
        let before = run_delivered(run, events.drop_last());
        if is_delivered(run_after(run, events.drop_last()), event, room) {
            before.push(event)
        } else {
            before
        }
    }
}

/// A reader gets the events of its run from the first one on, in order, without gaps
/// and each once, whatever comes in; while its stream is open it has got them all.
pub proof fn reader_gets_a_gapless_prefix(
    thread: Seq<char>,
    turn: Seq<char>,
    query: bool,
    events: Seq<(RunEvent, Room)>,
)
    ensures
        ({
            let run = run_after(new_run(thread, turn, query), events);
            let seen = run_delivered(new_run(thread, turn, query), events);
            &&& run.thread == thread
            &&& run.turn == turn
            &&& seen.len() <= run.last_seq
            &&& run.sender_open ==> seen.len() == run.last_seq
            &&& forall|i: int|
                0 <= i < seen.len() ==> {
                    &&& (#[trigger] seen[i]).seq == i + 1
                    &&& seen[i].thread_id@ == thread
                    &&& seen[i].turn_id@ == turn
                }
        }),
    decreases events.len(),
{
    if events.len() > 0 {
        reader_gets_a_gapless_prefix(thread, turn, query, events.drop_last());
    }
}

/// The route of a run that was only asked for stays while anyone asks, and stays for
/// good once anyone saw the run alive.
pub proof fn route_outlives_every_caller_but_the_last(run: RunView)
    requires
        run.query matches Some(query) ==> query.waiters > 0,
    ensures
        run_released(run).1 ==> {
            &&& run.query->0.waiters == 1
            &&& !run.query->0.observed_live
        },
        run.query matches Some(query) && query.waiters == 1 && !query.observed_live
            ==> run_released(run).1,
{
}

/// A run that has not ended completes with the snapshot of its last event, whatever the
/// reader's buffer answers and whether or not the reader has fallen behind.
pub proof fn last_event_completes_the_run(
    run: RunView,
    event: RunEvent,
    room: Room,
    snapshot: RunSnapshot,
)
    requires
        run.terminal is None,
        event.thread_id@ == run.thread,
        event.turn_id@ == run.turn,
        event.seq > run.last_seq,
        event.payload == (RunEventPayload::Finished { snapshot }),
        snapshot.thread_id@ == run.thread,
        snapshot.turn_id@ == run.turn,
        snapshot.terminal,
        snapshot.has_result,
        snapshot.last_seq == event.seq,
    ensures
        run_accepted(run, event, room).terminal == Some(Ok::<u64, Seq<char>>(snapshot.handle)),
        !run_accepted(run, event, room).sender_open,
{
}

/// A last event that does not hold what a last event has to hold fails the run: it never
/// completes with such a snapshot.
pub proof fn broken_last_event_fails_the_run(
    run: RunView,
    event: RunEvent,
    room: Room,
    snapshot: RunSnapshot,
)
    requires
        run.terminal is None,
        event.thread_id@ == run.thread,
        event.turn_id@ == run.turn,
        event.seq > run.last_seq,
        event.payload == (RunEventPayload::Finished { snapshot }),
        snapshot.thread_id@ != run.thread || snapshot.turn_id@ != run.turn || !snapshot.terminal
            || !snapshot.has_result || snapshot.last_seq != event.seq,
    ensures
        ({
            let after = run_accepted(run, event, room);
            &&& after.terminal is Some
            &&& after.terminal->0 is Err
            &&& after.terminal->0->Err_0 == if snapshot.last_seq != event.seq
                || !snapshot.terminal {
                "Invalid terminal event"@
            } else if snapshot.thread_id@ != run.thread || snapshot.turn_id@ != run.turn {
                "Snapshot belongs to another run"@
            } else {
                "Terminal snapshot has no result"@
            }
            &&& !after.sender_open
        }),
{
}

/// An event of another run fails the run and is not handed on.
pub proof fn foreign_event_fails_the_run(run: RunView, event: RunEvent, room: Room)
    requires
        event.thread_id@ != run.thread || event.turn_id@ != run.turn,
    ensures
        !is_delivered(run, event, room),
        !is_news(run, event),
        run_accepted(run, event, room) == (RunView {
            terminal: if run.terminal is Some {
                run.terminal
            } else {
                Some(Err("Event belongs to another run"@))
            },
            sender_open: false,
            ..run
        }),
{
}

/// An event that the run has seen already, or one before it, changes nothing.
pub proof fn old_event_changes_nothing(run: RunView, event: RunEvent, room: Room)
    requires
        event.thread_id@ == run.thread,
        event.turn_id@ == run.turn,
        event.seq <= run.last_seq,
    ensures
        run_accepted(run, event, room) == run,
        !is_delivered(run, event, room),
        !is_news(run, event),
{
}

/// A new event that is not the last one leaves the run without an end, even where the reader
/// misses it.
pub proof fn streamed_event_never_ends_the_run(run: RunView, event: RunEvent, room: Room)
    requires
        event.thread_id@ == run.thread,
        event.turn_id@ == run.turn,
        event.payload is Stream,
    ensures
        run_accepted(run, event, room).terminal == run.terminal,
{
}

/// A reader gets an event exactly where it is the next one, nothing has been missed before,
/// and the buffer has room. Its stream stays open then, unless the event is the last one.
pub proof fn next_event_is_delivered(run: RunView, event: RunEvent, room: Room)
    requires
        event.thread_id@ == run.thread,
        event.turn_id@ == run.turn,
        event.seq > run.last_seq,
    ensures
        is_news(run, event),
        is_delivered(run, event, room) <==> run.sender_open && event.seq == run.last_seq + 1
            && room == Room::Available,
        event.payload is Stream ==> run_accepted(run, event, room).sender_open == (run.sender_open
            && event.seq == run.last_seq + 1 && room == Room::Available),
        run_accepted(run, event, room).last_seq == event.seq,
{
}

/// The reader is told that it fell behind exactly where an event was missing, or where its
/// buffer was full while its stream was open.
pub proof fn lag_is_told_exactly(run: RunView, event: RunEvent, room: Room)
    requires
        event.thread_id@ == run.thread,
        event.turn_id@ == run.turn,
        event.seq > run.last_seq,
    ensures
        run_accepted(run, event, room).lagged <==> {
            ||| run.lagged
            ||| event.seq > run.last_seq + 1
            ||| run.sender_open && room == Room::Full
        },
{
}

/// A turn that is collected as a whole keeps every new event, in order, and no other.
pub proof fn collected_turn_keeps_every_new_event(run: RunView, event: RunEvent, room: Room)
    requires
        event.thread_id@ == run.thread,
        event.turn_id@ == run.turn,
        event.seq > run.last_seq,
    ensures
        run_accepted(run, event, room).legacy_events == match run.legacy_events {
            Some(kept) => Some(kept + seq![event.handle]),
            None => None,
        },
{
    if run.legacy_events is Some {
        let kept = run.legacy_events->0;
        assert(kept.push(event.handle) =~= kept + seq![event.handle]);
    }
}

/// An event changes neither which run it is, nor who reads it, nor how many ask for it. A run
/// that was asked for counts as seen alive with the first new event that is not its last.
pub proof fn event_leaves_the_callers_alone(run: RunView, event: RunEvent, room: Room)
    ensures
        ({
            let after = run_accepted(run, event, room);
            &&& after.thread == run.thread
            &&& after.turn == run.turn
            &&& after.receiver_taken == run.receiver_taken
            &&& after.event_route_claimed == run.event_route_claimed
            &&& after.query is Some == run.query is Some
            &&& run.query matches Some(query) ==> {
                &&& after.query->0.waiters == query.waiters
                &&& after.query->0.observed_terminal == query.observed_terminal
                &&& after.query->0.observed_live == (query.observed_live || (event.thread_id@
                    == run.thread && event.turn_id@ == run.turn && event.seq > run.last_seq
                    && event.payload is Stream))
            }
        }),
{
}

/// The events from the first to the last one, each when the buffer has room.
pub open spec fn in_turn(
    thread: Seq<char>,
    turn: Seq<char>,
    events: Seq<(RunEvent, Room)>,
) -> bool {
    forall|i: int|
        0 <= i < events.len() ==> {
            &&& (#[trigger] events[i]).0.thread_id@ == thread
            &&& events[i].0.turn_id@ == turn
            &&& events[i].0.seq == i + 1
            &&& events[i].0.payload is Stream
            &&& events[i].1 == Room::Available
        }
}

/// A reader that keeps up gets every event of its run.
pub proof fn prompt_reader_gets_every_event(
    thread: Seq<char>,
    turn: Seq<char>,
    query: bool,
    events: Seq<(RunEvent, Room)>,
)
    requires
        in_turn(thread, turn, events),
    ensures
        ({
            let start = new_run(thread, turn, query);
            let after = run_after(start, events);
            &&& run_delivered(start, events) == events.map_values(|item: (RunEvent, Room)| item.0)
            &&& after.sender_open
            &&& !after.lagged
            &&& after.terminal is None
            &&& after.last_seq == events.len()
            &&& after.thread == thread
            &&& after.turn == turn
        }),
    decreases events.len(),
{
    let start = new_run(thread, turn, query);
    let all = events.map_values(|item: (RunEvent, Room)| item.0);
    if events.len() > 0 {
        let before = events.drop_last();
        assert forall|i: int| 0 <= i < before.len() implies {
            &&& (#[trigger] before[i]).0.thread_id@ == thread
            &&& before[i].0.turn_id@ == turn
            &&& before[i].0.seq == i + 1
            &&& before[i].0.payload is Stream
            &&& before[i].1 == Room::Available
        } by {
            assert(before[i] == events[i]);
        }
        prompt_reader_gets_every_event(thread, turn, query, before);
        assert(events.last() == events[events.len() - 1]);
        assert(run_delivered(start, events) =~= all);
    } else {
        assert(run_delivered(start, events) =~= all);
    }
}

/// A snapshot of the run that is final and holds a result completes a run that has not ended;
/// one of a run that goes on changes nothing.
pub proof fn snapshot_completes_its_run(run: RunView, snapshot: RunSnapshot)
    requires
        snapshot.thread_id@ == run.thread,
        snapshot.turn_id@ == run.turn,
        run.terminal is None,
    ensures
        !snapshot.terminal ==> run_completed(run, snapshot) == run,
        snapshot.terminal && snapshot.has_result ==> run_completed(run, snapshot) == (RunView {
            terminal: Some(Ok(snapshot.handle)),
            ..run
        }),
        snapshot.terminal && !snapshot.has_result ==> run_completed(run, snapshot).terminal
            == Some(Err::<u64, Seq<char>>("Terminal snapshot has no result"@)),
{
}

/// A snapshot of another run never completes this one: it fails it.
pub proof fn foreign_snapshot_fails_the_run(run: RunView, snapshot: RunSnapshot)
    requires
        snapshot.thread_id@ != run.thread || snapshot.turn_id@ != run.turn,
        run.terminal is None,
    ensures
        run_completed(run, snapshot).terminal == Some(
            Err::<u64, Seq<char>>("Snapshot belongs to another run"@),
        ),
        run_observed(run, snapshot) == run,
{
}

/// A failure ends a run that has not ended with its message, and ends the reader's stream.
pub proof fn failure_is_told(run: RunView, message: Seq<char>)
    ensures
        run.terminal is None ==> run_failed(run, message).terminal == Some(
            Err::<u64, Seq<char>>(message),
        ),
        run_failed(run, message) == (RunView {
            terminal: run_failed(run, message).terminal,
            sender_open: false,
            ..run
        }),
{
}

/// A new run knows of no event and no end; whoever reads it can read from the first event on.
pub proof fn new_run_starts_at_the_first_event(thread: Seq<char>, turn: Seq<char>, query: bool)
    ensures
        ({
            let run = new_run(thread, turn, query);
            &&& run.thread == thread
            &&& run.turn == turn
            &&& run.sender_open
            &&& !run.receiver_taken
            &&& run.terminal is None
            &&& run.last_seq == 0
            &&& !run.event_route_claimed
            &&& !run.lagged
            &&& run.legacy_events is None
            &&& run.query is Some == query
            &&& query ==> run.query->0.waiters == 0 && !run.query->0.observed_live
                && !run.query->0.observed_terminal
        }),
{
}

/// Callers of a run that was asked for are counted: one who comes and goes leaves the count
/// and the run as they were, but for the stream of a run that was over before anyone asked.
pub proof fn callers_are_counted(run: RunView)
    requires
        run.query matches Some(query) && query.waiters < u64::MAX,
    ensures
        run_asked(run) == (RunView {
            query: Some(
                QueryOwnership { waiters: (run.query->0.waiters + 1) as u64, ..run.query->0 },
            ),
            ..run
        }),
        run_released(run_asked(run)).0.query == run.query,
        run_released(run_asked(run)).0 == (RunView {
            sender_open: run_released(run_asked(run)).0.sender_open,
            ..run
        }),
        run_released(run_asked(run)).0.sender_open == (run.sender_open && !(
        run.query->0.waiters == 0 && !run.query->0.observed_live
            && run.query->0.observed_terminal)),
{
}

/// What a caller saw of a run is remembered: that it was alive, or that it was over.
pub proof fn observation_is_remembered(run: RunView, snapshot: RunSnapshot)
    requires
        run.query is Some,
        snapshot.thread_id@ == run.thread,
        snapshot.turn_id@ == run.turn,
    ensures
        run_observed(run, snapshot) == (RunView { query: run_observed(run, snapshot).query, ..run }),
        run_observed(run, snapshot).query is Some,
        run_observed(run, snapshot).query->0.waiters == run.query->0.waiters,
        run_observed(run, snapshot).query->0.observed_live == (run.query->0.observed_live
            || !snapshot.terminal),
        run_observed(run, snapshot).query->0.observed_terminal == (run.query->0.observed_terminal
            || snapshot.terminal),
{
}

/// A run that this client started has no callers to count.
pub proof fn started_run_is_not_counted(run: RunView, snapshot: RunSnapshot)
    requires
        run.query is None,
    ensures
        run_asked(run) == run,
        run_observed(run, snapshot) == run,
        run_released(run) == (run, false),
{
}

/// A snapshot changes nothing of a run but its end and its stream: one of another run, or a
/// final one without a result, ends the stream, and no other does.
pub proof fn snapshot_leaves_the_rest_alone(run: RunView, snapshot: RunSnapshot)
    ensures
        ({
            let after = run_completed(run, snapshot);
            let fits = snapshot.thread_id@ == run.thread && snapshot.turn_id@ == run.turn;
            &&& after == (RunView {
                terminal: after.terminal,
                sender_open: after.sender_open,
                ..run
            })
            &&& after.sender_open == (run.sender_open && fits && !(snapshot.terminal
                && !snapshot.has_result))
            &&& snapshot_fits(run, snapshot) == fits
        }),
{
}

/// The last event of a run ends the reader's stream, whatever it holds, and takes the run's
/// number to its own.
pub proof fn last_event_ends_the_stream(run: RunView, event: RunEvent, room: Room)
    requires
        event.thread_id@ == run.thread,
        event.turn_id@ == run.turn,
        event.seq > run.last_seq,
        event.payload is Finished,
    ensures
        !run_accepted(run, event, room).sender_open,
        run_accepted(run, event, room).last_seq == event.seq,
        run.terminal is None ==> run_accepted(run, event, room).terminal is Some,
{
}

/// An event belongs to a run where both its session and its turn are the run's, and is news
/// where its number is beyond all that the run has seen.
pub proof fn news_are_newer_events_of_the_run(run: RunView, event: RunEvent, room: Room)
    ensures
        event_fits(run, event) <==> event.thread_id@ == run.thread && event.turn_id@ == run.turn,
        is_news(run, event) <==> event.thread_id@ == run.thread && event.turn_id@ == run.turn
            && event.seq > run.last_seq,
        is_delivered(run, event, room) <==> event.thread_id@ == run.thread && event.turn_id@
            == run.turn && run.sender_open && event.seq == run.last_seq + 1 && room
            == Room::Available,
{
}

/// A final state and a collection of events are shown as they are.
pub proof fn states_are_shown_as_they_are(handle: u64, message: String, events: Vec<u64>)
    ensures
        final_state(Some(Ok(handle))) == Some(Ok::<u64, Seq<char>>(handle)),
        final_state(Some(Err(message))) == Some(Err::<u64, Seq<char>>(message@)),
        final_state(None) is None,
        collected(Some(events)) == Some(events@),
        collected(None) is None,
{
}

/// A snapshot of another run tells nothing of this one to those who ask for it.
pub proof fn foreign_snapshot_is_not_observed(run: RunView, snapshot: RunSnapshot)
    requires
        snapshot.thread_id@ != run.thread || snapshot.turn_id@ != run.turn,
    ensures
        run_observed(run, snapshot) == run,
{
}

} // verus!
