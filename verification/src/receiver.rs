//! The reading end of a subscription.

use vstd::prelude::*;

use crate::stream::{opt_cursor, Cursor, CursorView, StreamEvent, StreamKind};

verus! {

/// How a hub ended.
#[derive(Debug, PartialEq, Eq)]
pub enum HubTermination {
    SessionClosed,
    ConnectionLost(String),
}

/// A [`HubTermination`] by its text.
pub enum TerminationView {
    SessionClosed,
    ConnectionLost(Seq<char>),
}

impl View for HubTermination {
    type V = TerminationView;

    open spec fn view(&self) -> TerminationView {
        match *self {
            HubTermination::SessionClosed => TerminationView::SessionClosed,
            HubTermination::ConnectionLost(message) => TerminationView::ConnectionLost(message@),
        }
    }
}

/// The view of what a hub says about its end.
pub open spec fn opt_termination(termination: Option<HubTermination>) -> Option<TerminationView> {
    match termination {
        Some(termination) => Some(termination@),
        None => None,
    }
}

impl Clone for HubTermination {
    fn clone(&self) -> (copy: Self)
        ensures
            copy@ == self@,
    {
        match self {
            HubTermination::SessionClosed => HubTermination::SessionClosed,
            HubTermination::ConnectionLost(message) => HubTermination::ConnectionLost(
                message.clone(),
            ),
        }
    }
}

/// What woke a reader.
#[derive(Debug)]
pub enum Signal<P, E> {
    /// The hub's end was announced, or the hub is gone without a word.
    TerminationChanged { hub_gone: bool },
    Event(StreamEvent<P>),
    Failed(E),
    /// The worker has stopped.
    WorkerGone,
}

/// What a reader gets.
#[derive(Debug)]
pub enum Received<P, E> {
    Event(StreamEvent<P>),
    Failed(E),
    /// The connection was lost; the text says how.
    Lost(String),
    End,
    /// Nothing yet: wait for the next signal.
    Wait,
}

/// A [`Received`] by its text.
pub enum ReceivedView<P, E> {
    Event(StreamEvent<P>),
    Failed(E),
    Lost(Seq<char>),
    End,
    Wait,
}

impl<P, E> View for Received<P, E> {
    type V = ReceivedView<P, E>;

    open spec fn view(&self) -> ReceivedView<P, E> {
        match *self {
            Received::Event(event) => ReceivedView::Event(event),
            Received::Failed(error) => ReceivedView::Failed(error),
            Received::Lost(message) => ReceivedView::Lost(message@),
            Received::End => ReceivedView::End,
            Received::Wait => ReceivedView::Wait,
        }
    }
}

/// The state of a reader.
#[derive(Debug)]
pub struct EventReceiver {
    pub kind: StreamKind,
    pub ended: bool,
    pub last_received: Option<Cursor>,
}

/// An [`EventReceiver`] by its texts.
pub struct ReceiverView {
    pub kind: StreamKind,
    pub ended: bool,
    pub last_received: Option<CursorView>,
}

impl View for EventReceiver {
    type V = ReceiverView;

    open spec fn view(&self) -> ReceiverView {
        ReceiverView {
            kind: self.kind,
            ended: self.ended,
            last_received: opt_cursor(self.last_received),
        }
    }
}

/// What a reader gets from a hub that has ended.
pub open spec fn termination_item<P, E>(termination: TerminationView) -> ReceivedView<P, E> {
    match termination {
        TerminationView::SessionClosed => ReceivedView::End,
        TerminationView::ConnectionLost(message) => ReceivedView::Lost(message),
    }
}

/// What a reader is told about a hub that is gone without a word.
pub open spec fn hub_stopped_text(kind: StreamKind) -> Seq<char> {
    match kind {
        StreamKind::Session => "Session event hub stopped"@,
        StreamKind::Management => "V2 Session event hub stopped"@,
        StreamKind::Interaction => "Interaction event hub stopped"@,
    }
}

/// The reader once it has ended.
pub open spec fn over(receiver: ReceiverView) -> ReceiverView {
    ReceiverView { ended: true, ..receiver }
}

/// What a reader gets before it waits.
pub open spec fn polled<P, E>(receiver: ReceiverView, termination: Option<TerminationView>) -> (
    ReceiverView,
    ReceivedView<P, E>,
) {
    if receiver.ended {
        (receiver, ReceivedView::End)
    } else {
        match termination {
            Some(termination) => (over(receiver), termination_item(termination)),
            None => (receiver, ReceivedView::Wait),
        }
    }
}

/// What a waiting reader gets from a signal.
pub open spec fn woken<P, E>(
    receiver: ReceiverView,
    signal: Signal<P, E>,
    termination: Option<TerminationView>,
) -> (ReceiverView, ReceivedView<P, E>) {
    match signal {
        Signal::TerminationChanged { hub_gone } => match termination {
            Some(termination) => (over(receiver), termination_item(termination)),
            None => if hub_gone {
                (over(receiver), ReceivedView::Lost(hub_stopped_text(receiver.kind)))
            } else {
                (receiver, ReceivedView::Wait)
            },
        },
        Signal::Event(event) => (
            ReceiverView { last_received: Some(event.cursor@), ..receiver },
            ReceivedView::Event(event),
        ),
        Signal::Failed(error) => (over(receiver), ReceivedView::Failed(error)),
        Signal::WorkerGone => match termination {
            Some(termination) => (over(receiver), termination_item(termination)),
            None => (over(receiver), ReceivedView::End),
        },
    }
}

impl EventReceiver {
    /// A reader that has received nothing yet.
    pub fn new(kind: StreamKind) -> (receiver: Self)
        ensures
            receiver@ == (ReceiverView { kind, ended: false, last_received: None }),
    {
        EventReceiver { kind, ended: false, last_received: None }
    }

    /// The position of the last event that was received.
    pub fn last_received(&self) -> (cursor: Option<&Cursor>)
        ensures
            match cursor {
                Some(cursor) => self@.last_received == Some(cursor@),
                None => self@.last_received is None,
            },
    {
        self.last_received.as_ref()
    }

    fn finish<P, E>(&mut self, termination: HubTermination) -> (received: Received<P, E>)
        ensures
            final(self)@ == over(old(self)@),
            received@ == termination_item::<P, E>(termination@),
    {
        self.ended = true;
        match termination {
            HubTermination::SessionClosed => Received::End,
            HubTermination::ConnectionLost(message) => Received::Lost(message),
        }
    }

    /// Asks for the next item before waiting for a signal. `termination` is what the
    /// hub currently says about its end.
    pub fn poll<P, E>(&mut self, termination: Option<HubTermination>) -> (received: Received<P, E>)
        ensures
            (final(self)@, received@) == polled::<P, E>(old(self)@, opt_termination(termination)),
    {
        if self.ended {
            return Received::End;
        }
        match termination {
            Some(termination) => self.finish(termination),
            None => Received::Wait,
        }
    }

    /// Takes the signal that ended a wait.
    pub fn wake<P, E>(
        &mut self,
        signal: Signal<P, E>,
        termination: Option<HubTermination>,
    ) -> (received: Received<P, E>)
        requires
            !old(self)@.ended,
        ensures
            (final(self)@, received@) == woken::<P, E>(
                old(self)@,
                signal,
                opt_termination(termination),
            ),
    {
        match signal {
            Signal::TerminationChanged { hub_gone } => match termination {
                Some(termination) => self.finish(termination),
                None => {
                    if hub_gone {
                        self.ended = true;
                        let text = match self.kind {
                            StreamKind::Session => "Session event hub stopped",
                            StreamKind::Management => "V2 Session event hub stopped",
                            StreamKind::Interaction => "Interaction event hub stopped",
                        };
                        Received::Lost(text.to_owned())
                    } else {
                        Received::Wait
                    }
                },
            },
            Signal::Event(event) => {
                self.last_received = Some(event.cursor.clone());
                Received::Event(event)
            },
            Signal::Failed(error) => {
                self.ended = true;
                Received::Failed(error)
            },
            Signal::WorkerGone => match termination {
                Some(termination) => self.finish(termination),
                None => {
                    self.ended = true;
                    Received::End
                },
            },
        }
    }
}

/// An error, a lost connection or an end is the last thing a reader gets: from then
/// on every attempt to receive ends at once.
pub proof fn reader_ends_once<P, E>(
    receiver: ReceiverView,
    signal: Signal<P, E>,
    termination: Option<TerminationView>,
    later: Option<TerminationView>,
)
    requires
        !receiver.ended,
    ensures
        ({
            let (next, received) = woken::<P, E>(receiver, signal, termination);
            !(received is Event) && !(received is Wait) ==> polled::<P, E>(next, later) == (
                next,
                ReceivedView::<P, E>::End,
            )
        }),
        ({
            let (next, received) = polled::<P, E>(receiver, termination);
            !(received is Wait) ==> polled::<P, E>(next, later) == (
                next,
                ReceivedView::<P, E>::End,
            )
        }),
{
}

/// Only an event moves the position of the last one received, and it moves it to
/// its own cursor.
pub proof fn position_follows_events<P, E>(
    receiver: ReceiverView,
    signal: Signal<P, E>,
    termination: Option<TerminationView>,
)
    requires
        !receiver.ended,
    ensures
        ({
            let (next, received) = woken::<P, E>(receiver, signal, termination);
            match received {
                ReceivedView::Event(event) => next.last_received == Some(event.cursor@)
                    && !next.ended,
                _ => next.last_received == receiver.last_received,
            }
        }),
        polled::<P, E>(receiver, termination).0.last_received == receiver.last_received,
{
}

/// A reader that is woken by an event gets exactly that event, whatever the event is and
/// whatever the hub says about its end, and goes on.
pub proof fn event_reaches_the_reader<P, E>(
    receiver: ReceiverView,
    event: StreamEvent<P>,
    termination: Option<TerminationView>,
)
    ensures
        woken::<P, E>(receiver, Signal::Event(event), termination) == (
            ReceiverView {
                kind: receiver.kind,
                ended: receiver.ended,
                last_received: Some(event.cursor@),
            },
            ReceivedView::<P, E>::Event(event),
        ),
{
}

/// What a reader gets of events that wake it one after the other, and the reader then.
pub open spec fn read_on<P, E>(receiver: ReceiverView, events: Seq<StreamEvent<P>>) -> (
    ReceiverView,
    Seq<ReceivedView<P, E>>,
)
    decreases events.len(),
{
    if events.len() == 0 {
        (receiver, Seq::empty())
    } else {
        let (before, got) = read_on::<P, E>(receiver, events.drop_last());
        let (next, received) = woken::<P, E>(before, Signal::Event(events.last()), None);
        (next, got.push(received))
    }
}

/// The events that a reader gets are those that its worker handed on, in order and none left
/// out, and its position is that of the last one.
pub proof fn reader_gets_all_that_is_handed_on<P, E>(
    receiver: ReceiverView,
    events: Seq<StreamEvent<P>>,
)
    requires
        !receiver.ended,
    ensures
        ({
            let (after, got) = read_on::<P, E>(receiver, events);
            &&& got.len() == events.len()
            &&& forall|i: int|
                0 <= i < events.len() ==> #[trigger] got[i] == ReceivedView::<P, E>::Event(
                    events[i],
                )
            &&& !after.ended
            &&& events.len() > 0 ==> after.last_received == Some(events.last().cursor@)
        }),
    decreases events.len(),
{
    if events.len() > 0 {
        reader_gets_all_that_is_handed_on::<P, E>(receiver, events.drop_last());
    }
}

/// A reader of a hub that has ended learns how: a closed session ends the stream without an
/// error, and a lost connection is told with its message. Whether the reader was about to
/// wait or was waiting makes no difference.
pub proof fn end_of_the_hub_is_told<P, E>(receiver: ReceiverView, message: Seq<char>, gone: bool)
    requires
        !receiver.ended,
    ensures
        ({
            let closed = Some(TerminationView::SessionClosed);
            let lost = Some(TerminationView::ConnectionLost(message));
            let over = ReceiverView {
                kind: receiver.kind,
                ended: true,
                last_received: receiver.last_received,
            };
            let changed = Signal::<P, E>::TerminationChanged { hub_gone: gone };
            &&& polled::<P, E>(receiver, closed) == (over, ReceivedView::<P, E>::End)
            &&& polled::<P, E>(receiver, lost) == (over, ReceivedView::<P, E>::Lost(message))
            &&& woken::<P, E>(receiver, changed, closed) == (over, ReceivedView::<P, E>::End)
            &&& woken::<P, E>(receiver, changed, lost) == (
                over,
                ReceivedView::<P, E>::Lost(message),
            )
            &&& woken::<P, E>(receiver, Signal::WorkerGone, closed) == (
                over,
                ReceivedView::<P, E>::End,
            )
            &&& woken::<P, E>(receiver, Signal::WorkerGone, lost) == (
                over,
                ReceivedView::<P, E>::Lost(message),
            )
        }),
{
}

/// A reader of a hub that goes on waits, and changes nothing by it; the end of its worker ends
/// it, and an error of its worker is told as it is.
pub proof fn reader_of_a_live_hub_waits<P, E>(
    receiver: ReceiverView,
    error: E,
    termination: Option<TerminationView>,
)
    requires
        !receiver.ended,
    ensures
        polled::<P, E>(receiver, None) == (receiver, ReceivedView::<P, E>::Wait),
        woken::<P, E>(receiver, Signal::TerminationChanged { hub_gone: false }, None) == (
            receiver,
            ReceivedView::<P, E>::Wait,
        ),
        woken::<P, E>(receiver, Signal::WorkerGone, None) == (
            ReceiverView { ended: true, ..receiver },
            ReceivedView::<P, E>::End,
        ),
        woken::<P, E>(receiver, Signal::Failed(error), termination) == (
            ReceiverView { ended: true, ..receiver },
            ReceivedView::<P, E>::Failed(error),
        ),
{
}

/// A hub that is gone without a word counts as a lost connection, and its kind is named.
pub proof fn silent_hub_is_lost<P, E>(receiver: ReceiverView)
    requires
        !receiver.ended,
    ensures
        ({
            let (after, received) = woken::<P, E>(
                receiver,
                Signal::TerminationChanged { hub_gone: true },
                None,
            );
            &&& after == (ReceiverView { ended: true, ..receiver })
            &&& received is Lost
            &&& receiver.kind == StreamKind::Session ==> received->Lost_0
                == "Session event hub stopped"@
            &&& receiver.kind == StreamKind::Management ==> received->Lost_0
                == "V2 Session event hub stopped"@
            &&& receiver.kind == StreamKind::Interaction ==> received->Lost_0
                == "Interaction event hub stopped"@
        }),
{
}

/// A reader that has ended gets nothing more.
pub proof fn ended_reader_gets_nothing<P, E>(
    receiver: ReceiverView,
    termination: Option<TerminationView>,
)
    requires
        receiver.ended,
    ensures
        polled::<P, E>(receiver, termination) == (receiver, ReceivedView::<P, E>::End),
{
}

/// What a hub says about its end is shown as it is.
pub proof fn ends_of_hubs_are_shown_as_they_are(message: String)
    ensures
        opt_termination(Some(HubTermination::SessionClosed)) == Some(
            TerminationView::SessionClosed,
        ),
        opt_termination(Some(HubTermination::ConnectionLost(message))) == Some(
            TerminationView::ConnectionLost(message@),
        ),
        opt_termination(None) is None,
{
}

} // verus!
