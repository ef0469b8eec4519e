//! Merging a replayed window with live events into one gapless stream.
//!
//! A subscription asks the daemon for pages of past events, hands them on one by
//! one, and then follows live events. The host performs each [`WorkerAction`] and
//! reports back with a [`WorkerInput`]; the decisions are all made here.

use vstd::prelude::*;

use crate::text::{digits, join2, same_text, unsigned_text};

verus! {

/// A position in the event stream of a session.
#[derive(Debug, PartialEq, Eq)]
pub struct Cursor {
    pub thread_id: String,
    pub stream_id: String,
    pub seq: u64,
}

/// A [`Cursor`] by its texts.
pub struct CursorView {
    pub thread: Seq<char>,
    pub stream: Seq<char>,
    pub seq: u64,
}

impl View for Cursor {
    type V = CursorView;

    open spec fn view(&self) -> CursorView {
        CursorView { thread: self.thread_id@, stream: self.stream_id@, seq: self.seq }
    }
}

impl Clone for Cursor {
    fn clone(&self) -> (copy: Self)
        ensures
            copy@ == self@,
    {
        Cursor {
            thread_id: self.thread_id.clone(),
            stream_id: self.stream_id.clone(),
            seq: self.seq,
        }
    }
}

/// Both positions lie in the same attachment of the same session.
pub open spec fn in_same_stream(left: CursorView, right: CursorView) -> bool {
    left.thread == right.thread && left.stream == right.stream
}

/// `next` is the position right behind `previous`.
pub open spec fn follows(previous: CursorView, next: CursorView) -> bool {
    in_same_stream(previous, next) && previous.seq + 1 == next.seq
}

/// Whether two cursors belong to one stream.
pub fn same_stream(left: &Cursor, right: &Cursor) -> (same: bool)
    ensures
        same == in_same_stream(left@, right@),
{
    same_text(left.thread_id.as_str(), right.thread_id.as_str()) && same_text(
        left.stream_id.as_str(),
        right.stream_id.as_str(),
    )
}

/// Whether two cursors are the same position.
pub fn same_cursor(left: &Cursor, right: &Cursor) -> (same: bool)
    ensures
        same == (left@ == right@),
{
    same_stream(left, right) && left.seq == right.seq
}

/// Whether `next` comes right behind `previous`. Nothing comes behind the last
/// sequence number.
pub fn is_next_cursor(previous: &Cursor, next: &Cursor) -> (is_next: bool)
    ensures
        is_next == follows(previous@, next@),
{
    same_stream(previous, next) && match previous.seq.checked_add(1) {
        Some(expected) => expected == next.seq,
        None => false,
    }
}

/// One event with its position. `closes` marks the event that reports the end of
/// the session.
#[derive(Debug)]
pub struct StreamEvent<P> {
    pub cursor: Cursor,
    pub closes: bool,
    pub payload: P,
}

/// Which of the three event surfaces a subscription belongs to.
#[derive(Clone, Copy, Debug, PartialEq, Eq, Structural)]
pub enum StreamKind {
    Session,
    Management,
    Interaction,
}

/// A request for the events behind `after`, up to `through` where it is fixed.
#[derive(Debug)]
pub struct ReplayRequest {
    pub thread_id: String,
    pub after: Cursor,
    pub through: Option<Cursor>,
    pub limit: u32,
}

/// A [`ReplayRequest`] by its texts.
pub struct RequestView {
    pub thread: Seq<char>,
    pub after: CursorView,
    pub through: Option<CursorView>,
    pub limit: u32,
}

/// The view of an optional cursor.
pub open spec fn opt_cursor(cursor: Option<Cursor>) -> Option<CursorView> {
    match cursor {
        Some(cursor) => Some(cursor@),
        None => None,
    }
}

impl View for ReplayRequest {
    type V = RequestView;

    open spec fn view(&self) -> RequestView {
        RequestView {
            thread: self.thread_id@,
            after: self.after@,
            through: opt_cursor(self.through),
            limit: self.limit,
        }
    }
}

/// One page of past events. `closed` tells that the session was over when the page
/// was read.
#[derive(Debug)]
pub struct ReplayPage<P, G> {
    pub events: Vec<StreamEvent<P>>,
    pub resume_after: Cursor,
    pub through: Cursor,
    pub has_more: bool,
    pub gap: Option<G>,
    pub closed: bool,
}

/// Why a subscription ends with an error.
#[derive(Debug)]
pub enum Fault<G, E> {
    /// The daemon no longer holds the events that were asked for.
    Gap(G),
    /// The daemon's answer contradicts itself or the request.
    Projection(String),
    /// The request for a page failed.
    Source(E),
}

/// A [`Fault`] by its text.
pub enum FaultView<G, E> {
    Gap(G),
    Projection(Seq<char>),
    Source(E),
}

impl<G, E> View for Fault<G, E> {
    type V = FaultView<G, E>;

    open spec fn view(&self) -> FaultView<G, E> {
        match *self {
            Fault::Gap(gap) => FaultView::Gap(gap),
            Fault::Projection(text) => FaultView::Projection(text@),
            Fault::Source(error) => FaultView::Source(error),
        }
    }
}

/// What the host reports to a subscription worker.
#[derive(Debug)]
pub enum WorkerInput<P, G, E> {
    /// The page arrived; `valid` says whether it answers the request.
    Page { valid: Result<(), String>, page: ReplayPage<P, G> },
    PageFailed(E),
    Sent,
    NotSent,
    Live(StreamEvent<P>),
    Lagged,
    LiveClosed,
    Nudged,
    NudgeClosed,
    Terminated,
}

/// What a subscription worker wants done next.
#[derive(Debug)]
pub enum WorkerAction<P, G, E> {
    Request(ReplayRequest),
    Offer(StreamEvent<P>),
    Report(Fault<G, E>),
    Listen,
    Stop,
    /// Stop, and take the hub out of the routes if it is still the same one.
    StopAndForgetHub,
}

/// A [`WorkerAction`] by its texts.
pub enum ActionView<P, G, E> {
    Request(RequestView),
    Offer(StreamEvent<P>),
    Report(FaultView<G, E>),
    Listen,
    Stop,
    StopAndForgetHub,
}

impl<P, G, E> View for WorkerAction<P, G, E> {
    type V = ActionView<P, G, E>;

    open spec fn view(&self) -> ActionView<P, G, E> {
        match *self {
            WorkerAction::Request(request) => ActionView::Request(request@),
            WorkerAction::Offer(event) => ActionView::Offer(event),
            WorkerAction::Report(fault) => ActionView::Report(fault@),
            WorkerAction::Listen => ActionView::Listen,
            WorkerAction::Stop => ActionView::Stop,
            WorkerAction::StopAndForgetHub => ActionView::StopAndForgetHub,
        }
    }
}

/// What a subscription worker waits for.
#[derive(Clone, Copy, Debug, PartialEq, Eq, Structural)]
pub enum WorkerPhase {
    Requesting,
    OfferingPage,
    OfferingLive,
    Listening,
    Ended,
}

/// The state of one subscription.
pub struct Worker<P> {
    pub kind: StreamKind,
    pub thread_id: String,
    pub limit: u32,
    pub phase: WorkerPhase,
    /// The last position that was handed on.
    pub last: Cursor,
    /// Where the page in hand, or the page that was asked for, begins.
    pub after: Cursor,
    /// The events of the page in hand that were not offered yet.
    pub pending: Vec<StreamEvent<P>>,
    pub resume_after: Cursor,
    pub through: Cursor,
    pub has_more: bool,
    pub page_closed: bool,
    /// The position of the event that is being handed on.
    pub offered: Cursor,
    pub offered_closes: bool,
}

/// A [`Worker`] by its texts.
pub struct WorkerView<P> {
    pub kind: StreamKind,
    pub thread: Seq<char>,
    pub limit: u32,
    pub phase: WorkerPhase,
    pub last: CursorView,
    pub after: CursorView,
    pub pending: Seq<StreamEvent<P>>,
    pub resume_after: CursorView,
    pub through: CursorView,
    pub has_more: bool,
    pub page_closed: bool,
    pub offered: CursorView,
    pub offered_closes: bool,
}

impl<P> View for Worker<P> {
    type V = WorkerView<P>;

    open spec fn view(&self) -> WorkerView<P> {
        WorkerView {
            kind: self.kind,
            thread: self.thread_id@,
            limit: self.limit,
            phase: self.phase,
            last: self.last@,
            after: self.after@,
            pending: self.pending@,
            resume_after: self.resume_after@,
            through: self.through@,
            has_more: self.has_more,
            page_closed: self.page_closed,
            offered: self.offered@,
            offered_closes: self.offered_closes,
        }
    }
}

/// The complaint about a page that promises more without getting on.
pub open spec fn stalled_text(kind: StreamKind) -> Seq<char> {
    match kind {
        StreamKind::Session => "Replay page claimed more events without advancing its cursor"@,
        StreamKind::Management =>
            "V2 replay page claimed more events without advancing its cursor"@,
        StreamKind::Interaction => "Interaction replay claimed more events without advancing"@,
    }
}

/// The complaint about an event that does not come right behind `seq`.
pub open spec fn broken_text(kind: StreamKind, seq: u64) -> Seq<char> {
    let head = match kind {
        StreamKind::Session => "Replay event is not contiguous after Session cursor "@,
        StreamKind::Management => "V2 replay event is not contiguous after Session cursor "@,
        StreamKind::Interaction => "Interaction replay event is not contiguous after cursor "@,
    };
    head + digits(seq as nat)
}

/// The worker when it has stopped for good.
pub open spec fn ended<P>(worker: WorkerView<P>) -> WorkerView<P> {
    WorkerView { phase: WorkerPhase::Ended, ..worker }
}

/// The worker when it asks for the window behind `after`.
pub open spec fn requesting<P>(worker: WorkerView<P>, after: CursorView) -> WorkerView<P> {
    WorkerView { phase: WorkerPhase::Requesting, after, ..worker }
}

/// The request of `worker` for the window behind `after`.
pub open spec fn window<P>(
    worker: WorkerView<P>,
    after: CursorView,
    through: Option<CursorView>,
) -> RequestView {
    RequestView { thread: worker.thread, after, through, limit: worker.limit }
}

/// What a worker does with the rest of the page in hand.
pub open spec fn continued<P, G, E>(worker: WorkerView<P>) -> (
    WorkerView<P>,
    ActionView<P, G, E>,
) {
    if worker.pending.len() > 0 {
        let event = worker.pending[0];
        if follows(worker.last, event.cursor@) {
            (
                WorkerView {
                    phase: WorkerPhase::OfferingPage,
                    pending: worker.pending.remove(0),
                    offered: event.cursor@,
                    offered_closes: event.closes,
                    ..worker
                },
                ActionView::Offer(event),
            )
        } else {
            (
                ended(worker),
                ActionView::Report(
                    FaultView::Projection(broken_text(worker.kind, worker.last.seq)),
                ),
            )
        }
    } else if worker.has_more {
        (
            requesting(worker, worker.resume_after),
            ActionView::Request(window(worker, worker.resume_after, Some(worker.through))),
        )
    } else if worker.kind == StreamKind::Management && worker.page_closed {
        (ended(worker), ActionView::StopAndForgetHub)
    } else {
        (WorkerView { phase: WorkerPhase::Listening, ..worker }, ActionView::Listen)
    }
}

/// Why a page cannot be handed on, whatever was asked for before. `valid` says whether it
/// answers its request.
pub open spec fn page_fault<P, G, E>(
    valid: Result<(), String>,
    page: ReplayPage<P, G>,
) -> Option<FaultView<G, E>> {
    match valid {
        Err(message) => Some(FaultView::Projection(message@)),
        Ok(()) => match page.gap {
            Some(gap) => Some(FaultView::Gap(gap)),
            None => None,
        },
    }
}

/// Whether a page can be handed on. A subscription that is taken up again fails at once
/// where its first page cannot.
pub fn check_page<P, G, E>(valid: Result<(), String>, page: ReplayPage<P, G>) -> (result: Result<
    ReplayPage<P, G>,
    Fault<G, E>,
>)
    ensures
        match result {
            Ok(accepted) => page_fault::<P, G, E>(valid, page) is None && accepted == page,
            Err(fault) => page_fault::<P, G, E>(valid, page) == Some(fault@),
        },
{
    if let Err(message) = valid {
        return Err(Fault::Projection(message));
    }
    match page.gap {
        Some(gap) => Err(Fault::Gap(gap)),
        None => Ok(page),
    }
}

/// What a worker does with a page that answers the window behind `worker.after`.
pub open spec fn page_read<P, G, E>(
    worker: WorkerView<P>,
    valid: Result<(), String>,
    page: ReplayPage<P, G>,
) -> (WorkerView<P>, ActionView<P, G, E>) {
    match page_fault::<P, G, E>(valid, page) {
        Some(fault) => (ended(worker), ActionView::Report(fault)),
        None => if page.has_more && page.resume_after@ == worker.after {
            (
                ended(worker),
                ActionView::Report(FaultView::Projection(stalled_text(worker.kind))),
            )
        } else {
            continued(
                WorkerView {
                    pending: page.events@,
                    resume_after: page.resume_after@,
                    through: page.through@,
                    has_more: page.has_more,
                    page_closed: page.closed,
                    ..worker
                },
            )
        },
    }
}

/// What a worker does when it has to ask again for everything behind its last
/// position.
pub open spec fn caught_up<P, G, E>(worker: WorkerView<P>) -> (
    WorkerView<P>,
    ActionView<P, G, E>,
) {
    (
        requesting(worker, worker.last),
        ActionView::Request(window(worker, worker.last, None)),
    )
}

/// Which reports make sense in which phase.
pub open spec fn awaits<P, G, E>(phase: WorkerPhase, input: WorkerInput<P, G, E>) -> bool {
    match input {
        WorkerInput::Page { .. } | WorkerInput::PageFailed(_) => phase == WorkerPhase::Requesting,
        WorkerInput::Sent | WorkerInput::NotSent => phase == WorkerPhase::OfferingPage || phase
            == WorkerPhase::OfferingLive,
        WorkerInput::Live(_)
        | WorkerInput::Lagged
        | WorkerInput::LiveClosed
        | WorkerInput::Nudged
        | WorkerInput::NudgeClosed => phase == WorkerPhase::Listening,
        WorkerInput::Terminated => phase != WorkerPhase::Ended,
    }
}

/// The next state of a worker, and what it wants done.
pub open spec fn reaction<P, G, E>(worker: WorkerView<P>, input: WorkerInput<P, G, E>) -> (
    WorkerView<P>,
    ActionView<P, G, E>,
) {
    match input {
        WorkerInput::Page { valid, page } => page_read(worker, valid, page),
        WorkerInput::PageFailed(error) => (
            ended(worker),
            ActionView::Report(FaultView::Source(error)),
        ),
        WorkerInput::Sent => {
            let moved = WorkerView { last: worker.offered, ..worker };
            if worker.phase == WorkerPhase::OfferingPage {
                continued(moved)
            } else if worker.kind == StreamKind::Management && worker.offered_closes {
                (ended(moved), ActionView::StopAndForgetHub)
            } else {
                (WorkerView { phase: WorkerPhase::Listening, ..moved }, ActionView::Listen)
            }
        },
        WorkerInput::Live(event) => {
            if in_same_stream(event.cursor@, worker.last) && event.cursor.seq <= worker.last.seq {
                (worker, ActionView::Listen)
            } else if follows(worker.last, event.cursor@) {
                (
                    WorkerView {
                        phase: WorkerPhase::OfferingLive,
                        offered: event.cursor@,
                        offered_closes: event.closes,
                        ..worker
                    },
                    ActionView::Offer(event),
                )
            } else {
                caught_up(worker)
            }
        },
        WorkerInput::Lagged | WorkerInput::Nudged => caught_up(worker),
        WorkerInput::NotSent
        | WorkerInput::LiveClosed
        | WorkerInput::NudgeClosed
        | WorkerInput::Terminated => (ended(worker), ActionView::Stop),
    }
}

/// The worker of a subscription that continues behind `cursor`.
pub open spec fn fresh<P>(
    kind: StreamKind,
    thread: Seq<char>,
    cursor: CursorView,
    limit: u32,
) -> WorkerView<P> {
    WorkerView {
        kind,
        thread,
        limit,
        phase: WorkerPhase::Requesting,
        last: cursor,
        after: cursor,
        pending: Seq::empty(),
        resume_after: cursor,
        through: cursor,
        has_more: false,
        page_closed: false,
        offered: cursor,
        offered_closes: false,
    }
}

impl<P> Worker<P> {
    /// A worker that waits for the page behind `cursor`: either one that the host
    /// has already fetched, or the one that [`Worker::first_request`] asks for.
    pub fn new(kind: StreamKind, thread_id: &str, cursor: &Cursor, limit: u32) -> (worker: Self)
        ensures
            worker@ == fresh::<P>(kind, thread_id@, cursor@, limit),
    {
        let worker = Worker {
            kind,
            thread_id: thread_id.to_owned(),
            limit,
            phase: WorkerPhase::Requesting,
            last: cursor.clone(),
            after: cursor.clone(),
            pending: Vec::new(),
            resume_after: cursor.clone(),
            through: cursor.clone(),
            has_more: false,
            page_closed: false,
            offered: cursor.clone(),
            offered_closes: false,
        };
        assert(worker@.pending =~= Seq::empty());
        worker
    }

    /// The request for the window behind the last position.
    pub fn first_request(&self) -> (request: ReplayRequest)
        ensures
            request@ == window(self@, self@.last, None),
    {
        let after = self.last.clone();
        self.request(after, None)
    }

    fn request(&self, after: Cursor, through: Option<Cursor>) -> (request: ReplayRequest)
        ensures
            request@ == window(self@, after@, opt_cursor(through)),
    {
        ReplayRequest { thread_id: self.thread_id.clone(), after, through, limit: self.limit }
    }

    fn stalled_message(&self) -> (text: String)
        ensures
            text@ == stalled_text(self.kind),
    {
        match self.kind {
            StreamKind::Session =>
                "Replay page claimed more events without advancing its cursor".to_owned(),
            StreamKind::Management =>
                "V2 replay page claimed more events without advancing its cursor".to_owned(),
            StreamKind::Interaction =>
                "Interaction replay claimed more events without advancing".to_owned(),
        }
    }

    fn broken_message(&self) -> (text: String)
        ensures
            text@ == broken_text(self.kind, self.last.seq),
    {
        let seq = unsigned_text(self.last.seq);
        let head = match self.kind {
            StreamKind::Session => "Replay event is not contiguous after Session cursor ",
            StreamKind::Management => "V2 replay event is not contiguous after Session cursor ",
            StreamKind::Interaction => "Interaction replay event is not contiguous after cursor ",
        };
        join2(head, seq.as_str())
    }

    fn advance<G, E>(&mut self) -> (action: WorkerAction<P, G, E>)
        ensures
            (final(self)@, action@) == continued::<P, G, E>(old(self)@),
    {
        if self.pending.len() > 0 {
            if is_next_cursor(&self.last, &self.pending[0].cursor) {
                let event = self.pending.remove(0);
                self.offered = event.cursor.clone();
                self.offered_closes = event.closes;
                self.phase = WorkerPhase::OfferingPage;
                WorkerAction::Offer(event)
            } else {
                let message = self.broken_message();
                self.phase = WorkerPhase::Ended;
                WorkerAction::Report(Fault::Projection(message))
            }
        } else if self.has_more {
            let after = self.resume_after.clone();
            let through = self.through.clone();
            self.after = after.clone();
            self.phase = WorkerPhase::Requesting;
            WorkerAction::Request(self.request(after, Some(through)))
        } else if self.kind == StreamKind::Management && self.page_closed {
            self.phase = WorkerPhase::Ended;
            WorkerAction::StopAndForgetHub
        } else {
            self.phase = WorkerPhase::Listening;
            WorkerAction::Listen
        }
    }

    fn catch_up<G, E>(&mut self) -> (action: WorkerAction<P, G, E>)
        ensures
            (final(self)@, action@) == caught_up::<P, G, E>(old(self)@),
    {
        self.after = self.last.clone();
        self.phase = WorkerPhase::Requesting;
        WorkerAction::Request(self.first_request())
    }

    fn read_page<G, E>(&mut self, valid: Result<(), String>, page: ReplayPage<P, G>) -> (action:
        WorkerAction<P, G, E>)
        ensures
            (final(self)@, action@) == page_read::<P, G, E>(old(self)@, valid, page),
    {
        let page = match check_page(valid, page) {
            Ok(page) => page,
            Err(fault) => {
                self.phase = WorkerPhase::Ended;
                return WorkerAction::Report(fault);
            },
        };
        if page.has_more && same_cursor(&page.resume_after, &self.after) {
            let message = self.stalled_message();
            self.phase = WorkerPhase::Ended;
            return WorkerAction::Report(Fault::Projection(message));
        }
        self.pending = page.events;
        self.resume_after = page.resume_after;
        self.through = page.through;
        self.has_more = page.has_more;
        self.page_closed = page.closed;
        self.advance()
    }

    fn confirm<G, E>(&mut self) -> (action: WorkerAction<P, G, E>)
        ensures
            (final(self)@, action@) == reaction::<P, G, E>(old(self)@, WorkerInput::Sent),
    {
        self.last = self.offered.clone();
        if self.phase == WorkerPhase::OfferingPage {
            self.advance()
        } else if self.kind == StreamKind::Management && self.offered_closes {
            self.phase = WorkerPhase::Ended;
            WorkerAction::StopAndForgetHub
        } else {
            self.phase = WorkerPhase::Listening;
            WorkerAction::Listen
        }
    }

    fn follow<G, E>(&mut self, event: StreamEvent<P>) -> (action: WorkerAction<P, G, E>)
        ensures
            (final(self)@, action@) == reaction::<P, G, E>(old(self)@, WorkerInput::Live(event)),
    {
        if same_stream(&event.cursor, &self.last) && event.cursor.seq <= self.last.seq {
            WorkerAction::Listen
        } else if is_next_cursor(&self.last, &event.cursor) {
            self.offered = event.cursor.clone();
            self.offered_closes = event.closes;
            self.phase = WorkerPhase::OfferingLive;
            WorkerAction::Offer(event)
        } else {
            self.catch_up()
        }
    }

    /// Takes one report of the host and says what to do next.
    pub fn step<G, E>(&mut self, input: WorkerInput<P, G, E>) -> (action: WorkerAction<P, G, E>)
        requires
            awaits(old(self)@.phase, input),
        ensures
            (final(self)@, action@) == reaction(old(self)@, input),
    {
        match input {
            WorkerInput::Page { valid, page } => self.read_page(valid, page),
            WorkerInput::PageFailed(error) => {
                self.phase = WorkerPhase::Ended;
                WorkerAction::Report(Fault::Source(error))
            },
            WorkerInput::Sent => self.confirm(),
            WorkerInput::Live(event) => self.follow(event),
            WorkerInput::Lagged => self.catch_up(),
            WorkerInput::Nudged => self.catch_up(),
            WorkerInput::NotSent
            | WorkerInput::LiveClosed
            | WorkerInput::NudgeClosed
            | WorkerInput::Terminated => {
                self.phase = WorkerPhase::Ended;
                WorkerAction::Stop
            },
        }
    }
}

/// The worker after a series of reports.
pub open spec fn after_reports<P, G, E>(
    worker: WorkerView<P>,
    inputs: Seq<WorkerInput<P, G, E>>,
) -> WorkerView<P>
    decreases inputs.len(),
{
    if inputs.len() == 0 {
        worker
    } else {
        reaction(after_reports(worker, inputs.drop_last()), inputs.last()).0
    }
}

/// Every report of the series came when the worker waited for it.
pub open spec fn is_history<P, G, E>(
    worker: WorkerView<P>,
    inputs: Seq<WorkerInput<P, G, E>>,
) -> bool
    decreases inputs.len(),
{
    inputs.len() > 0 ==> {
        &&& is_history(worker, inputs.drop_last())
        &&& awaits(after_reports(worker, inputs.drop_last()).phase, inputs.last())
    }
}

/// The event that was offered last in a series of reports, if one was.
pub open spec fn last_offer<P, G, E>(
    worker: WorkerView<P>,
    inputs: Seq<WorkerInput<P, G, E>>,
) -> Option<StreamEvent<P>>
    decreases inputs.len(),
{
    if inputs.len() == 0 {
        None
    } else {
        match reaction(after_reports(worker, inputs.drop_last()), inputs.last()).1 {
            ActionView::Offer(event) => Some(event),
            _ => last_offer(worker, inputs.drop_last()),
        }
    }
}

/// The events that were handed on, in order, in a series of reports.
pub open spec fn delivered<P, G, E>(
    worker: WorkerView<P>,
    inputs: Seq<WorkerInput<P, G, E>>,
) -> Seq<StreamEvent<P>>
    decreases inputs.len(),
{
    if inputs.len() == 0 {
        Seq::empty()
    } else {
        let before = delivered(worker, inputs.drop_last());
        match inputs.last() {
            WorkerInput::Sent => before.push(last_offer(worker, inputs.drop_last())->0),
            _ => before,
        }
    }
}

/// A worker that hands an event on offers the one right behind its last position.
pub open spec fn offers_next<P>(worker: WorkerView<P>) -> bool {
    worker.phase == WorkerPhase::OfferingPage || worker.phase == WorkerPhase::OfferingLive
        ==> follows(worker.last, worker.offered)
}

/// Every subscription hands on a gapless run of events: the first comes right
/// behind the cursor that the subscription started from, each later one right
/// behind the one before it, and none comes twice, whatever the daemon and the
/// live feed send.
pub proof fn subscription_is_gapless<P, G, E>(
    kind: StreamKind,
    thread: Seq<char>,
    cursor: CursorView,
    limit: u32,
    inputs: Seq<WorkerInput<P, G, E>>,
)
    requires
        is_history(fresh::<P>(kind, thread, cursor, limit), inputs),
    ensures
        ({
            let start = fresh::<P>(kind, thread, cursor, limit);
            let events = delivered(start, inputs);
            let end = after_reports(start, inputs);
            &&& forall|i: int|
                0 <= i < events.len() ==> {
                    &&& in_same_stream(cursor, (#[trigger] events[i]).cursor@)
                    &&& events[i].cursor@.seq == cursor.seq + 1 + i
                }
            &&& in_same_stream(cursor, end.last)
            &&& end.last.seq == cursor.seq + events.len()
            &&& offers_next(end)
            &&& end.phase == WorkerPhase::OfferingPage || end.phase == WorkerPhase::OfferingLive
                ==> last_offer(start, inputs) is Some && last_offer(start, inputs)->0.cursor@
                == end.offered
        }),
    decreases inputs.len(),
{
    let start = fresh::<P>(kind, thread, cursor, limit);
    if inputs.len() > 0 {
        subscription_is_gapless(kind, thread, cursor, limit, inputs.drop_last());
    }
}

/// A worker that has stopped takes no further report, so nothing follows an error.
pub proof fn nothing_follows_the_end<P, G, E>(
    worker: WorkerView<P>,
    input: WorkerInput<P, G, E>,
    later: WorkerInput<P, G, E>,
)
    requires
        awaits(worker.phase, input),
        reaction(worker, input).1 is Report || reaction(worker, input).1 is Stop || reaction(
            worker,
            input,
        ).1 is StopAndForgetHub,
    ensures
        reaction(worker, input).0.phase == WorkerPhase::Ended,
        !awaits(reaction(worker, input).0.phase, later),
{
}

/// An event that was handed on already changes nothing when the live feed repeats
/// it.
pub proof fn repeated_event_is_ignored<P, G, E>(worker: WorkerView<P>, event: StreamEvent<P>)
    requires
        worker.phase == WorkerPhase::Listening,
        in_same_stream(event.cursor@, worker.last),
        event.cursor.seq <= worker.last.seq,
    ensures
        reaction::<P, G, E>(worker, WorkerInput::Live(event)) == (
            worker,
            ActionView::<P, G, E>::Listen,
        ),
{
}

/// The request for a further page starts where the page in hand ended and keeps
/// that page's upper end: a daemon that echoes the upper end it was asked for is
/// asked for the same window until the window is exhausted.
pub proof fn window_stays_fixed<P, G, E>(
    worker: WorkerView<P>,
    input: WorkerInput<P, G, E>,
    page: ReplayPage<P, G>,
    request: RequestView,
)
    requires
        input == (WorkerInput::<P, G, E>::Page { valid: Ok(()), page }),
        reaction(worker, input).1 == ActionView::<P, G, E>::Request(request),
    ensures
        request == window(worker, page.resume_after@, Some(page.through@)),
        page.has_more,
        request.after != worker.after,
{
}

/// The confirmations of `count` offers.
pub open spec fn confirmations<P, G, E>(count: nat) -> Seq<WorkerInput<P, G, E>> {
    Seq::new(count, |i: int| WorkerInput::<P, G, E>::Sent)
}

/// A valid page whose events follow each other from the last position on is handed
/// on completely and in order.
pub proof fn page_is_handed_on<P, G, E>(
    worker: WorkerView<P>,
    page: ReplayPage<P, G>,
    count: nat,
)
    requires
        worker.phase == WorkerPhase::Requesting,
        page.gap is None,
        !(page.has_more && page.resume_after@ == worker.after),
        count <= page.events@.len(),
        forall|i: int|
            0 <= i < page.events@.len() ==> {
                &&& in_same_stream(worker.last, (#[trigger] page.events@[i]).cursor@)
                &&& page.events@[i].cursor@.seq == worker.last.seq + 1 + i
            },
    ensures
        ({
            let inputs = seq![WorkerInput::<P, G, E>::Page { valid: Ok(()), page }]
                + confirmations::<P, G, E>(count);
            let end = after_reports(worker, inputs);
            &&& is_history(worker, inputs)
            &&& delivered(worker, inputs) =~= page.events@.take(count as int)
            &&& end.pending =~= if count < page.events@.len() {
                page.events@.skip(count as int + 1)
            } else {
                Seq::empty()
            }
            &&& count < page.events@.len() ==> {
                &&& end.phase == WorkerPhase::OfferingPage
                &&& end.offered == page.events@[count as int].cursor@
                &&& last_offer(worker, inputs) == Some(page.events@[count as int])
            }
            &&& end.kind == worker.kind
            &&& end.thread == worker.thread
            &&& end.limit == worker.limit
            &&& end.resume_after == page.resume_after@
            &&& end.through == page.through@
            &&& end.has_more == page.has_more
            &&& end.page_closed == page.closed
        }),
    decreases count,
{
    let first = WorkerInput::<P, G, E>::Page { valid: Ok(()), page };
    let inputs = seq![first] + confirmations::<P, G, E>(count);
    if count == 0 {
        assert(inputs.drop_last() =~= Seq::<WorkerInput<P, G, E>>::empty());
        assert(inputs.last() == first);
        assert(is_history(worker, inputs.drop_last()));
        assert(after_reports(worker, inputs.drop_last()) == worker);
        assert(delivered(worker, inputs.drop_last()) =~= Seq::<StreamEvent<P>>::empty());
        if page.events@.len() > 0 {
            assert(page.events@.remove(0) =~= page.events@.skip(1));
        }
    } else {
        let before = (count - 1) as nat;
        page_is_handed_on::<P, G, E>(worker, page, before);
        assert(inputs.drop_last() =~= seq![first] + confirmations::<P, G, E>(before));
        assert(inputs.last() == WorkerInput::<P, G, E>::Sent);
        let mid = after_reports(worker, inputs.drop_last());
        assert(page.events@.take(count as int) =~= page.events@.take(before as int).push(
            page.events@[before as int],
        ));
        if count < page.events@.len() {
            assert(mid.pending[0] == page.events@[count as int]);
            assert(mid.pending.remove(0) =~= page.events@.skip(count as int + 1));
        }
    }
}

/// Two positions lie in one stream where both the session and its attachment are the same,
/// and one follows another where its number is the next one there.
pub proof fn positions_are_compared_whole(left: CursorView, right: CursorView)
    ensures
        in_same_stream(left, right) <==> left.thread == right.thread && left.stream
            == right.stream,
        follows(left, right) <==> left.thread == right.thread && left.stream == right.stream
            && right.seq == left.seq + 1,
{
}

/// A subscription starts by asking for all that comes behind its cursor, in its own session,
/// in pages of its own size.
pub proof fn subscription_starts_behind_its_cursor<P>(
    kind: StreamKind,
    thread: Seq<char>,
    cursor: CursorView,
    limit: u32,
)
    ensures
        ({
            let worker = fresh::<P>(kind, thread, cursor, limit);
            let request = window(worker, worker.last, None);
            &&& worker.kind == kind
            &&& worker.phase == WorkerPhase::Requesting
            &&& worker.last == cursor
            &&& worker.after == cursor
            &&& worker.pending.len() == 0
            &&& !worker.has_more
            &&& !worker.page_closed
            &&& !worker.offered_closes
            &&& request == (RequestView { thread, after: cursor, through: None, limit })
        }),
{
}

/// A subscription stays the one that it is: whatever is reported, it belongs to the same
/// surface and the same session, and asks for pages of the same size.
pub proof fn subscription_keeps_its_identity<P, G, E>(
    worker: WorkerView<P>,
    input: WorkerInput<P, G, E>,
)
    ensures
        ({
            let (after, action) = reaction(worker, input);
            &&& after.kind == worker.kind
            &&& after.thread == worker.thread
            &&& after.limit == worker.limit
            &&& action matches ActionView::Request(request) ==> {
                &&& request.thread == worker.thread
                &&& request.limit == worker.limit
                &&& request.after == after.after
                &&& after.phase == WorkerPhase::Requesting
            }
            &&& action matches ActionView::Offer(event) ==> {
                &&& after.offered == event.cursor@
                &&& after.offered_closes == event.closes
                &&& after.phase == WorkerPhase::OfferingPage || after.phase
                    == WorkerPhase::OfferingLive
            }
        }),
{
}

/// A listening subscription hands the next live event on at once.
pub proof fn next_live_event_is_handed_on<P, G, E>(worker: WorkerView<P>, event: StreamEvent<P>)
    requires
        event.cursor@.thread == worker.last.thread,
        event.cursor@.stream == worker.last.stream,
        event.cursor@.seq == worker.last.seq + 1,
    ensures
        reaction::<P, G, E>(worker, WorkerInput::Live(event)) == (
            WorkerView {
                phase: WorkerPhase::OfferingLive,
                offered: event.cursor@,
                offered_closes: event.closes,
                ..worker
            },
            ActionView::<P, G, E>::Offer(event),
        ),
{
}

/// A live event that does not come next, or a feed that has lost some, makes a listening
/// subscription ask for all that comes behind its last position; the event itself is not
/// handed on.
pub proof fn missed_events_are_asked_for<P, G, E>(
    worker: WorkerView<P>,
    input: WorkerInput<P, G, E>,
)
    requires
        input is Lagged || input is Nudged || (input matches WorkerInput::Live(event) && (
        event.cursor@.thread != worker.last.thread || event.cursor@.stream != worker.last.stream
            || event.cursor@.seq > worker.last.seq + 1)),
    ensures
        reaction::<P, G, E>(worker, input) == (
            WorkerView { phase: WorkerPhase::Requesting, after: worker.last, ..worker },
            ActionView::<P, G, E>::Request(
                RequestView {
                    thread: worker.thread,
                    after: worker.last,
                    through: None,
                    limit: worker.limit,
                },
            ),
        ),
{
}

/// Once a live event was handed on, the subscription has come to its position and listens
/// again. Only the end of the session ends it, and only on the managed surface.
pub proof fn live_event_moves_the_position<P, G, E>(worker: WorkerView<P>)
    requires
        worker.phase == WorkerPhase::OfferingLive,
    ensures
        ({
            let (after, action) = reaction::<P, G, E>(worker, WorkerInput::Sent);
            let over = worker.kind == StreamKind::Management && worker.offered_closes;
            &&& after == (WorkerView {
                last: worker.offered,
                phase: if over {
                    WorkerPhase::Ended
                } else {
                    WorkerPhase::Listening
                },
                ..worker
            })
            &&& over ==> action is StopAndForgetHub
            &&& !over ==> action is Listen
        }),
{
}

/// Once an event of a page was handed on, the next one of the page is offered. One that does
/// not come next is reported, and not offered.
pub proof fn page_goes_on_in_order<P, G, E>(worker: WorkerView<P>)
    requires
        worker.phase == WorkerPhase::OfferingPage,
        worker.pending.len() > 0,
    ensures
        ({
            let (after, action) = reaction::<P, G, E>(worker, WorkerInput::Sent);
            let event = worker.pending[0];
            let next = event.cursor@.thread == worker.offered.thread && event.cursor@.stream
                == worker.offered.stream && event.cursor@.seq == worker.offered.seq + 1;
            &&& after == (WorkerView {
                phase: after.phase,
                last: worker.offered,
                pending: after.pending,
                offered: after.offered,
                offered_closes: after.offered_closes,
                ..worker
            })
            &&& next ==> {
                &&& action == ActionView::<P, G, E>::Offer(event)
                &&& after.phase == WorkerPhase::OfferingPage
                &&& after.offered == event.cursor@
                &&& after.offered_closes == event.closes
                &&& after.pending.len() + 1 == worker.pending.len()
                &&& forall|i: int|
                    0 <= i < after.pending.len() ==> #[trigger] after.pending[i]
                        == worker.pending[i + 1]
            }
            &&& !next ==> {
                &&& action matches ActionView::Report(fault) && fault is Projection
                &&& after.phase == WorkerPhase::Ended
            }
        }),
{
}

/// At the end of a page comes the next page of the same window, where there is one. Behind
/// the last page the subscription listens; only on the managed surface it ends there where
/// the session was over.
pub proof fn window_is_read_to_its_end<P, G, E>(worker: WorkerView<P>)
    requires
        worker.phase == WorkerPhase::OfferingPage,
        worker.pending.len() == 0,
    ensures
        ({
            let (after, action) = reaction::<P, G, E>(worker, WorkerInput::Sent);
            let over = worker.kind == StreamKind::Management && worker.page_closed;
            &&& after == (WorkerView {
                phase: after.phase,
                last: worker.offered,
                after: if worker.has_more {
                    worker.resume_after
                } else {
                    worker.after
                },
                ..worker
            })
            &&& worker.has_more ==> {
                &&& action == ActionView::<P, G, E>::Request(
                    RequestView {
                        thread: worker.thread,
                        after: worker.resume_after,
                        through: Some(worker.through),
                        limit: worker.limit,
                    },
                )
                &&& after.phase == WorkerPhase::Requesting
                &&& after.after == worker.resume_after
            }
            &&& !worker.has_more && over ==> {
                &&& action is StopAndForgetHub
                &&& after.phase == WorkerPhase::Ended
            }
            &&& !worker.has_more && !over ==> {
                &&& action is Listen
                &&& after.phase == WorkerPhase::Listening
            }
        }),
{
}

/// An empty page leads to the next page of the window, to the live feed or to the end in the
/// same way, and the position stays.
pub proof fn empty_page_is_passed_over<P, G, E>(worker: WorkerView<P>, page: ReplayPage<P, G>)
    requires
        page.gap is None,
        page.events@.len() == 0,
        page.has_more ==> page.resume_after@ != worker.after,
    ensures
        ({
            let (after, action) = reaction::<P, G, E>(
                worker,
                WorkerInput::Page { valid: Ok(()), page },
            );
            let over = worker.kind == StreamKind::Management && page.closed;
            &&& after == (WorkerView {
                phase: after.phase,
                after: if page.has_more {
                    page.resume_after@
                } else {
                    worker.after
                },
                pending: after.pending,
                resume_after: page.resume_after@,
                through: page.through@,
                has_more: page.has_more,
                page_closed: page.closed,
                ..worker
            })
            &&& after.pending.len() == 0
            &&& page.has_more ==> {
                &&& action == ActionView::<P, G, E>::Request(
                    RequestView {
                        thread: worker.thread,
                        after: page.resume_after@,
                        through: Some(page.through@),
                        limit: worker.limit,
                    },
                )
                &&& after.phase == WorkerPhase::Requesting
                &&& after.after == page.resume_after@
            }
            &&& !page.has_more && over ==> {
                &&& action is StopAndForgetHub
                &&& after.phase == WorkerPhase::Ended
            }
            &&& !page.has_more && !over ==> {
                &&& action is Listen
                &&& after.phase == WorkerPhase::Listening
            }
        }),
{
}

/// A page whose first event does not come right behind the position is reported, and nothing
/// of it is handed on.
pub proof fn broken_page_is_reported<P, G, E>(worker: WorkerView<P>, page: ReplayPage<P, G>)
    requires
        page.gap is None,
        page.events@.len() > 0,
        page.has_more ==> page.resume_after@ != worker.after,
        page.events@[0].cursor@.thread != worker.last.thread || page.events@[0].cursor@.stream
            != worker.last.stream || page.events@[0].cursor@.seq != worker.last.seq + 1,
    ensures
        ({
            let (after, action) = reaction::<P, G, E>(
                worker,
                WorkerInput::Page { valid: Ok(()), page },
            );
            &&& action matches ActionView::Report(FaultView::Projection(message)) && digits(
                worker.last.seq as nat,
            ).is_suffix_of(message)
            &&& after.phase == WorkerPhase::Ended
            &&& after.last == worker.last
        }),
{
}

/// A page that does not answer its request, that has a gap, or that promises more without
/// getting on ends the subscription with that report, and so does the failure to get one.
/// Nothing is handed on.
pub proof fn bad_page_ends_the_subscription<P, G, E>(
    worker: WorkerView<P>,
    valid: Result<(), String>,
    page: ReplayPage<P, G>,
    error: E,
)
    ensures
        ({
            let (after, action) = reaction::<P, G, E>(worker, WorkerInput::Page { valid, page });
            let bad = valid is Err || page.gap is Some || (page.has_more && page.resume_after@
                == worker.after);
            &&& valid matches Err(message) ==> action == ActionView::<P, G, E>::Report(
                FaultView::Projection(message@),
            )
            &&& valid is Ok ==> (page.gap matches Some(gap) ==> action == ActionView::<
                P,
                G,
                E,
            >::Report(FaultView::Gap(gap)))
            &&& valid is Ok && page.gap is None && bad ==> (action matches ActionView::Report(fault)
                && fault is Projection)
            &&& bad ==> after == (WorkerView { phase: WorkerPhase::Ended, ..worker })
            &&& page_fault::<P, G, E>(valid, page) is None <==> valid is Ok && page.gap is None
        }),
        reaction::<P, G, E>(worker, WorkerInput::PageFailed(error)) == (
            WorkerView { phase: WorkerPhase::Ended, ..worker },
            ActionView::<P, G, E>::Report(FaultView::Source(error)),
        ),
{
}

/// A subscriber that is gone, a feed that is closed and the end of the hub stop the
/// subscription without a report.
pub proof fn closed_channels_stop_the_subscription<P, G, E>(
    worker: WorkerView<P>,
    input: WorkerInput<P, G, E>,
)
    requires
        input is NotSent || input is LiveClosed || input is NudgeClosed || input is Terminated,
    ensures
        reaction::<P, G, E>(worker, input) == (
            WorkerView { phase: WorkerPhase::Ended, ..worker },
            ActionView::<P, G, E>::Stop,
        ),
{
}

/// A subscription hears the live feed while it listens, pages while it has asked for one,
/// and of its subscriber while it hands an event on. It can be ended at any time, once.
pub proof fn reports_come_in_their_phase<P, G, E>(
    phase: WorkerPhase,
    input: WorkerInput<P, G, E>,
)
    ensures
        phase == WorkerPhase::Listening && (input is Live || input is Lagged || input is LiveClosed
            || input is Nudged || input is NudgeClosed) ==> awaits(phase, input),
        phase == WorkerPhase::Requesting && (input is Page || input is PageFailed) ==> awaits(
            phase,
            input,
        ),
        (phase == WorkerPhase::OfferingPage || phase == WorkerPhase::OfferingLive) && (
        input is Sent || input is NotSent) ==> awaits(phase, input),
        phase != WorkerPhase::Ended && input is Terminated ==> awaits(phase, input),
        phase == WorkerPhase::Ended ==> !awaits(phase, input),
{
}

/// Complaints name the surface that they come from, and the position behind which an event
/// is missing.
pub proof fn complaints_name_their_surface(seq: u64)
    ensures
        "Replay page "@.is_prefix_of(stalled_text(StreamKind::Session)),
        "V2 "@.is_prefix_of(stalled_text(StreamKind::Management)),
        "Interaction "@.is_prefix_of(stalled_text(StreamKind::Interaction)),
        "Replay event "@.is_prefix_of(broken_text(StreamKind::Session, seq)),
        "V2 "@.is_prefix_of(broken_text(StreamKind::Management, seq)),
        "Interaction "@.is_prefix_of(broken_text(StreamKind::Interaction, seq)),
        forall|kind: StreamKind| digits(seq as nat).is_suffix_of(#[trigger] broken_text(kind, seq)),
{
    reveal_strlit("Replay page ");
    reveal_strlit("Replay event ");
    reveal_strlit("V2 ");
    reveal_strlit("Interaction ");
    reveal_strlit("Replay page claimed more events without advancing its cursor");
    reveal_strlit("V2 replay page claimed more events without advancing its cursor");
    reveal_strlit("Interaction replay claimed more events without advancing");
    reveal_strlit("Replay event is not contiguous after Session cursor ");
    reveal_strlit("V2 replay event is not contiguous after Session cursor ");
    reveal_strlit("Interaction replay event is not contiguous after cursor ");
}

/// A position is shown by its session, its attachment and its number, where there is one.
pub proof fn positions_are_shown_as_they_are(cursor: Cursor)
    ensures
        opt_cursor(Some(cursor)) == Some(cursor@),
        opt_cursor(None) is None,
        cursor@.thread == cursor.thread_id@,
        cursor@.stream == cursor.stream_id@,
        cursor@.seq == cursor.seq,
{
}

/// The first event of a page is offered where it comes right behind the position, whatever
/// follows it; the rest of the page and its window are kept for later.
pub proof fn first_event_of_a_page_is_offered<P, G, E>(
    worker: WorkerView<P>,
    page: ReplayPage<P, G>,
)
    requires
        page.gap is None,
        page.events@.len() > 0,
        page.has_more ==> page.resume_after@ != worker.after,
        page.events@[0].cursor@.thread == worker.last.thread,
        page.events@[0].cursor@.stream == worker.last.stream,
        page.events@[0].cursor@.seq == worker.last.seq + 1,
    ensures
        ({
            let (after, action) = reaction::<P, G, E>(
                worker,
                WorkerInput::Page { valid: Ok(()), page },
            );
            &&& action == ActionView::<P, G, E>::Offer(page.events@[0])
            &&& after == (WorkerView {
                phase: WorkerPhase::OfferingPage,
                pending: page.events@.skip(1),
                resume_after: page.resume_after@,
                through: page.through@,
                has_more: page.has_more,
                page_closed: page.closed,
                offered: page.events@[0].cursor@,
                offered_closes: page.events@[0].closes,
                ..worker
            })
        }),
{
    assert(page.events@.remove(0) =~= page.events@.skip(1));
}

} // verus!
