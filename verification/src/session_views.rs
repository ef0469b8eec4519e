//! Session snapshots and replayable, independent subscriptions.

use vstd::prelude::*;

use crate::errors::{ErrorView, SdkError};
use crate::protocol::{InitializeResult, ProtocolLimits, INVALID_PARAMS};
use crate::stream::{opt_cursor, Cursor, CursorView, Fault, FaultView, StreamEvent};
use crate::text::{digits, join2, same_text, unsigned_text};

verus! {

/// The most events that a subscription may buffer.
pub const MAX_SUBSCRIPTION_BUFFER_CAPACITY: usize = 4096;

const DEFAULT_SUBSCRIPTION_BUFFER_CAPACITY: usize = 64;

const DEFAULT_REPLAY_PAGE_SIZE: u32 = 128;

/// How much history a snapshot holds unless asked otherwise.
pub const DEFAULT_SESSION_HISTORY_LIMIT: u32 = 256;

/// The daemon no longer holds the events behind `requested`.
#[derive(Clone, Debug, PartialEq, Eq)]
pub struct ReplayGap {
    pub reason: String,
    pub requested: Cursor,
    pub replay_floor: Cursor,
    pub current: Cursor,
    pub session_revision: u64,
}

/// What can go wrong with a session view.
#[derive(Debug)]
pub enum SessionViewError {
    Sdk(SdkError),
    UnsupportedCapability { capability: String },
    InvalidCursor { message: String },
    ResyncRequired { gap: ReplayGap },
    InvalidProjection { message: String },
}

/// A [`SessionViewError`] by its texts.
pub enum ViewErrorView {
    Sdk(ErrorView),
    UnsupportedCapability(Seq<char>),
    InvalidCursor(Seq<char>),
    ResyncRequired(ReplayGap),
    InvalidProjection(Seq<char>),
}

impl View for SessionViewError {
    type V = ViewErrorView;

    open spec fn view(&self) -> ViewErrorView {
        match *self {
            SessionViewError::Sdk(error) => ViewErrorView::Sdk(error@),
            SessionViewError::UnsupportedCapability { capability } =>
                ViewErrorView::UnsupportedCapability(capability@),
            SessionViewError::InvalidCursor { message } => ViewErrorView::InvalidCursor(message@),
            SessionViewError::ResyncRequired { gap } => ViewErrorView::ResyncRequired(gap),
            SessionViewError::InvalidProjection { message } => ViewErrorView::InvalidProjection(
                message@,
            ),
        }
    }
}

/// A result that says nothing but whether and how it failed.
pub open spec fn view_outcome(result: Result<(), SessionViewError>) -> Result<(), ViewErrorView> {
    match result {
        Ok(()) => Ok(()),
        Err(error) => Err(error@),
    }
}

/// The message that a view error shows to people.
pub open spec fn view_error_text(error: ViewErrorView) -> Seq<char> {
    match error {
        ViewErrorView::Sdk(error) => crate::errors::error_text(error),
        ViewErrorView::UnsupportedCapability(capability) =>
            "Daemon does not advertise required capability "@ + capability,
        ViewErrorView::InvalidCursor(message) => "Invalid Session cursor: "@ + message,
        ViewErrorView::ResyncRequired(_) => "Session replay requires a fresh snapshot"@,
        ViewErrorView::InvalidProjection(message) => "Invalid Session projection: "@ + message,
    }
}

impl SessionViewError {
    /// The message of this error.
    pub fn message(&self) -> (text: String)
        ensures
            text@ == view_error_text(self@),
    {
        match self {
            SessionViewError::Sdk(error) => error.message(),
            SessionViewError::UnsupportedCapability { capability } => join2(
                "Daemon does not advertise required capability ",
                capability.as_str(),
            ),
            SessionViewError::InvalidCursor { message } => join2(
                "Invalid Session cursor: ",
                message.as_str(),
            ),
            SessionViewError::ResyncRequired { .. } =>
                "Session replay requires a fresh snapshot".to_owned(),
            SessionViewError::InvalidProjection { message } => join2(
                "Invalid Session projection: ",
                message.as_str(),
            ),
        }
    }
}

/// The refusal of an option.
pub open spec fn bad_option(message: Seq<char>) -> ViewErrorView {
    ViewErrorView::Sdk(ErrorView::InvalidConfiguration(message))
}

fn invalid_configuration(message: String) -> (error: SessionViewError)
    ensures
        error@ == bad_option(message@),
{
    SessionViewError::Sdk(SdkError::InvalidConfiguration(message))
}

fn invalid_projection(message: &str) -> (error: SessionViewError)
    ensures
        error@ == ViewErrorView::InvalidProjection(message@),
{
    SessionViewError::InvalidProjection { message: message.to_owned() }
}

/// How a subscription buffers and replays events.
#[derive(Clone, Copy, Debug, PartialEq, Eq, Structural)]
pub struct SubscriptionOptions {
    buffer_capacity: usize,
    replay_page_size: u32,
}

/// Why options for a subscription are refused, if they are.
pub open spec fn subscription_refusal(
    buffer_capacity: usize,
    replay_page_size: u32,
    maximum: u32,
) -> Option<ViewErrorView> {
    if buffer_capacity == 0 || buffer_capacity > MAX_SUBSCRIPTION_BUFFER_CAPACITY {
        Some(bad_option("subscription buffer capacity must be between 1 and "@ + digits(4096)))
    } else if replay_page_size == 0 || replay_page_size > maximum {
        Some(bad_option("replay page size must be between 1 and "@ + digits(maximum as nat)))
    } else {
        None
    }
}

impl SubscriptionOptions {
    #[verifier::type_invariant]
    spec fn sized(self) -> bool {
        &&& 1 <= self.buffer_capacity <= MAX_SUBSCRIPTION_BUFFER_CAPACITY
        &&& 1 <= self.replay_page_size
    }

    /// How many events are buffered.
    pub closed spec fn capacity(self) -> usize {
        self.buffer_capacity
    }

    /// How many events are asked for at once.
    pub closed spec fn page(self) -> u32 {
        self.replay_page_size
    }

    /// Options within the bounds; others are refused.
    pub fn new(buffer_capacity: usize, replay_page_size: u32, limits: &ProtocolLimits) -> (result:
        Result<Self, SessionViewError>)
        ensures
            match result {
                Ok(options) => {
                    &&& subscription_refusal(
                        buffer_capacity,
                        replay_page_size,
                        limits.replay_page,
                    ) is None
                    &&& options.capacity() == buffer_capacity
                    &&& options.page() == replay_page_size
                },
                Err(error) => subscription_refusal(
                    buffer_capacity,
                    replay_page_size,
                    limits.replay_page,
                ) == Some(error@),
            },
    {
        if buffer_capacity == 0 || buffer_capacity > MAX_SUBSCRIPTION_BUFFER_CAPACITY {
            return Err(
                invalid_configuration(
                    join2(
                        "subscription buffer capacity must be between 1 and ",
                        unsigned_text(MAX_SUBSCRIPTION_BUFFER_CAPACITY as u64).as_str(),
                    ),
                ),
            );
        }
        if replay_page_size == 0 || replay_page_size > limits.replay_page {
            return Err(
                invalid_configuration(
                    join2(
                        "replay page size must be between 1 and ",
                        unsigned_text(limits.replay_page as u64).as_str(),
                    ),
                ),
            );
        }
        Ok(SubscriptionOptions { buffer_capacity, replay_page_size })
    }

    /// How many events are buffered.
    pub fn buffer_capacity(&self) -> (capacity: usize)
        ensures
            capacity == self.capacity(),
            1 <= capacity <= MAX_SUBSCRIPTION_BUFFER_CAPACITY,
    {
        proof {
            use_type_invariant(*self);
        }
        self.buffer_capacity
    }

    /// How many events are asked for at once.
    pub fn replay_page_size(&self) -> (size: u32)
        ensures
            size == self.page(),
            1 <= size,
    {
        proof {
            use_type_invariant(*self);
        }
        self.replay_page_size
    }
}

impl Default for SubscriptionOptions {
    fn default() -> (options: Self)
        ensures
            options.capacity() == 64,
            options.page() == 128,
    {
        SubscriptionOptions {
            buffer_capacity: DEFAULT_SUBSCRIPTION_BUFFER_CAPACITY,
            replay_page_size: DEFAULT_REPLAY_PAGE_SIZE,
        }
    }
}

/// How much history a watch starts with, and how it goes on.
#[derive(Clone, Copy, Debug, PartialEq, Eq, Structural)]
pub struct SessionWatchOptions {
    history_limit: u32,
    subscription: SubscriptionOptions,
}

/// The refusal of a history window.
pub open spec fn history_refusal(maximum: u32) -> ViewErrorView {
    bad_option("Session history limit must be between 1 and "@ + digits(maximum as nat))
}

/// Whether a snapshot may hold `history_limit` items.
pub fn check_history_limit(history_limit: u32, limits: &ProtocolLimits) -> (result: Result<
    (),
    SessionViewError,
>)
    ensures
        view_outcome(result) == if 1 <= history_limit <= limits.history_window {
            Ok(())
        } else {
            Err(history_refusal(limits.history_window))
        },
{
    if history_limit == 0 || history_limit > limits.history_window {
        return Err(
            invalid_configuration(
                join2(
                    "Session history limit must be between 1 and ",
                    unsigned_text(limits.history_window as u64).as_str(),
                ),
            ),
        );
    }
    Ok(())
}

impl SessionWatchOptions {
    #[verifier::type_invariant]
    spec fn sized(self) -> bool {
        1 <= self.history_limit
    }

    /// How much history the snapshot holds.
    pub closed spec fn history(self) -> u32 {
        self.history_limit
    }

    /// How the watch goes on behind the snapshot.
    pub closed spec fn follow_up(self) -> SubscriptionOptions {
        self.subscription
    }

    /// Options within the bounds; others are refused.
    pub fn new(
        history_limit: u32,
        subscription: SubscriptionOptions,
        limits: &ProtocolLimits,
    ) -> (result: Result<Self, SessionViewError>)
        ensures
            match result {
                Ok(options) => {
                    &&& 1 <= history_limit <= limits.history_window
                    &&& options.history() == history_limit
                    &&& options.follow_up() == subscription
                },
                Err(error) => {
                    &&& !(1 <= history_limit <= limits.history_window)
                    &&& error@ == history_refusal(limits.history_window)
                },
            },
    {
        match check_history_limit(history_limit, limits) {
            Ok(()) => Ok(SessionWatchOptions { history_limit, subscription }),
            Err(error) => Err(error),
        }
    }

    /// How much history the snapshot holds.
    pub fn history_limit(&self) -> (limit: u32)
        ensures
            limit == self.history(),
            1 <= limit,
    {
        proof {
            use_type_invariant(*self);
        }
        self.history_limit
    }

    /// How the watch goes on behind the snapshot.
    pub fn subscription(&self) -> (subscription: &SubscriptionOptions)
        ensures
            *subscription == self.follow_up(),
    {
        &self.subscription
    }
}

impl Default for SessionWatchOptions {
    fn default() -> (options: Self)
        ensures
            options.history() == 256,
            options.follow_up().capacity() == 64,
            options.follow_up().page() == 128,
    {
        SessionWatchOptions {
            history_limit: DEFAULT_SESSION_HISTORY_LIMIT,
            subscription: SubscriptionOptions::default(),
        }
    }
}

/// Where the protocol admits the defaults, the defaults are options that the
/// constructors accept.
pub proof fn defaults_are_accepted(limits: ProtocolLimits)
    requires
        limits.admit_defaults(),
    ensures
        subscription_refusal(64, 128, limits.replay_page) is None,
        1 <= DEFAULT_SESSION_HISTORY_LIMIT <= limits.history_window,
{
}

/// Whether the daemon offers what the operation needs.
pub fn require_session_capability(initialized: &InitializeResult, capability: &str) -> (result:
    Result<(), SessionViewError>)
    ensures
        view_outcome(result) == if initialized.offers(capability@) {
            Ok(())
        } else {
            Err(ViewErrorView::UnsupportedCapability(capability@))
        },
{
    if initialized.advertises(capability) {
        Ok(())
    } else {
        Err(SessionViewError::UnsupportedCapability { capability: capability.to_owned() })
    }
}

/// What the check of a snapshot says.
pub open spec fn snapshot_verdict(
    valid: Result<(), String>,
    snapshot_thread: Seq<char>,
    snapshot_capacity: u32,
    thread: Seq<char>,
    history_limit: u32,
) -> Result<(), ViewErrorView> {
    match valid {
        Err(message) => Err(ViewErrorView::InvalidProjection(message@)),
        Ok(()) => if snapshot_thread != thread {
            Err(
                ViewErrorView::InvalidProjection(
                    "Daemon returned a snapshot for another Session"@,
                ),
            )
        } else if snapshot_capacity != history_limit {
            Err(
                ViewErrorView::InvalidProjection(
                    "Daemon returned a different Session history window capacity"@,
                ),
            )
        } else {
            Ok(())
        },
    }
}

/// Whether the daemon's snapshot is the one that was asked for. `valid` says whether
/// the snapshot is consistent in itself.
pub fn check_snapshot(
    valid: Result<(), String>,
    snapshot_thread: &str,
    snapshot_capacity: u32,
    thread_id: &str,
    history_limit: u32,
) -> (result: Result<(), SessionViewError>)
    ensures
        view_outcome(result) == snapshot_verdict(
            valid,
            snapshot_thread@,
            snapshot_capacity,
            thread_id@,
            history_limit,
        ),
{
    if let Err(message) = valid {
        return Err(SessionViewError::InvalidProjection { message });
    }
    if !same_text(snapshot_thread, thread_id) {
        return Err(invalid_projection("Daemon returned a snapshot for another Session"));
    }
    if snapshot_capacity != history_limit {
        return Err(
            invalid_projection("Daemon returned a different Session history window capacity"),
        );
    }
    Ok(())
}

/// What a failed request for a page means to the subscriber.
pub open spec fn page_error(error: ErrorView) -> ViewErrorView {
    match error {
        ErrorView::Rpc { code, message } => if code == INVALID_PARAMS {
            ViewErrorView::InvalidCursor(message)
        } else {
            ViewErrorView::Sdk(error)
        },
        _ => ViewErrorView::Sdk(error),
    }
}

/// Turns the failure of a page request into the subscriber's error: parameters that
/// the daemon refuses mean that the cursor is bad.
pub fn replay_page_error(error: SdkError) -> (mapped: SessionViewError)
    ensures
        mapped@ == page_error(error@),
{
    match error {
        SdkError::Rpc { code, message } => {
            if code == INVALID_PARAMS {
                SessionViewError::InvalidCursor { message }
            } else {
                SessionViewError::Sdk(SdkError::Rpc { code, message })
            }
        },
        error => SessionViewError::Sdk(error),
    }
}

/// What the check of a cursor to continue from says.
pub open spec fn cursor_verdict(
    valid: Result<(), String>,
    cursor: CursorView,
    thread: Seq<char>,
) -> Result<(), ViewErrorView> {
    match valid {
        Err(message) => Err(ViewErrorView::InvalidCursor(message@)),
        Ok(()) => if cursor.thread != thread {
            Err(ViewErrorView::InvalidCursor("Session cursor belongs to another thread"@))
        } else {
            Ok(())
        },
    }
}

/// Whether `cursor` names a place in the events of `thread_id`. Nothing needs to be known
/// of the peer for this.
pub fn check_cursor(valid: Result<(), String>, cursor: &Cursor, thread_id: &str) -> (result: Result<
    (),
    SessionViewError,
>)
    ensures
        view_outcome(result) == cursor_verdict(valid, cursor@, thread_id@),
{
    if let Err(message) = valid {
        return Err(SessionViewError::InvalidCursor { message });
    }
    if !same_text(cursor.thread_id.as_str(), thread_id) {
        return Err(
            SessionViewError::InvalidCursor {
                message: "Session cursor belongs to another thread".to_owned(),
            },
        );
    }
    Ok(())
}

/// What a peer that was asked for views and for their replay is found to offer.
pub open spec fn replay_verdict(
    initialized: InitializeResult,
    views: Seq<char>,
    replay: Seq<char>,
) -> Result<(), ViewErrorView> {
    if !initialized.offers(views) {
        Err(ViewErrorView::UnsupportedCapability(views))
    } else if !initialized.offers(replay) {
        Err(ViewErrorView::UnsupportedCapability(replay))
    } else {
        Ok(())
    }
}

/// Whether events can be followed. `views` and `replay` are the capabilities that it
/// needs.
pub fn check_replay(initialized: &InitializeResult, views: &str, replay: &str) -> (result: Result<
    (),
    SessionViewError,
>)
    ensures
        view_outcome(result) == replay_verdict(*initialized, views@, replay@),
{
    match require_session_capability(initialized, views) {
        Err(error) => Err(error),
        Ok(()) => require_session_capability(initialized, replay),
    }
}

/// What ends a subscription, as its subscriber sees it.
pub open spec fn fault_error(fault: FaultView<ReplayGap, SessionViewError>) -> ViewErrorView {
    match fault {
        FaultView::Gap(gap) => ViewErrorView::ResyncRequired(gap),
        FaultView::Projection(message) => ViewErrorView::InvalidProjection(message),
        FaultView::Source(error) => error@,
    }
}

/// Turns the end of a subscription into its subscriber's error.
pub fn session_fault(fault: Fault<ReplayGap, SessionViewError>) -> (error: SessionViewError)
    ensures
        error@ == fault_error(fault@),
{
    match fault {
        Fault::Gap(gap) => SessionViewError::ResyncRequired { gap },
        Fault::Projection(message) => SessionViewError::InvalidProjection { message },
        Fault::Source(error) => error,
    }
}

/// What a session event carries, as far as run subscriptions look at it.
#[derive(Debug)]
pub enum SessionPayload<R> {
    RunEvent { turn_id: String, finished: bool, event: R },
    Other,
}

/// One event of a run with its position in the session's stream.
#[derive(Debug)]
pub struct RunEventEnvelope<R> {
    pub cursor: Cursor,
    pub event: R,
}

/// A subscription that shows the events of one run.
#[derive(Debug)]
pub struct RunEventSubscription {
    pub turn_id: String,
    pub last_received: Option<Cursor>,
    pub ended: bool,
}

/// A [`RunEventSubscription`] by its texts.
pub struct RunSubscriptionView {
    pub turn: Seq<char>,
    pub last_received: Option<CursorView>,
    pub ended: bool,
}

impl View for RunEventSubscription {
    type V = RunSubscriptionView;

    open spec fn view(&self) -> RunSubscriptionView {
        RunSubscriptionView {
            turn: self.turn_id@,
            last_received: opt_cursor(self.last_received),
            ended: self.ended,
        }
    }
}

/// The event concerns the run `turn`.
pub open spec fn concerns<R>(payload: SessionPayload<R>, turn: Seq<char>) -> bool {
    match payload {
        SessionPayload::RunEvent { turn_id, .. } => turn_id@ == turn,
        SessionPayload::Other => false,
    }
}

/// The event is the last one of its run.
pub open spec fn finishes<R>(payload: SessionPayload<R>) -> bool {
    match payload {
        SessionPayload::RunEvent { finished, .. } => finished,
        SessionPayload::Other => false,
    }
}

impl RunEventSubscription {
    /// A subscription to the run `turn_id` that has shown nothing yet.
    pub fn new(turn_id: &str) -> (subscription: Self)
        ensures
            subscription@ == (RunSubscriptionView {
                turn: turn_id@,
                last_received: None,
                ended: false,
            }),
    {
        RunEventSubscription { turn_id: turn_id.to_owned(), last_received: None, ended: false }
    }

    /// The position of the last event that was shown.
    pub fn last_received(&self) -> (cursor: Option<&Cursor>)
        ensures
            match cursor {
                Some(cursor) => self@.last_received == Some(cursor@),
                None => self@.last_received is None,
            },
    {
        self.last_received.as_ref()
    }

    /// Shows an event of the session if it concerns this run. The event that
    /// finishes the run ends the subscription.
    pub fn select<R>(&mut self, event: StreamEvent<SessionPayload<R>>) -> (shown: Option<
        RunEventEnvelope<R>,
    >)
        requires
            !old(self)@.ended,
        ensures
            match shown {
                None => {
                    &&& !concerns(event.payload, old(self)@.turn)
                    &&& final(self)@ == old(self)@
                },
                Some(envelope) => {
                    &&& concerns(event.payload, old(self)@.turn)
                    &&& envelope.cursor@ == event.cursor@
                    &&& envelope.event == event.payload->event
                    &&& final(self)@ == (RunSubscriptionView {
                        turn: old(self)@.turn,
                        last_received: Some(event.cursor@),
                        ended: finishes(event.payload),
                    })
                },
            },
    {
        match event.payload {
            SessionPayload::RunEvent { turn_id, finished, event: run_event } => {
                if same_text(turn_id.as_str(), self.turn_id.as_str()) {
                    if finished {
                        self.ended = true;
                    }
                    self.last_received = Some(event.cursor.clone());
                    Some(RunEventEnvelope { cursor: event.cursor, event: run_event })
                } else {
                    None
                }
            },
            SessionPayload::Other => None,
        }
    }
}

/// Options of a subscription are taken exactly where both lie within their bounds.
pub proof fn subscriptions_within_bounds_are_taken(
    buffer_capacity: usize,
    replay_page_size: u32,
    maximum: u32,
)
    ensures
        ({
            let refusal = subscription_refusal(buffer_capacity, replay_page_size, maximum);
            &&& refusal is None <==> 1 <= buffer_capacity <= 4096 && 1 <= replay_page_size
                <= maximum
            &&& refusal matches Some(error) ==> (error matches ViewErrorView::Sdk(
                ErrorView::InvalidConfiguration(message),
            ) && if 1 <= buffer_capacity <= 4096 {
                digits(maximum as nat).is_suffix_of(message)
            } else {
                digits(4096).is_suffix_of(message)
            })
        }),
        history_refusal(maximum) matches ViewErrorView::Sdk(
            ErrorView::InvalidConfiguration(message),
        ) && digits(maximum as nat).is_suffix_of(message),
{
}

/// A snapshot is taken exactly where it is consistent, of the session that was asked for and
/// of the size that was asked for.
pub proof fn only_the_snapshot_asked_for_is_taken(
    valid: Result<(), String>,
    snapshot_thread: Seq<char>,
    snapshot_capacity: u32,
    thread: Seq<char>,
    history_limit: u32,
)
    ensures
        ({
            let verdict = snapshot_verdict(
                valid,
                snapshot_thread,
                snapshot_capacity,
                thread,
                history_limit,
            );
            &&& verdict is Ok <==> valid is Ok && snapshot_thread == thread && snapshot_capacity
                == history_limit
            &&& verdict matches Err(error) ==> error is InvalidProjection
            &&& valid matches Err(message) ==> verdict == Err::<(), ViewErrorView>(
                ViewErrorView::InvalidProjection(message@),
            )
        }),
{
}

/// Parameters of a page that the daemon refuses mean a bad cursor, with the daemon's message;
/// every other failure is passed on as it is.
pub proof fn refused_parameters_mean_a_bad_cursor(error: ErrorView, message: Seq<char>)
    ensures
        page_error(ErrorView::Rpc { code: -32602i64, message }) == ViewErrorView::InvalidCursor(
            message,
        ),
        !(error matches ErrorView::Rpc { code, .. } && code == -32602) ==> page_error(error)
            == ViewErrorView::Sdk(error),
{
}

/// A cursor can be continued from exactly where it is well formed and of the same session.
pub proof fn only_own_cursors_are_continued(
    valid: Result<(), String>,
    cursor: CursorView,
    thread: Seq<char>,
)
    ensures
        cursor_verdict(valid, cursor, thread) is Ok <==> valid is Ok && cursor.thread == thread,
        cursor_verdict(valid, cursor, thread) matches Err(error) ==> error is InvalidCursor,
        valid matches Err(message) ==> cursor_verdict(valid, cursor, thread) == Err::<
            (),
            ViewErrorView,
        >(ViewErrorView::InvalidCursor(message@)),
{
}

/// Events can be followed exactly where the daemon has both views and their replay; the
/// first that is missing is named.
pub proof fn following_needs_views_and_replay(
    initialized: InitializeResult,
    views: Seq<char>,
    replay: Seq<char>,
)
    ensures
        ({
            let verdict = replay_verdict(initialized, views, replay);
            &&& verdict is Ok <==> initialized.offers(views) && initialized.offers(replay)
            &&& !initialized.offers(views) ==> verdict == Err::<(), ViewErrorView>(
                ViewErrorView::UnsupportedCapability(views),
            )
            &&& initialized.offers(views) && !initialized.offers(replay) ==> verdict == Err::<
                (),
                ViewErrorView,
            >(ViewErrorView::UnsupportedCapability(replay))
        }),
{
}

/// A subscription ends with the gap, the complaint or the failure that ended it.
pub proof fn ends_are_told_as_they_are(
    gap: ReplayGap,
    message: Seq<char>,
    error: SessionViewError,
)
    ensures
        fault_error(FaultView::Gap(gap)) == ViewErrorView::ResyncRequired(gap),
        fault_error(FaultView::Projection(message)) == ViewErrorView::InvalidProjection(message),
        fault_error(FaultView::Source(error)) == error@,
{
}

/// An event concerns a run exactly where it is one of that run, and finishes it where it
/// says so.
pub proof fn events_concern_their_run<R>(
    turn_id: String,
    finished: bool,
    event: R,
    turn: Seq<char>,
)
    ensures
        ({
            let payload = SessionPayload::RunEvent { turn_id, finished, event };
            &&& concerns(payload, turn) <==> turn_id@ == turn
            &&& finishes(payload) <==> finished
        }),
        !concerns(SessionPayload::<R>::Other, turn),
        !finishes(SessionPayload::<R>::Other),
{
}

/// The message of a view error tells its particulars, and a result is told as it is.
pub proof fn view_errors_tell_their_particulars(
    detail: Seq<char>,
    error: ErrorView,
    result: Result<(), SessionViewError>,
)
    ensures
        view_error_text(ViewErrorView::Sdk(error)) == crate::errors::error_text(error),
        detail.is_suffix_of(view_error_text(ViewErrorView::UnsupportedCapability(detail))),
        detail.is_suffix_of(view_error_text(ViewErrorView::InvalidCursor(detail))),
        detail.is_suffix_of(view_error_text(ViewErrorView::InvalidProjection(detail))),
        view_outcome(result) is Ok <==> result is Ok,
        result matches Err(cause) ==> view_outcome(result) == Err::<(), ViewErrorView>(cause@),
        bad_option(detail) == ViewErrorView::Sdk(ErrorView::InvalidConfiguration(detail)),
{
}

} // verus!
