//! Questions to the application: which sessions use them, and how they are watched
//! and answered.

use vstd::prelude::*;

use crate::client::{ClientState, ClientView};
use crate::errors::{error_text, outcome, ErrorView, SdkError};
use crate::hubs::with_live_hub;
use crate::json::{
    insert_member, json_object, json_string, new_object, no_members, object_value, string_value,
};
use crate::protocol::{CAPABILITY_INTERACTIONS, INVALID_PARAMS};
use crate::sessions::existing_verdict;
use crate::stream::{Cursor, Fault, StreamKind};
use crate::tables::{get_handle, insert_handle};
use crate::text::{digits, join2, same_text, unsigned_text};

verus! {

/// The most events that a subscriber may buffer.
pub const MAX_OUTPUT_CAPACITY: usize = 4096;

/// The most events that are asked for at once.
pub const MAX_REPLAY_PAGE_LIMIT: u32 = 256;

const DEFAULT_OUTPUT_CAPACITY: usize = 64;

const DEFAULT_REPLAY_PAGE_LIMIT: u32 = 128;

/// What can go wrong with a view of interactions. The numbers of a gap stand for what
/// the daemon said of it and for the snapshot to go on from.
#[derive(Debug)]
pub enum InteractionViewError {
    Sdk(SdkError),
    UnsupportedCapability { capability: String },
    NotEnabled { thread_id: String },
    InvalidCursor { message: String },
    ResyncRequired { gap: u64, snapshot: u64 },
    InvalidProjection { message: String },
}

/// An [`InteractionViewError`] by its texts.
pub enum InteractionErrorView {
    Sdk(ErrorView),
    UnsupportedCapability(Seq<char>),
    NotEnabled(Seq<char>),
    InvalidCursor(Seq<char>),
    ResyncRequired { gap: u64, snapshot: u64 },
    InvalidProjection(Seq<char>),
}

impl View for InteractionViewError {
    type V = InteractionErrorView;

    open spec fn view(&self) -> InteractionErrorView {
        match *self {
            InteractionViewError::Sdk(error) => InteractionErrorView::Sdk(error@),
            InteractionViewError::UnsupportedCapability { capability } =>
                InteractionErrorView::UnsupportedCapability(capability@),
            InteractionViewError::NotEnabled { thread_id } => InteractionErrorView::NotEnabled(
                thread_id@,
            ),
            InteractionViewError::InvalidCursor { message } =>
                InteractionErrorView::InvalidCursor(message@),
            InteractionViewError::ResyncRequired { gap, snapshot } =>
                InteractionErrorView::ResyncRequired { gap, snapshot },
            InteractionViewError::InvalidProjection { message } =>
                InteractionErrorView::InvalidProjection(message@),
        }
    }
}

/// A result that says nothing but whether and how it failed.
pub open spec fn interaction_outcome(result: Result<(), InteractionViewError>) -> Result<
    (),
    InteractionErrorView,
> {
    match result {
        Ok(()) => Ok(()),
        Err(error) => Err(error@),
    }
}

/// The message that an error shows to people.
pub open spec fn interaction_error_text(error: InteractionErrorView) -> Seq<char> {
    match error {
        InteractionErrorView::Sdk(error) => error_text(error),
        InteractionErrorView::UnsupportedCapability(capability) =>
            "Daemon does not advertise required capability "@ + capability,
        InteractionErrorView::NotEnabled(session) =>
            "Interactions are not enabled for Session "@ + session,
        InteractionErrorView::InvalidCursor(message) => "Invalid Interaction cursor: "@ + message,
        InteractionErrorView::ResyncRequired { .. } =>
            "Interaction replay requires the attached authoritative snapshot"@,
        InteractionErrorView::InvalidProjection(message) => "Invalid Interaction projection: "@
            + message,
    }
}

impl InteractionViewError {
    /// The message of this error.
    pub fn message(&self) -> (text: String)
        ensures
            text@ == interaction_error_text(self@),
    {
        match self {
            InteractionViewError::Sdk(error) => error.message(),
            InteractionViewError::UnsupportedCapability { capability } => join2(
                "Daemon does not advertise required capability ",
                capability.as_str(),
            ),
            InteractionViewError::NotEnabled { thread_id } => join2(
                "Interactions are not enabled for Session ",
                thread_id.as_str(),
            ),
            InteractionViewError::InvalidCursor { message } => join2(
                "Invalid Interaction cursor: ",
                message.as_str(),
            ),
            InteractionViewError::ResyncRequired { .. } =>
                "Interaction replay requires the attached authoritative snapshot".to_owned(),
            InteractionViewError::InvalidProjection { message } => join2(
                "Invalid Interaction projection: ",
                message.as_str(),
            ),
        }
    }
}

fn invalid_configuration(message: String) -> (error: InteractionViewError)
    ensures
        error@ == InteractionErrorView::Sdk(ErrorView::InvalidConfiguration(message@)),
{
    InteractionViewError::Sdk(SdkError::InvalidConfiguration(message))
}

fn invalid_projection(message: &str) -> (error: InteractionViewError)
    ensures
        error@ == InteractionErrorView::InvalidProjection(message@),
{
    InteractionViewError::InvalidProjection { message: message.to_owned() }
}

/// How a subscription to interactions buffers and replays events.
#[derive(Clone, Copy, Debug, PartialEq, Eq, Structural)]
pub struct InteractionSubscriptionOptions {
    output_capacity: usize,
    replay_page_limit: u32,
}

/// Why options are refused, if they are.
pub open spec fn options_refusal(output_capacity: usize, replay_page_limit: u32) -> Option<
    InteractionErrorView,
> {
    if output_capacity == 0 || output_capacity > MAX_OUTPUT_CAPACITY {
        Some(
            InteractionErrorView::Sdk(
                ErrorView::InvalidConfiguration(
                    "Interaction subscriber output capacity must be between 1 and "@ + digits(
                        4096,
                    ),
                ),
            ),
        )
    } else if replay_page_limit == 0 || replay_page_limit > MAX_REPLAY_PAGE_LIMIT {
        Some(
            InteractionErrorView::Sdk(
                ErrorView::InvalidConfiguration(
                    "Interaction replay page limit must be between 1 and "@ + digits(256),
                ),
            ),
        )
    } else {
        None
    }
}

impl InteractionSubscriptionOptions {
    #[verifier::type_invariant]
    spec fn sized(self) -> bool {
        &&& 1 <= self.output_capacity <= MAX_OUTPUT_CAPACITY
        &&& 1 <= self.replay_page_limit <= MAX_REPLAY_PAGE_LIMIT
    }

    /// How many events are buffered.
    pub closed spec fn capacity(self) -> usize {
        self.output_capacity
    }

    /// How many events are asked for at once.
    pub closed spec fn page(self) -> u32 {
        self.replay_page_limit
    }

    /// Options within the bounds; others are refused.
    pub fn new(output_capacity: usize, replay_page_limit: u32) -> (result: Result<
        Self,
        InteractionViewError,
    >)
        ensures
            match result {
                Ok(options) => {
                    &&& options_refusal(output_capacity, replay_page_limit) is None
                    &&& options.capacity() == output_capacity
                    &&& options.page() == replay_page_limit
                },
                Err(error) => options_refusal(output_capacity, replay_page_limit) == Some(error@),
            },
    {
        if output_capacity == 0 || output_capacity > MAX_OUTPUT_CAPACITY {
            return Err(
                invalid_configuration(
                    join2(
                        "Interaction subscriber output capacity must be between 1 and ",
                        unsigned_text(MAX_OUTPUT_CAPACITY as u64).as_str(),
                    ),
                ),
            );
        }
        if replay_page_limit == 0 || replay_page_limit > MAX_REPLAY_PAGE_LIMIT {
            return Err(
                invalid_configuration(
                    join2(
                        "Interaction replay page limit must be between 1 and ",
                        unsigned_text(MAX_REPLAY_PAGE_LIMIT as u64).as_str(),
                    ),
                ),
            );
        }
        Ok(InteractionSubscriptionOptions { output_capacity, replay_page_limit })
    }

    /// How many events are buffered.
    pub fn output_capacity(&self) -> (capacity: usize)
        ensures
            capacity == self.capacity(),
            1 <= capacity <= MAX_OUTPUT_CAPACITY,
    {
        proof {
            use_type_invariant(*self);
        }
        self.output_capacity
    }

    /// How many events are asked for at once.
    pub fn replay_page_limit(&self) -> (limit: u32)
        ensures
            limit == self.page(),
            1 <= limit <= MAX_REPLAY_PAGE_LIMIT,
    {
        proof {
            use_type_invariant(*self);
        }
        self.replay_page_limit
    }
}

impl Default for InteractionSubscriptionOptions {
    fn default() -> (options: Self)
        ensures
            options.capacity() == 64,
            options.page() == 128,
    {
        InteractionSubscriptionOptions {
            output_capacity: DEFAULT_OUTPUT_CAPACITY,
            replay_page_limit: DEFAULT_REPLAY_PAGE_LIMIT,
        }
    }
}

/// How a watch of interactions goes on behind its snapshot.
#[derive(Clone, Copy, Debug, PartialEq, Eq, Structural)]
pub struct InteractionWatchOptions {
    subscription: InteractionSubscriptionOptions,
}

impl InteractionWatchOptions {
    /// How the watch goes on.
    pub closed spec fn follow_up(self) -> InteractionSubscriptionOptions {
        self.subscription
    }

    /// Options within the bounds; others are refused.
    pub fn new(output_capacity: usize, replay_page_limit: u32) -> (result: Result<
        Self,
        InteractionViewError,
    >)
        ensures
            match result {
                Ok(options) => {
                    &&& options_refusal(output_capacity, replay_page_limit) is None
                    &&& options.follow_up().capacity() == output_capacity
                    &&& options.follow_up().page() == replay_page_limit
                },
                Err(error) => options_refusal(output_capacity, replay_page_limit) == Some(error@),
            },
    {
        match InteractionSubscriptionOptions::new(output_capacity, replay_page_limit) {
            Ok(subscription) => Ok(InteractionWatchOptions { subscription }),
            Err(error) => Err(error),
        }
    }

    /// How many events are buffered.
    pub fn output_capacity(&self) -> (capacity: usize)
        ensures
            capacity == self.follow_up().capacity(),
            1 <= capacity <= MAX_OUTPUT_CAPACITY,
    {
        self.subscription.output_capacity()
    }

    /// How many events are asked for at once.
    pub fn replay_page_limit(&self) -> (limit: u32)
        ensures
            limit == self.follow_up().page(),
            1 <= limit <= MAX_REPLAY_PAGE_LIMIT,
    {
        self.subscription.replay_page_limit()
    }

    /// How the watch goes on.
    pub fn subscription(&self) -> (subscription: &InteractionSubscriptionOptions)
        ensures
            *subscription == self.follow_up(),
    {
        &self.subscription
    }
}

impl Default for InteractionWatchOptions {
    fn default() -> (options: Self)
        ensures
            options.follow_up().capacity() == 64,
            options.follow_up().page() == 128,
    {
        InteractionWatchOptions { subscription: InteractionSubscriptionOptions::default() }
    }
}

/// The client when a session uses interactions.
pub open spec fn interactions_on(client: ClientView, session: Seq<char>) -> ClientView {
    ClientView {
        interaction_sessions: client.interaction_sessions.insert(session, 0),
        ..client
    }
}

/// Whether the interactions of a session can be used.
pub open spec fn session_verdict(client: ClientView, session: Seq<char>) -> Result<(), ErrorView> {
    if !client.initialization.offering(CAPABILITY_INTERACTIONS@) {
        Err(ErrorView::ProtocolCompatibility("Daemon does not advertise interactions.v1"@))
    } else if existing_verdict(client, session) is Err {
        existing_verdict(client, session)
    } else if !client.interaction_sessions.contains_key(session) {
        Err(
            ErrorView::InvalidConfiguration(
                "Interactions are not enabled for Session "@ + session,
            ),
        )
    } else {
        Ok(())
    }
}

/// Whether the interactions of a session can be watched by someone who is known to be
/// talking to a daemon that has them.
pub open spec fn watch_verdict(client: ClientView, session: Seq<char>) -> Result<
    (),
    InteractionErrorView,
> {
    match existing_verdict(client, session) {
        Err(error) => Err(InteractionErrorView::Sdk(error)),
        Ok(()) => if client.interaction_sessions.contains_key(session) {
            Ok(())
        } else {
            Err(InteractionErrorView::NotEnabled(session))
        },
    }
}

/// Whether the interactions of a session can be watched.
pub open spec fn view_verdict(client: ClientView, session: Seq<char>) -> Result<
    (),
    InteractionErrorView,
> {
    if !client.initialization.offering(CAPABILITY_INTERACTIONS@) {
        Err(InteractionErrorView::UnsupportedCapability(CAPABILITY_INTERACTIONS@))
    } else {
        watch_verdict(client, session)
    }
}

impl ClientState {
    /// Lets a session use interactions.
    pub fn enable_interactions(&mut self, session: &str) -> (result: Result<(), SdkError>)
        ensures
            outcome(result) == existing_verdict(old(self)@, session@),
            final(self)@ == if result is Ok {
                interactions_on(old(self)@, session@)
            } else {
                old(self)@
            },
    {
        if let Err(error) = self.check_existing_session_open(session) {
            return Err(error);
        }
        insert_handle(&mut self.interaction_sessions, session.to_owned(), 0);
        Ok(())
    }

    /// Whether a session uses interactions.
    pub fn interactions_enabled(&self, session: &str) -> (enabled: bool)
        ensures
            enabled == self@.interaction_sessions.contains_key(session@),
    {
        get_handle(&self.interaction_sessions, session).is_some()
    }

    /// Whether the daemon has interactions.
    pub fn supports_interactions(&self) -> (supports: bool)
        ensures
            supports == self@.initialization.offering(CAPABILITY_INTERACTIONS@),
    {
        self.initialization.offers(CAPABILITY_INTERACTIONS)
    }

    /// Whether the interactions of a session can be used.
    pub fn require_interaction_session(&self, session: &str) -> (result: Result<(), SdkError>)
        ensures
            outcome(result) == session_verdict(self@, session@),
    {
        if !self.supports_interactions() {
            return Err(
                SdkError::ProtocolCompatibility(
                    "Daemon does not advertise interactions.v1".to_owned(),
                ),
            );
        }
        if let Err(error) = self.check_existing_session_open(session) {
            return Err(error);
        }
        if !self.interactions_enabled(session) {
            return Err(
                SdkError::InvalidConfiguration(
                    join2("Interactions are not enabled for Session ", session),
                ),
            );
        }
        Ok(())
    }

    fn check_watch(&self, session: &str) -> (result: Result<(), InteractionViewError>)
        ensures
            interaction_outcome(result) == watch_verdict(self@, session@),
    {
        if let Err(error) = self.check_existing_session_open(session) {
            return Err(InteractionViewError::Sdk(error));
        }
        if !self.interactions_enabled(session) {
            return Err(InteractionViewError::NotEnabled { thread_id: session.to_owned() });
        }
        Ok(())
    }

    /// Whether the interactions of a session can be watched.
    pub fn require_interaction_view(&self, session: &str) -> (result: Result<
        (),
        InteractionViewError,
    >)
        ensures
            interaction_outcome(result) == view_verdict(self@, session@),
    {
        if !self.supports_interactions() {
            return Err(
                InteractionViewError::UnsupportedCapability {
                    capability: CAPABILITY_INTERACTIONS.to_owned(),
                },
            );
        }
        self.check_watch(session)
    }

    /// Subscribes to a session's interactions. The result is the hub to subscribe to:
    /// the session's own, where `alive` says that someone still holds it, else `fresh`.
    pub fn subscribe_interaction_events(&mut self, session: &str, fresh: u64, alive: bool) -> (result:
        Result<u64, InteractionViewError>)
        ensures
            match result {
                Ok(hub) => {
                    &&& watch_verdict(old(self)@, session@) is Ok
                    &&& final(self)@ == (ClientView {
                        interaction_event_hubs: with_live_hub(
                            old(self)@.interaction_event_hubs,
                            session@,
                            fresh,
                            alive,
                        ),
                        ..old(self)@
                    })
                    &&& final(self)@.interaction_event_hubs.contains_pair(session@, hub)
                },
                Err(error) => {
                    &&& watch_verdict(old(self)@, session@) == Err::<(), InteractionErrorView>(
                        error@,
                    )
                    &&& final(self)@ == old(self)@
                },
            },
    {
        if let Err(error) = self.check_watch(session) {
            return Err(error);
        }
        Ok(self.ensure_live_hub(StreamKind::Interaction, session, fresh, alive))
    }
}

/// Whether the daemon's snapshot is the one that was asked for. `valid` says whether the
/// snapshot is consistent in itself.
pub fn check_interaction_snapshot(
    valid: Result<(), String>,
    snapshot_thread: &str,
    thread_id: &str,
) -> (result: Result<(), InteractionViewError>)
    ensures
        interaction_outcome(result) == match valid {
            Err(message) => Err(InteractionErrorView::InvalidProjection(message@)),
            Ok(()) => if snapshot_thread@ == thread_id@ {
                Ok(())
            } else {
                Err(
                    InteractionErrorView::InvalidProjection(
                        "Daemon returned an Interaction snapshot for another Session"@,
                    ),
                )
            },
        },
{
    if let Err(message) = valid {
        return Err(InteractionViewError::InvalidProjection { message });
    }
    if !same_text(snapshot_thread, thread_id) {
        return Err(
            invalid_projection("Daemon returned an Interaction snapshot for another Session"),
        );
    }
    Ok(())
}

/// Turns the failure of a page request into the subscriber's error: parameters that the
/// daemon refuses mean that the cursor is bad.
pub fn interaction_page_error(error: SdkError) -> (mapped: InteractionViewError)
    ensures
        mapped@ == match error@ {
            ErrorView::Rpc { code, message } => if code == INVALID_PARAMS {
                InteractionErrorView::InvalidCursor(message)
            } else {
                InteractionErrorView::Sdk(error@)
            },
            _ => InteractionErrorView::Sdk(error@),
        },
{
    match error {
        SdkError::Rpc { code, message } => {
            if code == INVALID_PARAMS {
                InteractionViewError::InvalidCursor { message }
            } else {
                InteractionViewError::Sdk(SdkError::Rpc { code, message })
            }
        },
        error => InteractionViewError::Sdk(error),
    }
}

/// Whether a subscription may continue behind `cursor`.
pub fn check_interaction_resume(valid: Result<(), String>, cursor: &Cursor, thread_id: &str) -> (result:
    Result<(), InteractionViewError>)
    ensures
        interaction_outcome(result) == match valid {
            Err(message) => Err(InteractionErrorView::InvalidCursor(message@)),
            Ok(()) => if cursor.thread_id@ == thread_id@ {
                Ok(())
            } else {
                Err(
                    InteractionErrorView::InvalidCursor(
                        "Interaction cursor belongs to another Session"@,
                    ),
                )
            },
        },
{
    if let Err(message) = valid {
        return Err(InteractionViewError::InvalidCursor { message });
    }
    if !same_text(cursor.thread_id.as_str(), thread_id) {
        return Err(
            InteractionViewError::InvalidCursor {
                message: "Interaction cursor belongs to another Session".to_owned(),
            },
        );
    }
    Ok(())
}

/// Turns the end of a subscription into its subscriber's error. A gap comes with the
/// snapshot to go on from, or with the failure to get one.
pub fn interaction_fault(
    fault: Fault<u64, InteractionViewError>,
    snapshot: Result<u64, InteractionViewError>,
) -> (error: InteractionViewError)
    ensures
        error@ == match fault {
            Fault::Gap(gap) => match snapshot {
                Ok(snapshot) => InteractionErrorView::ResyncRequired { gap, snapshot },
                Err(failure) => failure@,
            },
            Fault::Projection(message) => InteractionErrorView::InvalidProjection(message@),
            Fault::Source(source) => source@,
        },
{
    match fault {
        Fault::Gap(gap) => match snapshot {
            Ok(snapshot) => InteractionViewError::ResyncRequired { gap, snapshot },
            Err(failure) => failure,
        },
        Fault::Projection(message) => InteractionViewError::InvalidProjection { message },
        Fault::Source(source) => source,
    }
}

/// Whether the daemon's answer to a response is one to that response.
pub fn check_interaction_response(valid: Result<(), String>, answered: &str, request_id: &str) -> (result:
    Result<(), SdkError>)
    ensures
        outcome(result) == match valid {
            Err(message) => Err(ErrorView::Internal(message@)),
            Ok(()) => if answered@ == request_id@ {
                Ok(())
            } else {
                Err(
                    ErrorView::Internal(
                        "Daemon returned a different Interaction response identity"@,
                    ),
                )
            },
        },
{
    if let Err(message) = valid {
        return Err(SdkError::Internal(message));
    }
    if !same_text(answered, request_id) {
        return Err(
            SdkError::Internal(
                "Daemon returned a different Interaction response identity".to_owned(),
            ),
        );
    }
    Ok(())
}

/// Whether the daemon's list of a run's open questions is one of that run.
pub fn check_turn_interactions(
    valid: Result<(), String>,
    snapshot_thread: &str,
    snapshot_turn: &str,
    thread_id: &str,
    turn_id: &str,
) -> (result: Result<(), SdkError>)
    ensures
        outcome(result) == match valid {
            Err(message) => Err(ErrorView::Internal(message@)),
            Ok(()) => if snapshot_thread@ == thread_id@ && snapshot_turn@ == turn_id@ {
                Ok(())
            } else {
                Err(
                    ErrorView::Internal("Daemon returned an Interaction snapshot for another Run"@),
                )
            },
        },
{
    if let Err(message) = valid {
        return Err(SdkError::Internal(message));
    }
    if !same_text(snapshot_thread, thread_id) || !same_text(snapshot_turn, turn_id) {
        return Err(
            SdkError::Internal(
                "Daemon returned an Interaction snapshot for another Run".to_owned(),
            ),
        );
    }
    Ok(())
}

/// What the application decides on a request for approval.
#[derive(Clone, Copy, Debug, PartialEq, Eq, Structural)]
pub enum RunApprovalDecision {
    Approve,
    Reject,
    ModifyArguments,
}

/// What an application that knows no modified arguments decides.
#[derive(Clone, Copy, Debug, PartialEq, Eq, Structural)]
pub enum ApprovalDecision {
    Approve,
    Reject,
}

/// The word for a decision.
pub open spec fn decision_word(decision: RunApprovalDecision) -> Seq<char> {
    match decision {
        RunApprovalDecision::Approve => "approve"@,
        RunApprovalDecision::Reject => "reject"@,
        RunApprovalDecision::ModifyArguments => "modify_arguments"@,
    }
}

/// The members of the response to a request for approval: the decision, and what came
/// with it.
pub open spec fn approval_members(
    decision: RunApprovalDecision,
    arguments: Option<serde_json::Value>,
    feedback: Option<Seq<char>>,
) -> Map<Seq<char>, serde_json::Value> {
    let decided = no_members().insert("decision"@, json_string(decision_word(decision)));
    let argued = match arguments {
        Some(arguments) => decided.insert("arguments"@, arguments),
        None => decided,
    };
    match feedback {
        Some(feedback) => argued.insert("feedback"@, json_string(feedback)),
        None => argued,
    }
}

/// The response to a request for approval, as an interaction.
pub fn run_approval_response(
    decision: RunApprovalDecision,
    arguments: Option<serde_json::Value>,
    feedback: Option<String>,
) -> (response: serde_json::Value)
    ensures
        response == json_object(
            approval_members(decision, arguments, crate::tables::opt_text(feedback)),
        ),
{
    let mut response = new_object();
    let word = match decision {
        RunApprovalDecision::Approve => "approve",
        RunApprovalDecision::Reject => "reject",
        RunApprovalDecision::ModifyArguments => "modify_arguments",
    };
    insert_member(&mut response, "decision", string_value(word.to_owned()));
    if let Some(arguments) = arguments {
        insert_member(&mut response, "arguments", arguments);
    }
    if let Some(feedback) = feedback {
        insert_member(&mut response, "feedback", string_value(feedback));
    }
    object_value(response)
}

/// The response of an application that knows no modified arguments.
pub fn legacy_approval_response(decision: ApprovalDecision, feedback: Option<String>) -> (response:
    serde_json::Value)
    ensures
        response == json_object(
            approval_members(
                match decision {
                    ApprovalDecision::Approve => RunApprovalDecision::Approve,
                    ApprovalDecision::Reject => RunApprovalDecision::Reject,
                },
                None,
                crate::tables::opt_text(feedback),
            ),
        ),
{
    let decision = match decision {
        ApprovalDecision::Approve => RunApprovalDecision::Approve,
        ApprovalDecision::Reject => RunApprovalDecision::Reject,
    };
    run_approval_response(decision, None, feedback)
}

/// A session uses interactions only after it was let to, and no longer once it has been
/// released.
pub proof fn interactions_are_opt_in(client: ClientView, session: Seq<char>, id: u64)
    requires
        client.initialization.offering(CAPABILITY_INTERACTIONS@),
        existing_verdict(client, session) is Ok,
    ensures
        session_verdict(client, session) is Ok == client.interaction_sessions.contains_key(
            session,
        ),
        session_verdict(interactions_on(client, session), session) is Ok,
        session_verdict(
            crate::sessions::routes_released(
                interactions_on(client, session),
                session,
                id,
            ),
            session,
        ) is Err,
{
}

/// The response to a request for approval holds the word of the decision, and whatever came
/// with it: modified arguments whether or not there is feedback, and feedback whether or not
/// there are arguments. What did not come has no member, and there are no other members.
pub proof fn approval_hands_on_all_that_was_decided(
    decision: RunApprovalDecision,
    arguments: Option<serde_json::Value>,
    feedback: Option<Seq<char>>,
)
    ensures
        ({
            let told = approval_members(decision, arguments, feedback);
            &&& decision == RunApprovalDecision::Approve ==> told.get("decision"@) == Some(
                json_string("approve"@),
            )
            &&& decision == RunApprovalDecision::Reject ==> told.get("decision"@) == Some(
                json_string("reject"@),
            )
            &&& decision == RunApprovalDecision::ModifyArguments ==> told.get("decision"@) == Some(
                json_string("modify_arguments"@),
            )
            &&& told.get("arguments"@) == arguments
            &&& feedback is None ==> told.get("feedback"@) is None
            &&& feedback matches Some(text) ==> told.get("feedback"@) == Some(json_string(text))
            &&& forall|key: Seq<char>|
                key != "decision"@ && key != "arguments"@ && key != "feedback"@
                    ==> !#[trigger] told.contains_key(key)
        }),
{
    reveal_strlit("decision");
    reveal_strlit("arguments");
    reveal_strlit("feedback");
    assert("decision"@[0] != "feedback"@[0]);
    assert("decision"@.len() != "arguments"@.len());
    assert("feedback"@.len() != "arguments"@.len());
}

/// Options are taken exactly where they lie within the bounds.
pub proof fn options_within_bounds_are_taken(output_capacity: usize, replay_page_limit: u32)
    ensures
        options_refusal(output_capacity, replay_page_limit) is None <==> 1 <= output_capacity <= 4096
            && 1 <= replay_page_limit <= 256,
        options_refusal(output_capacity, replay_page_limit) matches Some(refusal) ==> (refusal
            matches InteractionErrorView::Sdk(error) && error is InvalidConfiguration),
{
}

/// To let a session use interactions changes nothing but that.
pub proof fn enabling_touches_only_its_session(
    client: ClientView,
    session: Seq<char>,
    other: Seq<char>,
)
    ensures
        ({
            let after = interactions_on(client, session);
            &&& after.interaction_sessions.contains_key(session)
            &&& other != session ==> after.interaction_sessions.get(other)
                == client.interaction_sessions.get(other)
            &&& after == (ClientView {
                interaction_sessions: after.interaction_sessions,
                ..client
            })
        }),
{
}

/// The interactions of a session can be used exactly where the daemon has them, the session
/// is open on an open connection, and it was let to use them. Each other case has its own
/// error.
pub proof fn interactions_need_an_open_session(client: ClientView, session: Seq<char>)
    ensures
        ({
            let offered = client.initialization.offering("interactions.v1"@);
            let known = client.sessions.contains_key(session);
            let open = known && client.sessions[session].phase
                == crate::sessions::SessionPhase::Open;
            let enabled = client.interaction_sessions.contains_key(session);
            let used = session_verdict(client, session);
            let watched = watch_verdict(client, session);
            let viewed = view_verdict(client, session);
            &&& used is Ok <==> offered && open && !client.closed && enabled
            &&& watched is Ok <==> open && !client.closed && enabled
            &&& viewed is Ok <==> offered && open && !client.closed && enabled
            &&& !offered ==> {
                &&& used->Err_0 is ProtocolCompatibility
                &&& viewed->Err_0 == InteractionErrorView::UnsupportedCapability(
                    "interactions.v1"@,
                )
            }
            &&& open && !client.closed && !enabled ==> {
                &&& watched->Err_0 == InteractionErrorView::NotEnabled(session)
                &&& offered ==> used->Err_0 is InvalidConfiguration
                &&& offered ==> viewed->Err_0 == InteractionErrorView::NotEnabled(session)
            }
            &&& known && client.closed ==> {
                &&& watched->Err_0 == InteractionErrorView::Sdk(
                    ErrorView::ChannelClosed("Client is closed"@),
                )
                &&& offered ==> used->Err_0 == ErrorView::ChannelClosed("Client is closed"@)
                &&& offered ==> viewed->Err_0 == watched->Err_0
            }
            &&& !known || (!open && !client.closed) ==> {
                &&& watched->Err_0 == InteractionErrorView::Sdk(ErrorView::SessionClosed(session))
                &&& offered ==> used->Err_0 == ErrorView::SessionClosed(session)
                &&& offered ==> viewed->Err_0 == watched->Err_0
            }
        }),
{
}

/// The message of an error tells its particulars.
pub proof fn interaction_messages_tell_their_particulars(detail: Seq<char>, error: ErrorView)
    ensures
        interaction_error_text(InteractionErrorView::Sdk(error)) == error_text(error),
        detail.is_suffix_of(interaction_error_text(InteractionErrorView::UnsupportedCapability(detail))),
        detail.is_suffix_of(interaction_error_text(InteractionErrorView::NotEnabled(detail))),
        detail.is_suffix_of(interaction_error_text(InteractionErrorView::InvalidCursor(detail))),
        detail.is_suffix_of(interaction_error_text(InteractionErrorView::InvalidProjection(detail))),
{
}

} // verus!
