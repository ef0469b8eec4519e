//! Durable sessions: what an answer of the daemon means for a recovery record.

use vstd::prelude::*;

use crate::agent::{interactions_verdict, limits_verdict, policy_verdict, Agent};
use crate::client::ClientState;
use crate::errors::{outcome, require_valid, ErrorView, SdkError};
use crate::protocol::{
    ErrorCodes, InitializeResult, CAPABILITY_SESSION_RECOVERY, INVALID_PARAMS, METHOD_NOT_FOUND,
};
use crate::sessions::{knowing, open_verdict, record, with_hub};
use crate::text::same_text;

verus! {

/// The key of a record: its name, and what gives the right to it.
#[derive(Clone, PartialEq, Eq)]
pub struct RecoveryKey {
    pub recovery_id: String,
    pub secret: String,
}

impl RecoveryKey {
    /// The same key, by its texts.
    pub open spec fn same_as(self, other: RecoveryKey) -> bool {
        self.recovery_id@ == other.recovery_id@ && self.secret@ == other.secret@
    }

    /// Whether this is the same key.
    pub fn is_same(&self, other: &RecoveryKey) -> (same: bool)
        ensures
            same == self.same_as(*other),
    {
        same_text(self.recovery_id.as_str(), other.recovery_id.as_str()) && same_text(
            self.secret.as_str(),
            other.secret.as_str(),
        )
    }
}

/// What the daemon holds of a session. `handle` stands for the whole snapshot.
#[derive(Debug)]
pub struct RecoverySnapshot {
    pub recovery_id: String,
    pub revision: u64,
    pub epoch: u64,
    pub handle: u64,
}

/// The daemon has certainly changed nothing.
pub open spec fn is_definitive(error: ErrorView, codes: ErrorCodes) -> bool {
    match error {
        ErrorView::Rpc { code, .. } => {
            ||| code == METHOD_NOT_FOUND
            ||| code == INVALID_PARAMS
            ||| code == codes.recovery_unavailable
            ||| code == codes.recovery_rejected
        },
        ErrorView::LimitExceeded(_) => true,
        _ => false,
    }
}

/// Whether the daemon has certainly changed nothing.
pub fn definitive_rejection(error: &SdkError, codes: &ErrorCodes) -> (definitive: bool)
    ensures
        definitive == is_definitive(error@, *codes),
{
    match error {
        SdkError::Rpc { code, .. } => *code == METHOD_NOT_FOUND || *code == INVALID_PARAMS || *code
            == codes.recovery_unavailable || *code == codes.recovery_rejected,
        SdkError::LimitExceeded(_) => true,
        _ => false,
    }
}

/// Whether a snapshot is one of the record that was asked for.
pub open spec fn snapshot_verdict(snapshot: RecoverySnapshot, recovery_id: Seq<char>) -> Result<
    (),
    ErrorView,
> {
    if snapshot.recovery_id@ == recovery_id && snapshot.revision > 0 && snapshot.epoch > 0 {
        Ok(())
    } else {
        Err(ErrorView::Internal("Recovery snapshot identity or revision mismatch"@))
    }
}

/// Whether a snapshot is one of the record that was asked for.
pub fn validate_snapshot(snapshot: &RecoverySnapshot, recovery_id: &str) -> (result: Result<
    (),
    SdkError,
>)
    ensures
        outcome(result) == snapshot_verdict(*snapshot, recovery_id@),
{
    if !same_text(snapshot.recovery_id.as_str(), recovery_id) || snapshot.revision == 0
        || snapshot.epoch == 0 {
        return Err(
            SdkError::Internal("Recovery snapshot identity or revision mismatch".to_owned()),
        );
    }
    Ok(())
}

/// Whether a record can be asked for. `valid` says whether its key is well formed.
pub open spec fn recovery_verdict(valid: Result<(), String>, initialized: InitializeResult) -> Result<
    (),
    ErrorView,
> {
    match valid {
        Err(reason) => Err(ErrorView::InvalidConfiguration(reason@)),
        Ok(()) => if initialized.offers(CAPABILITY_SESSION_RECOVERY@) {
            Ok(())
        } else {
            Err(ErrorView::ProtocolCompatibility("Daemon does not advertise session_recovery.v1"@))
        },
    }
}

/// Whether a record can be asked for. `valid` says whether its key is well formed.
pub fn require_recovery(valid: Result<(), String>, initialized: &InitializeResult) -> (result: Result<
    (),
    SdkError,
>)
    ensures
        outcome(result) == recovery_verdict(valid, *initialized),
{
    if let Err(error) = require_valid(valid) {
        return Err(error);
    }
    if !initialized.advertises(CAPABILITY_SESSION_RECOVERY) {
        return Err(
            SdkError::ProtocolCompatibility(
                "Daemon does not advertise session_recovery.v1".to_owned(),
            ),
        );
    }
    Ok(())
}

/// Whether a durable session can be created or attached, before anything is asked of the
/// daemon.
pub open spec fn persistence_verdict(
    agent: Agent,
    valid: Result<(), String>,
    initialized: InitializeResult,
) -> Result<(), ErrorView> {
    if interactions_verdict(agent, initialized) is Err {
        interactions_verdict(agent, initialized)
    } else if recovery_verdict(valid, initialized) is Err {
        recovery_verdict(valid, initialized)
    } else if limits_verdict(agent, initialized) is Err {
        limits_verdict(agent, initialized)
    } else {
        policy_verdict(agent)
    }
}

impl Agent {
    /// Whether a durable session can be created or attached, before anything is asked of
    /// the daemon.
    pub fn check_persistence(&self, valid: Result<(), String>, initialized: &InitializeResult) -> (result:
        Result<(), SdkError>)
        ensures
            outcome(result) == persistence_verdict(*self, valid, *initialized),
    {
        if let Err(error) = self.require_interactions(initialized) {
            return Err(error);
        }
        if let Err(error) = require_recovery(valid, initialized) {
            return Err(error);
        }
        if let Err(error) = self.require_limits(initialized) {
            return Err(error);
        }
        self.require_policy()
    }
}

/// What a reply says, by its texts.
pub open spec fn reply_view<T>(reply: Result<T, SdkError>) -> Result<T, ErrorView> {
    match reply {
        Ok(answer) => Ok(answer),
        Err(error) => Err(error@),
    }
}

/// What an answer to forgetting a record comes to: whether it was forgotten, and whether
/// the connection has to be closed because nobody knows.
pub open spec fn forget_conclusion(
    reply: Result<(String, bool), ErrorView>,
    recovery_id: Seq<char>,
    codes: ErrorCodes,
) -> (Result<bool, ErrorView>, bool) {
    match reply {
        Ok((answered, forgotten)) => if answered@ == recovery_id {
            (Ok(forgotten), false)
        } else {
            (Err(ErrorView::Internal("Recovery forget identity mismatch"@)), true)
        },
        Err(error) => (Err(error), !is_definitive(error, codes)),
    }
}

/// What an answer to an acknowledgement comes to: the new snapshot, and whether the
/// connection has to be closed because nobody knows.
pub open spec fn acknowledgement_conclusion(
    reply: Result<RecoverySnapshot, ErrorView>,
    recovery_id: Seq<char>,
    codes: ErrorCodes,
) -> (Result<RecoverySnapshot, ErrorView>, bool) {
    match reply {
        Ok(snapshot) => match snapshot_verdict(snapshot, recovery_id) {
            Ok(()) => (Ok(snapshot), false),
            Err(error) => (Err(error), true),
        },
        Err(error) => (
            Err(error),
            !(is_definitive(error, codes) || error is SessionClosed),
        ),
    }
}

/// What the daemon's answer to forgetting a record comes to: whether the record was
/// forgotten, and whether the connection has to be closed because nobody knows.
pub fn conclude_forget(
    reply: Result<(String, bool), SdkError>,
    recovery_id: &str,
    codes: &ErrorCodes,
) -> (concluded: (Result<bool, SdkError>, bool))
    ensures
        (reply_view(concluded.0), concluded.1) == forget_conclusion(
            reply_view(reply),
            recovery_id@,
            *codes,
        ),
{
    match reply {
        Ok((answered, forgotten)) => {
            if same_text(answered.as_str(), recovery_id) {
                (Ok(forgotten), false)
            } else {
                (Err(SdkError::Internal("Recovery forget identity mismatch".to_owned())), true)
            }
        },
        Err(error) => {
            let close = !definitive_rejection(&error, codes);
            (Err(error), close)
        },
    }
}

/// What the daemon's answer to an acknowledgement comes to: the new snapshot, and whether
/// the connection has to be closed because nobody knows.
pub fn conclude_acknowledgement(
    reply: Result<RecoverySnapshot, SdkError>,
    recovery_id: &str,
    codes: &ErrorCodes,
) -> (concluded: (Result<RecoverySnapshot, SdkError>, bool))
    ensures
        (reply_view(concluded.0), concluded.1) == acknowledgement_conclusion(
            reply_view(reply),
            recovery_id@,
            *codes,
        ),
{
    match reply {
        Ok(snapshot) => match validate_snapshot(&snapshot, recovery_id) {
            Ok(()) => (Ok(snapshot), false),
            Err(error) => (Err(error), true),
        },
        Err(error) => {
            let closed = match &error {
                SdkError::SessionClosed(_) => true,
                _ => false,
            };
            let close = !definitive_rejection(&error, codes) && !closed;
            (Err(error), close)
        },
    }
}

/// Whether a session is durable at all, and its record.
pub fn require_persistent(recovery_id: &Option<String>) -> (result: Result<String, SdkError>)
    ensures
        match (result, *recovery_id) {
            (Ok(id), Some(known)) => id@ == known@,
            (Err(error), None) => error@ == ErrorView::InvalidConfiguration(
                "Session is not persistent"@,
            ),
            _ => false,
        },
{
    match recovery_id {
        Some(id) => Ok(id.clone()),
        None => Err(SdkError::InvalidConfiguration("Session is not persistent".to_owned())),
    }
}

impl ClientState {
    /// Whether unknown executions of a session can be acknowledged. `valid_params` and
    /// `valid_key` say whether the request and its key are well formed.
    pub fn check_acknowledgement(
        &mut self,
        session: &str,
        valid_params: Result<(), String>,
        valid_key: Result<(), String>,
        initialized: &InitializeResult,
        hub: u64,
    ) -> (result: Result<(), SdkError>)
        ensures
            ({
                let asked = recovery_verdict(valid_key, *initialized);
                match valid_params {
                    Err(reason) => {
                        &&& outcome(result) == Err::<(), ErrorView>(
                            ErrorView::InvalidConfiguration(reason@),
                        )
                        &&& final(self)@ == old(self)@
                    },
                    Ok(()) => if asked is Err {
                        outcome(result) == asked && final(self)@ == old(self)@
                    } else {
                        let verdict = open_verdict(
                            old(self)@.closed,
                            record(old(self)@, session@).phase,
                            session@,
                        );
                        &&& outcome(result) == verdict
                        &&& final(self)@ == if verdict is Ok {
                            with_hub(knowing(old(self)@, session@), session@, hub)
                        } else {
                            knowing(old(self)@, session@)
                        }
                    },
                }
            }),
    {
        if let Err(error) = require_valid(valid_params) {
            return Err(error);
        }
        if let Err(error) = require_recovery(valid_key, initialized) {
            return Err(error);
        }
        self.ensure_session_open(session, hub)
    }
}

/// The daemon answered that it does not know the request or its parameters, that the record
/// is not available or refuses, or that a limit is exceeded.
pub open spec fn refused_untouched(error: ErrorView, codes: ErrorCodes) -> bool {
    ||| error is LimitExceeded
    ||| error is Rpc && set![
        METHOD_NOT_FOUND,
        INVALID_PARAMS,
        codes.recovery_unavailable,
        codes.recovery_rejected,
    ].contains(error->code)
}

/// After a record was to be forgotten, the connection is kept exactly where everyone knows
/// what became of the record: the daemon named that very record, or refused without touching
/// it. Any other end of the request, such as a timeout or a lost connection, closes it.
pub proof fn forgetting_keeps_the_connection_where_the_outcome_is_known(
    reply: Result<(String, bool), ErrorView>,
    recovery_id: Seq<char>,
    codes: ErrorCodes,
)
    ensures
        !forget_conclusion(reply, recovery_id, codes).1 <==> match reply {
            Ok(answer) => answer.0@ == recovery_id,
            Err(error) => refused_untouched(error, codes),
        },
        forget_conclusion(reply, recovery_id, codes).0 is Ok ==> !forget_conclusion(
            reply,
            recovery_id,
            codes,
        ).1,
{
}

/// After an acknowledgement, the connection is kept exactly where everyone knows what became
/// of the record: the daemon sent a proper snapshot of it, or refused without touching it, or
/// the session had been closed before. Any other end of the request closes it.
pub proof fn acknowledging_keeps_the_connection_where_the_outcome_is_known(
    reply: Result<RecoverySnapshot, ErrorView>,
    recovery_id: Seq<char>,
    codes: ErrorCodes,
)
    ensures
        !acknowledgement_conclusion(reply, recovery_id, codes).1 <==> match reply {
            Ok(snapshot) => snapshot.recovery_id@ == recovery_id && snapshot.revision > 0
                && snapshot.epoch > 0,
            Err(error) => refused_untouched(error, codes) || error is SessionClosed,
        },
        acknowledgement_conclusion(reply, recovery_id, codes).0 is Ok
            ==> !acknowledgement_conclusion(reply, recovery_id, codes).1,
{
}

/// Whether a record was forgotten is what the daemon said of that very record; an error of
/// the daemon is passed on as it is, and an answer for another record is an error.
pub proof fn forgetting_tells_what_the_daemon_said(
    reply: Result<(String, bool), ErrorView>,
    recovery_id: Seq<char>,
    codes: ErrorCodes,
)
    ensures
        ({
            let told = forget_conclusion(reply, recovery_id, codes).0;
            match reply {
                Ok((answered, forgotten)) => if answered@ == recovery_id {
                    told == Ok::<bool, ErrorView>(forgotten)
                } else {
                    told matches Err(error) && error is Internal
                },
                Err(error) => told == Err::<bool, ErrorView>(error),
            }
        }),
{
}

/// The snapshot of an acknowledgement is passed on where it is one of the record; an error of
/// the daemon is passed on as it is, and another snapshot is an error.
pub proof fn acknowledging_tells_what_the_daemon_said(
    reply: Result<RecoverySnapshot, ErrorView>,
    recovery_id: Seq<char>,
    codes: ErrorCodes,
)
    ensures
        ({
            let told = acknowledgement_conclusion(reply, recovery_id, codes).0;
            match reply {
                Ok(snapshot) => if snapshot.recovery_id@ == recovery_id && snapshot.revision > 0
                    && snapshot.epoch > 0 {
                    told == Ok::<RecoverySnapshot, ErrorView>(snapshot)
                } else {
                    told matches Err(error) && error is Internal
                },
                Err(error) => told == Err::<RecoverySnapshot, ErrorView>(error),
            }
        }),
{
}

/// A snapshot is one of a record exactly where it names the record and both its numbers
/// count from one.
pub proof fn snapshots_name_their_record(snapshot: RecoverySnapshot, recovery_id: Seq<char>)
    ensures
        snapshot_verdict(snapshot, recovery_id) is Ok <==> snapshot.recovery_id@ == recovery_id
            && snapshot.revision > 0 && snapshot.epoch > 0,
        snapshot_verdict(snapshot, recovery_id) matches Err(error) ==> error is Internal,
{
}

/// A record can be asked for exactly where its key is well formed and the daemon keeps
/// records. The key is looked at first.
pub proof fn records_need_a_daemon_that_keeps_them(
    valid: Result<(), String>,
    initialized: InitializeResult,
)
    ensures
        ({
            let verdict = recovery_verdict(valid, initialized);
            let offered = exists|i: int|
                0 <= i < initialized.capabilities@.len() && (
                #[trigger] initialized.capabilities@[i])@ == "session_recovery.v1"@;
            &&& verdict is Ok <==> valid is Ok && offered
            &&& valid matches Err(reason) ==> verdict == Err::<(), ErrorView>(
                ErrorView::InvalidConfiguration(reason@),
            )
            &&& valid is Ok && !offered ==> verdict->Err_0 is ProtocolCompatibility
        }),
{
    crate::protocol::capabilities_are_listed(initialized, "session_recovery.v1"@);
}

/// A durable session can be had exactly where every single thing that it needs can be had,
/// and the first one that is missing is reported: interactions, the record, limits, and the
/// policy.
pub proof fn durable_sessions_need_everything(
    agent: Agent,
    valid: Result<(), String>,
    initialized: InitializeResult,
)
    ensures
        ({
            let verdict = persistence_verdict(agent, valid, initialized);
            let interactions = interactions_verdict(agent, initialized);
            let recovery = recovery_verdict(valid, initialized);
            let limits = limits_verdict(agent, initialized);
            let policy = policy_verdict(agent);
            &&& verdict is Ok <==> interactions is Ok && recovery is Ok && limits is Ok && policy
                is Ok
            &&& interactions is Err ==> verdict == interactions
            &&& interactions is Ok && recovery is Err ==> verdict == recovery
            &&& interactions is Ok && recovery is Ok && limits is Err ==> verdict == limits
            &&& interactions is Ok && recovery is Ok && limits is Ok ==> verdict == policy
        }),
{
}

/// Two keys are the same where both their texts are.
pub proof fn keys_are_compared_whole(left: RecoveryKey, right: RecoveryKey)
    ensures
        left.same_as(right) <==> left.recovery_id@ == right.recovery_id@ && left.secret@
            == right.secret@,
{
}

/// The daemon has certainly changed nothing where it does not know the request or its
/// parameters, where the record is not available or refuses, or where a limit is exceeded.
/// Any other error leaves it open.
pub proof fn refusals_are_definitive(error: ErrorView, codes: ErrorCodes)
    ensures
        is_definitive(error, codes) <==> error is LimitExceeded || (error
            matches ErrorView::Rpc { code, .. } && (code == -32601 || code == -32602 || code
            == codes.recovery_unavailable || code == codes.recovery_rejected)),
{
}

} // verus!
