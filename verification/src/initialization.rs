//! The handshake that every connection makes once.

use std::time::Duration;

use vstd::prelude::*;

use crate::errors::{outcome, ErrorView, SdkError};
use crate::protocol::InitializeResult;
use crate::text::join3;

verus! {

/// Why a connection could not be initialized. `seconds` is the timeout as it is
/// shown to people.
#[derive(Debug, PartialEq, Eq)]
pub enum InitializationFailure {
    Failed(String),
    TimedOut { timeout: Duration, seconds: String },
}

/// The message of a failed handshake.
pub open spec fn failure_text(failure: InitializationFailure) -> Seq<char> {
    match failure {
        InitializationFailure::Failed(message) => message@,
        InitializationFailure::TimedOut { seconds, .. } =>
            "protocol.initialize timed out after "@ + seconds@ + " seconds"@,
    }
}

/// The same failure, by its texts.
pub open spec fn same_failure(left: InitializationFailure, right: InitializationFailure) -> bool {
    match (left, right) {
        (InitializationFailure::Failed(message), InitializationFailure::Failed(other)) => message@
            == other@,
        (
            InitializationFailure::TimedOut { timeout, seconds },
            InitializationFailure::TimedOut { timeout: limit, seconds: shown },
        ) => timeout == limit && seconds@ == shown@,
        _ => false,
    }
}

impl Clone for InitializationFailure {
    fn clone(&self) -> (copy: Self)
        ensures
            same_failure(copy, *self),
    {
        match self {
            InitializationFailure::Failed(message) => InitializationFailure::Failed(
                message.clone(),
            ),
            InitializationFailure::TimedOut { timeout, seconds } =>
                InitializationFailure::TimedOut { timeout: *timeout, seconds: seconds.clone() },
        }
    }
}

impl InitializationFailure {
    /// The message of this failure.
    pub fn message(&self) -> (text: String)
        ensures
            text@ == failure_text(*self),
    {
        match self {
            InitializationFailure::Failed(message) => message.clone(),
            InitializationFailure::TimedOut { seconds, .. } => join3(
                "protocol.initialize timed out after ",
                seconds.as_str(),
                " seconds",
            ),
        }
    }
}

/// How far the handshake of a connection has come.
#[derive(Debug)]
pub enum Initialization {
    NotStarted,
    Running,
    Settled(Result<InitializeResult, InitializationFailure>),
}

/// What came back from the daemon.
#[derive(Debug)]
pub enum HandshakeReply {
    /// The daemon answered; `valid` says whether its answer fits the request.
    Answered { result: InitializeResult, valid: Result<(), String> },
    Refused(SdkError),
    TimedOut { timeout: Duration, seconds: String },
}

/// What the answer to a handshake amounts to.
pub open spec fn handshake_failure(reply: HandshakeReply) -> Option<Seq<char>> {
    match reply {
        HandshakeReply::Answered { valid, .. } => match valid {
            Ok(()) => None,
            Err(message) => Some(message@),
        },
        HandshakeReply::Refused(error) => Some(crate::errors::error_text(error@)),
        HandshakeReply::TimedOut { seconds, .. } => Some(
            "protocol.initialize timed out after "@ + seconds@ + " seconds"@,
        ),
    }
}

impl Initialization {
    /// The daemon has accepted the handshake.
    pub open spec fn ready(self) -> bool {
        self is Settled && self->Settled_0 is Ok
    }

    /// Why no request may be sent.
    pub open spec fn refusal(self) -> Option<ErrorView> {
        match self {
            Initialization::Settled(Ok(_)) => None,
            Initialization::Settled(Err(failure)) => Some(
                ErrorView::ProtocolCompatibility(failure_text(failure)),
            ),
            _ => Some(
                ErrorView::ProtocolCompatibility("Connection initialization is not complete"@),
            ),
        }
    }

    /// The daemon has accepted the handshake and advertises `capability`.
    pub open spec fn offering(self, capability: Seq<char>) -> bool {
        self.ready() && self->Settled_0->Ok_0.offers(capability)
    }

    /// Lets one caller run the handshake: the first gets `true`, all later ones wait
    /// for its result.
    pub fn begin(&mut self) -> (first: bool)
        ensures
            first == (*old(self) is NotStarted),
            *final(self) == if *old(self) is NotStarted {
                Initialization::Running
            } else {
                *old(self)
            },
    {
        match self {
            Initialization::NotStarted => {
                *self = Initialization::Running;
                true
            },
            _ => false,
        }
    }

    /// Settles the handshake with the daemon's answer. The result says whether the
    /// connection has to be closed: that is so whenever the handshake failed.
    pub fn settle(&mut self, reply: HandshakeReply) -> (close: bool)
        requires
            *old(self) is Running,
        ensures
            close == handshake_failure(reply) is Some,
            *final(self) is Settled,
            match final(self)->Settled_0 {
                Ok(result) => {
                    &&& !close
                    &&& reply is Answered
                    &&& result == reply->Answered_result
                },
                Err(failure) => {
                    &&& handshake_failure(reply) == Some(failure_text(failure))
                    &&& reply is TimedOut <==> failure is TimedOut
                    &&& reply is TimedOut ==> failure->TimedOut_timeout == reply->TimedOut_timeout
                },
            },
    {
        let settled = match reply {
            HandshakeReply::Answered { result, valid } => match valid {
                Ok(()) => Ok(result),
                Err(message) => Err(InitializationFailure::Failed(message)),
            },
            HandshakeReply::Refused(error) => Err(InitializationFailure::Failed(error.message())),
            HandshakeReply::TimedOut { timeout, seconds } => Err(
                InitializationFailure::TimedOut { timeout, seconds },
            ),
        };
        let close = settled.is_err();
        *self = Initialization::Settled(settled);
        close
    }

    /// Whether the daemon has accepted the handshake.
    pub fn is_ready(&self) -> (ready: bool)
        ensures
            ready == self.ready(),
    {
        match self {
            Initialization::Settled(Ok(_)) => true,
            _ => false,
        }
    }

    /// Whether a request may be sent.
    pub fn require_initialized(&self) -> (result: Result<(), SdkError>)
        ensures
            outcome(result) == match self.refusal() {
                None => Ok(()),
                Some(refusal) => Err(refusal),
            },
    {
        match self {
            Initialization::Settled(Ok(_)) => Ok(()),
            Initialization::Settled(Err(failure)) => Err(
                SdkError::ProtocolCompatibility(failure.message()),
            ),
            _ => Err(
                SdkError::ProtocolCompatibility(
                    "Connection initialization is not complete".to_owned(),
                ),
            ),
        }
    }

    /// Whether the daemon has accepted the handshake and advertises `capability`.
    pub fn offers(&self, capability: &str) -> (offered: bool)
        ensures
            offered == self.offering(capability@),
    {
        match self {
            Initialization::Settled(Ok(initialized)) => initialized.advertises(capability),
            _ => false,
        }
    }

    /// What a caller that waited for the handshake is told. An accepted handshake is
    /// of no use on a connection that was closed meanwhile.
    pub fn observed(&self, closed: bool) -> (told: Option<
        Result<&InitializeResult, InitializationFailure>,
    >)
        ensures
            match told {
                None => !(*self is Settled),
                Some(Ok(result)) => {
                    &&& self.ready() && !closed
                    &&& self->Settled_0 == Ok::<InitializeResult, InitializationFailure>(*result)
                },
                Some(Err(failure)) => {
                    &&& *self is Settled
                    &&& match self->Settled_0 {
                        Ok(_) => {
                            &&& closed && failure is Failed
                            &&& failure_text(failure) == "Client closed after initialization"@
                        },
                        Err(cause) => same_failure(failure, cause),
                    }
                },
            },
    {
        match self {
            Initialization::Settled(Ok(result)) => {
                if closed {
                    Some(
                        Err(
                            InitializationFailure::Failed(
                                "Client closed after initialization".to_owned(),
                            ),
                        ),
                    )
                } else {
                    Some(Ok(result))
                }
            },
            Initialization::Settled(Err(failure)) => Some(Err(failure.clone())),
            _ => None,
        }
    }
}

/// A connection whose handshake has not succeeded sends no request: it has been refused,
/// and offers nothing.
pub proof fn no_request_without_a_handshake(initialization: Initialization, capability: Seq<char>)
    requires
        !initialization.ready(),
    ensures
        initialization.refusal() is Some,
        !initialization.offering(capability),
{
}

/// A connection is ready exactly where the daemon accepted the handshake, requests are sent
/// exactly then, and it offers what the daemon's list holds. A failed handshake is reported
/// with its own message.
pub proof fn accepted_handshake_opens_the_connection(
    initialization: Initialization,
    capability: Seq<char>,
)
    ensures
        initialization.ready() <==> (initialization matches Initialization::Settled(settled)
            && settled is Ok),
        initialization.refusal() is None <==> (initialization matches Initialization::Settled(
            settled,
        ) && settled is Ok),
        initialization matches Initialization::Settled(Ok(result)) ==> (initialization.offering(
            capability,
        ) <==> exists|i: int|
            0 <= i < result.capabilities@.len() && (#[trigger] result.capabilities@[i])@
                == capability),
        !(initialization matches Initialization::Settled(Ok(_))) ==> !initialization.offering(
            capability,
        ),
        initialization matches Initialization::Settled(Err(failure)) ==> initialization.refusal()
            == Some(ErrorView::ProtocolCompatibility(failure_text(failure))),
        initialization is NotStarted || initialization is Running ==> (initialization.refusal()
            matches Some(refusal) && refusal is ProtocolCompatibility),
{
    if let Initialization::Settled(Ok(result)) = initialization {
        crate::protocol::capabilities_are_listed(result, capability);
    }
}

/// A handshake succeeds exactly where the daemon answered and the answer fits; otherwise the
/// failure tells what came back.
pub proof fn handshake_fails_unless_the_answer_fits(reply: HandshakeReply)
    ensures
        handshake_failure(reply) is None <==> (reply matches HandshakeReply::Answered {
            valid,
            ..
        } && valid is Ok),
        reply matches HandshakeReply::Answered { valid: Err(message), .. }
            ==> handshake_failure(reply) == Some(message@),
        reply matches HandshakeReply::Refused(error) ==> handshake_failure(reply) == Some(
            crate::errors::error_text(error@),
        ),
        reply matches HandshakeReply::TimedOut { timeout, seconds } ==> handshake_failure(reply)
            == Some(failure_text(InitializationFailure::TimedOut { timeout, seconds })),
{
}

/// The message of a failed handshake is the daemon's own, or tells how long it took.
pub proof fn failures_tell_their_message(
    message: String,
    timeout: Duration,
    seconds: String,
    other: InitializationFailure,
)
    ensures
        failure_text(InitializationFailure::Failed(message)) == message@,
        exists|i: int|
            0 <= i && i + seconds@.len() <= failure_text(
                InitializationFailure::TimedOut { timeout, seconds },
            ).len() && #[trigger] failure_text(
                InitializationFailure::TimedOut { timeout, seconds },
            ).subrange(i, i + seconds@.len()) == seconds@,
        same_failure(InitializationFailure::Failed(message), other) <==> (other
            matches InitializationFailure::Failed(text) && text@ == message@),
        same_failure(InitializationFailure::TimedOut { timeout, seconds }, other) <==> (other
            matches InitializationFailure::TimedOut { timeout: limit, seconds: shown } && limit
            == timeout && shown@ == seconds@),
{
    let text = failure_text(InitializationFailure::TimedOut { timeout, seconds });
    let i = "protocol.initialize timed out after "@.len() as int;
    assert(text.subrange(i, i + seconds@.len()) =~= seconds@);
}

} // verus!
