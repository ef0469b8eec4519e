//! The error that every part of the client reports.

use vstd::prelude::*;

use crate::text::{decimal, join2, join4, signed_text};

verus! {

/// What went wrong in the client or at the daemon.
#[derive(Debug)]
pub enum SdkError {
    ProtocolCompatibility(String),
    InvalidConfiguration(String),
    Io(String),
    Json(String),
    Rpc { code: i64, message: String },
    RunExpired(String),
    LimitExceeded(String),
    ChannelClosed(String),
    SessionClosed(String),
    Internal(String),
    EventLagged,
    AlreadySubscribed,
    RequestTimeout(String),
}

/// An [`SdkError`] by the texts that it holds.
pub enum ErrorView {
    ProtocolCompatibility(Seq<char>),
    InvalidConfiguration(Seq<char>),
    Io(Seq<char>),
    Json(Seq<char>),
    Rpc { code: i64, message: Seq<char> },
    RunExpired(Seq<char>),
    LimitExceeded(Seq<char>),
    ChannelClosed(Seq<char>),
    SessionClosed(Seq<char>),
    Internal(Seq<char>),
    EventLagged,
    AlreadySubscribed,
    RequestTimeout(Seq<char>),
}

impl View for SdkError {
    type V = ErrorView;

    open spec fn view(&self) -> ErrorView {
        match *self {
            SdkError::ProtocolCompatibility(text) => ErrorView::ProtocolCompatibility(text@),
            SdkError::InvalidConfiguration(text) => ErrorView::InvalidConfiguration(text@),
            SdkError::Io(text) => ErrorView::Io(text@),
            SdkError::Json(text) => ErrorView::Json(text@),
            SdkError::Rpc { code, message } => ErrorView::Rpc { code, message: message@ },
            SdkError::RunExpired(text) => ErrorView::RunExpired(text@),
            SdkError::LimitExceeded(text) => ErrorView::LimitExceeded(text@),
            SdkError::ChannelClosed(text) => ErrorView::ChannelClosed(text@),
            SdkError::SessionClosed(text) => ErrorView::SessionClosed(text@),
            SdkError::Internal(text) => ErrorView::Internal(text@),
            SdkError::EventLagged => ErrorView::EventLagged,
            SdkError::AlreadySubscribed => ErrorView::AlreadySubscribed,
            SdkError::RequestTimeout(text) => ErrorView::RequestTimeout(text@),
        }
    }
}

/// A result that says nothing but whether and how it failed.
pub open spec fn outcome(result: Result<(), SdkError>) -> Result<(), ErrorView> {
    match result {
        Ok(()) => Ok(()),
        Err(error) => Err(error@),
    }
}

/// The message that an error shows to people.
pub open spec fn error_text(error: ErrorView) -> Seq<char> {
    match error {
        ErrorView::ProtocolCompatibility(text) => "Protocol compatibility error: "@ + text,
        ErrorView::InvalidConfiguration(text) => "Invalid configuration: "@ + text,
        ErrorView::Io(text) => "IO error: "@ + text,
        ErrorView::Json(text) => "JSON error: "@ + text,
        ErrorView::Rpc { code, message } => "RPC error (code "@ + decimal(code as int) + "): "@
            + message,
        ErrorView::RunExpired(text) => "Run expired: "@ + text,
        ErrorView::LimitExceeded(text) => "Session limit exceeded: "@ + text,
        ErrorView::ChannelClosed(text) => "Communication channel closed: "@ + text,
        ErrorView::SessionClosed(text) => "SessionClosed: "@ + text,
        ErrorView::Internal(text) => "Internal SDK error: "@ + text,
        ErrorView::EventLagged =>
            "Event consumer fell behind; use snapshot() for the authoritative state"@,
        ErrorView::AlreadySubscribed => "This run already has an event consumer"@,
        ErrorView::RequestTimeout(text) => "RPC request timed out: "@ + text,
    }
}

impl SdkError {
    /// The message of this error.
    pub fn message(&self) -> (text: String)
        ensures
            text@ == error_text(self@),
    {
        match self {
            SdkError::ProtocolCompatibility(text) => join2(
                "Protocol compatibility error: ",
                text.as_str(),
            ),
            SdkError::InvalidConfiguration(text) => join2("Invalid configuration: ", text.as_str()),
            SdkError::Io(text) => join2("IO error: ", text.as_str()),
            SdkError::Json(text) => join2("JSON error: ", text.as_str()),
            SdkError::Rpc { code, message } => join4(
                "RPC error (code ",
                signed_text(*code).as_str(),
                "): ",
                message.as_str(),
            ),
            SdkError::RunExpired(text) => join2("Run expired: ", text.as_str()),
            SdkError::LimitExceeded(text) => join2("Session limit exceeded: ", text.as_str()),
            SdkError::ChannelClosed(text) => join2("Communication channel closed: ", text.as_str()),
            SdkError::SessionClosed(text) => join2("SessionClosed: ", text.as_str()),
            SdkError::Internal(text) => join2("Internal SDK error: ", text.as_str()),
            SdkError::EventLagged =>
                "Event consumer fell behind; use snapshot() for the authoritative state".to_owned(),
            SdkError::AlreadySubscribed => "This run already has an event consumer".to_owned(),
            SdkError::RequestTimeout(text) => join2("RPC request timed out: ", text.as_str()),
        }
    }
}

/// Shows that the client no longer takes work.
pub open spec fn client_closed() -> ErrorView {
    ErrorView::ChannelClosed("Client is closed"@)
}

/// The error of a client that no longer takes work.
pub fn client_is_closed() -> (error: SdkError)
    ensures
        error@ == client_closed(),
{
    SdkError::ChannelClosed("Client is closed".to_owned())
}

/// The error of a session that no longer takes work.
pub fn session_is_closed(session: &str) -> (error: SdkError)
    ensures
        error@ == ErrorView::SessionClosed(session@),
{
    SdkError::SessionClosed(session.to_owned())
}

/// The error of a configuration that did not pass its validation.
pub fn require_valid(valid: Result<(), String>) -> (result: Result<(), SdkError>)
    ensures
        outcome(result) == match valid {
            Ok(()) => Ok(()),
            Err(reason) => Err(ErrorView::InvalidConfiguration(reason@)),
        },
{
    match valid {
        Ok(()) => Ok(()),
        Err(reason) => Err(SdkError::InvalidConfiguration(reason)),
    }
}

/// The error of a caller whose task ended without a result.
pub fn task_stopped(task: &str) -> (error: SdkError)
    ensures
        error@ == ErrorView::ChannelClosed(task@ + " task stopped"@),
{
    SdkError::ChannelClosed(join2(task, " task stopped"))
}

/// The message of an error tells its particulars, and the code of an answer too.
pub proof fn messages_tell_their_particulars(text: Seq<char>, code: i64)
    ensures
        text.is_suffix_of(error_text(ErrorView::ProtocolCompatibility(text))),
        text.is_suffix_of(error_text(ErrorView::InvalidConfiguration(text))),
        text.is_suffix_of(error_text(ErrorView::Io(text))),
        text.is_suffix_of(error_text(ErrorView::Json(text))),
        text.is_suffix_of(error_text(ErrorView::Rpc { code, message: text })),
        (decimal(code as int) + "): "@ + text).is_suffix_of(
            error_text(ErrorView::Rpc { code, message: text }),
        ),
        text.is_suffix_of(error_text(ErrorView::RunExpired(text))),
        text.is_suffix_of(error_text(ErrorView::LimitExceeded(text))),
        text.is_suffix_of(error_text(ErrorView::ChannelClosed(text))),
        text.is_suffix_of(error_text(ErrorView::SessionClosed(text))),
        text.is_suffix_of(error_text(ErrorView::Internal(text))),
        text.is_suffix_of(error_text(ErrorView::RequestTimeout(text))),
{
}

/// A result by its texts is a success exactly where the result is, and its error is the
/// error's.
pub proof fn outcomes_are_told_as_they_are(result: Result<(), SdkError>)
    ensures
        outcome(result) is Ok <==> result is Ok,
        result matches Err(error) ==> outcome(result) == Err::<(), ErrorView>(error@),
        client_closed() is ChannelClosed,
{
}

} // verus!
