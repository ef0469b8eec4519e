//! Shutting a connection down within a bounded time.
//!
//! The host closes the writer, joins the reader and ends the endpoint, in that
//! order. It performs each [`CleanupAction`] and reports what it observed; what
//! follows, and what the shutdown amounts to, is decided here.

use vstd::prelude::*;

use crate::text::join2;

verus! {

/// Where a shutdown went wrong.
#[derive(Clone, Copy, Debug, PartialEq, Eq, Structural)]
pub enum ConnectionShutdownPhase {
    Deadline,
    OwnerTask,
    Writer,
    Reader,
    EmbeddedServer,
    ManagedChild,
}

/// How a shutdown went wrong.
#[derive(Clone, Copy, Debug, PartialEq, Eq, Structural)]
pub enum ConnectionFailureKind {
    Failed,
    TimedOut,
}

/// The failure that a shutdown reports.
#[derive(Clone, Debug, PartialEq, Eq)]
pub struct ConnectionFailure {
    pub phase: ConnectionShutdownPhase,
    pub kind: ConnectionFailureKind,
    pub message: String,
}

/// A [`ConnectionFailure`] by its text.
pub struct FailureView {
    pub phase: ConnectionShutdownPhase,
    pub kind: ConnectionFailureKind,
    pub message: Seq<char>,
}

impl View for ConnectionFailure {
    type V = FailureView;

    open spec fn view(&self) -> FailureView {
        FailureView { phase: self.phase, kind: self.kind, message: self.message@ }
    }
}

/// How a child process ended.
#[derive(Clone, Copy, Debug, PartialEq, Eq, Structural)]
pub struct ProcessStatus {
    pub code: Option<i32>,
    pub success: bool,
}

/// What a shutdown amounted to. `error` collects every diagnostic; `failure` is the
/// first that counts against the shutdown.
#[derive(Clone, Debug, PartialEq, Eq)]
pub struct ConnectionShutdown {
    pub forced: bool,
    pub error: Option<String>,
    pub failure: Option<ConnectionFailure>,
    pub process_status: Option<ProcessStatus>,
    /// The child was not reaped in time; the host goes on waiting for it.
    pub background_reap: bool,
}

/// A [`ConnectionShutdown`] by its texts.
pub struct ShutdownView {
    pub forced: bool,
    pub error: Option<Seq<char>>,
    pub failure: Option<FailureView>,
    pub process_status: Option<ProcessStatus>,
    pub background_reap: bool,
}

/// The view of an optional failure.
pub open spec fn opt_failure(failure: Option<ConnectionFailure>) -> Option<FailureView> {
    match failure {
        Some(failure) => Some(failure@),
        None => None,
    }
}

impl View for ConnectionShutdown {
    type V = ShutdownView;

    open spec fn view(&self) -> ShutdownView {
        ShutdownView {
            forced: self.forced,
            error: crate::tables::opt_text(self.error),
            failure: opt_failure(self.failure),
            process_status: self.process_status,
            background_reap: self.background_reap,
        }
    }
}

/// A shutdown without anything to report.
pub open spec fn clean_shutdown(process_status: Option<ProcessStatus>) -> ShutdownView {
    ShutdownView {
        forced: false,
        error: None,
        failure: None,
        process_status,
        background_reap: false,
    }
}

/// The shutdown with one more diagnostic.
pub open spec fn noted(outcome: ShutdownView, text: Seq<char>) -> ShutdownView {
    ShutdownView {
        error: Some(
            match outcome.error {
                Some(current) => current + "; "@ + text,
                None => text,
            },
        ),
        ..outcome
    }
}

/// The shutdown with one more diagnostic, which counts against it.
pub open spec fn failed(
    outcome: ShutdownView,
    phase: ConnectionShutdownPhase,
    kind: ConnectionFailureKind,
    text: Seq<char>,
) -> ShutdownView {
    ShutdownView {
        failure: match outcome.failure {
            Some(first) => Some(first),
            None => Some(FailureView { phase, kind, message: text }),
        },
        ..noted(outcome, text)
    }
}

/// The shutdown once force was needed.
pub open spec fn under_force(outcome: ShutdownView) -> ShutdownView {
    ShutdownView { forced: true, ..outcome }
}

/// What the owner of a connection reports when its task is gone.
pub open spec fn abandoned_text() -> Seq<char> {
    "connection owner stopped without publishing cleanup"@
}

impl ConnectionShutdown {
    /// A shutdown without anything to report.
    pub fn clean(process_status: Option<ProcessStatus>) -> (outcome: Self)
        ensures
            outcome@ == clean_shutdown(process_status),
    {
        ConnectionShutdown {
            forced: false,
            error: None,
            failure: None,
            process_status,
            background_reap: false,
        }
    }

    /// The shutdown of a connection whose owner is gone.
    pub fn abandoned() -> (outcome: Self)
        ensures
            outcome@ == failed(
                under_force(clean_shutdown(None)),
                ConnectionShutdownPhase::OwnerTask,
                ConnectionFailureKind::Failed,
                abandoned_text(),
            ),
    {
        let mut outcome = ConnectionShutdown::clean(None);
        outcome.forced = true;
        outcome.record_failure(
            ConnectionShutdownPhase::OwnerTask,
            ConnectionFailureKind::Failed,
            "connection owner stopped without publishing cleanup".to_owned(),
        );
        outcome
    }

    /// How the child ended, as far as it is known by now: as the shutdown observed it,
    /// or as it was reaped afterwards.
    pub fn observed_process_status(&self, reap: &Option<Result<ProcessStatus, String>>) -> (status:
        Option<ProcessStatus>)
        ensures
            status == match (self@.process_status, *reap) {
                (Some(status), _) => Some(status),
                (None, Some(Ok(status))) => Some(status),
                (None, _) => None,
            },
    {
        match self.process_status {
            Some(status) => Some(status),
            None => match reap {
                Some(Ok(status)) => Some(*status),
                _ => None,
            },
        }
    }

    /// Adds a diagnostic.
    pub fn append_error(&mut self, error: &str)
        ensures
            final(self)@ == noted(old(self)@, error@),
    {
        let text = match &self.error {
            Some(current) => {
                let mut text = join2(current.as_str(), "; ");
                text.append(error);
                text
            },
            None => error.to_owned(),
        };
        self.error = Some(text);
    }

    /// Adds a diagnostic that does not count against the shutdown.
    pub fn record_warning(&mut self, warning: &str)
        ensures
            final(self)@ == noted(old(self)@, warning@),
    {
        self.append_error(warning);
    }

    /// Adds a diagnostic that counts against the shutdown. The first one is the
    /// failure that is reported.
    pub fn record_failure(
        &mut self,
        phase: ConnectionShutdownPhase,
        kind: ConnectionFailureKind,
        error: String,
    )
        ensures
            final(self)@ == failed(old(self)@, phase, kind, error@),
    {
        self.append_error(error.as_str());
        if self.failure.is_none() {
            self.failure = Some(ConnectionFailure { phase, kind, message: error });
        }
    }

    /// Records how a child that was told to die ended. A child that is gone was
    /// stopped, even if telling it failed.
    pub fn record_forced_reap(
        &mut self,
        kill_error: Option<String>,
        reap_result: Result<ProcessStatus, String>,
    )
        ensures
            final(self)@ == reaped(old(self)@, kill_error, reap_result),
    {
        match reap_result {
            Ok(status) => {
                if let Some(error) = kill_error {
                    self.record_warning(
                        join2(
                            "managed child kill raced with successful reap: ",
                            error.as_str(),
                        ).as_str(),
                    );
                }
                self.process_status = Some(status);
            },
            Err(error) => {
                if let Some(kill_error) = kill_error {
                    self.record_failure(
                        ConnectionShutdownPhase::ManagedChild,
                        ConnectionFailureKind::Failed,
                        join2("managed child kill failed: ", kill_error.as_str()),
                    );
                }
                self.record_failure(
                    ConnectionShutdownPhase::ManagedChild,
                    ConnectionFailureKind::Failed,
                    join2("managed child reap failed: ", error.as_str()),
                );
            },
        }
    }
}

/// The shutdown once it is known how a child that was told to die ended.
pub open spec fn reaped(
    outcome: ShutdownView,
    kill_error: Option<String>,
    reap_result: Result<ProcessStatus, String>,
) -> ShutdownView {
    match reap_result {
        Ok(status) => ShutdownView {
            process_status: Some(status),
            ..match kill_error {
                Some(error) => noted(
                    outcome,
                    "managed child kill raced with successful reap: "@ + error@,
                ),
                None => outcome,
            }
        },
        Err(error) => failed(
            killed(outcome, kill_error),
            ConnectionShutdownPhase::ManagedChild,
            ConnectionFailureKind::Failed,
            "managed child reap failed: "@ + error@,
        ),
    }
}

/// The shutdown once telling a child to die has failed, if it has.
pub open spec fn killed(outcome: ShutdownView, kill_error: Option<String>) -> ShutdownView {
    match kill_error {
        Some(error) => failed(
            outcome,
            ConnectionShutdownPhase::ManagedChild,
            ConnectionFailureKind::Failed,
            "managed child kill failed: "@ + error@,
        ),
        None => outcome,
    }
}

/// Why the owner of a connection starts to shut it down.
#[derive(Debug)]
pub enum StopReason {
    Requested(String),
    ReaderFinished,
}

/// The text under which a connection goes down.
pub open spec fn reason_text(reason: Option<StopReason>) -> Seq<char> {
    match reason {
        Some(StopReason::Requested(message)) => message@,
        Some(StopReason::ReaderFinished) => "Daemon disconnected"@,
        None => "Connection owner dropped"@,
    }
}

/// Names the reason of a shutdown. There is none where the owner itself is gone.
pub fn shutdown_reason(reason: Option<StopReason>) -> (text: String)
    ensures
        text@ == reason_text(reason),
{
    match reason {
        Some(StopReason::Requested(message)) => message,
        Some(StopReason::ReaderFinished) => "Daemon disconnected".to_owned(),
        None => "Connection owner dropped".to_owned(),
    }
}

/// One second, in nanoseconds.
pub const SECOND: u128 = 1_000_000_000;

/// The whole time of a shutdown whose own timeout cannot be kept, in nanoseconds.
pub const LEGACY_SHUTDOWN_TIMEOUT: u128 = 10_000_000_000;

/// How much of a shutdown of `shutdown_timeout` nanoseconds is kept for force: half
/// of it, and at most a second.
pub fn force_reserve(shutdown_timeout: u128) -> (reserve: u128)
    ensures
        reserve == if shutdown_timeout / 2 < SECOND {
            shutdown_timeout / 2
        } else {
            SECOND
        },
{
    if shutdown_timeout / 2 < SECOND {
        shutdown_timeout / 2
    } else {
        SECOND
    }
}

/// The two parts of a shutdown, in nanoseconds from its start.
#[derive(Clone, Copy, Debug, PartialEq, Eq, Structural)]
pub struct ShutdownWindows {
    /// Until then everything may end by itself.
    pub graceful: u128,
    /// Until then everything has to have ended.
    pub total: u128,
}

/// Splits a shutdown. `fits` says whether the platform's clock can count to the end
/// of `shutdown_timeout`; where it cannot, a fixed time is used. The graceful part
/// is at least half of the whole, so that even the shortest shutdown has one.
pub fn shutdown_windows(shutdown_timeout: u128, fits: bool) -> (windows: ShutdownWindows)
    ensures
        windows.total == if fits {
            shutdown_timeout
        } else {
            LEGACY_SHUTDOWN_TIMEOUT
        },
        windows.total - windows.graceful == if shutdown_timeout / 2 < SECOND {
            shutdown_timeout / 2
        } else {
            SECOND
        },
        2 * windows.graceful >= windows.total,
        windows.total > 0 ==> windows.graceful > 0,
        shutdown_timeout >= 2 ==> windows.graceful < windows.total,
{
    let total = if fits {
        shutdown_timeout
    } else {
        LEGACY_SHUTDOWN_TIMEOUT
    };
    ShutdownWindows { graceful: total - force_reserve(shutdown_timeout), total }
}

/// What the connection runs on.
#[derive(Clone, Copy, Debug, PartialEq, Eq, Structural)]
pub enum Endpoint {
    Embedded,
    Managed,
    External,
}

/// What the host observed.
#[derive(Debug)]
pub enum Observation {
    /// The task, or the child's wait, ended as it should.
    Finished,
    /// The embedded server returned an error.
    LoopFailed(String),
    /// The task failed; `cancelled` tells that it was aborted.
    TaskFailed { cancelled: bool, message: String },
    TimedOut,
    /// The child exited.
    Exited(ProcessStatus),
    /// Waiting for the child failed.
    WaitFailed(String),
    /// The child was told to die; `reap` is `None` where it did not end in time.
    Forced { kill_error: Option<String>, reap: Option<Result<ProcessStatus, String>> },
}

/// What the host does next.
#[derive(Clone, Copy, Debug, PartialEq, Eq, Structural)]
pub enum CleanupAction {
    AwaitWriter,
    AwaitWriterToTheEnd,
    AwaitReader,
    AbortReader,
    AwaitServer,
    AbortServer,
    AwaitChild,
    KillChild,
    Done,
}

/// A shutdown under way: what the host was told to do, and what is known so far.
#[derive(Debug)]
pub struct Cleanup {
    pub endpoint: Endpoint,
    pub awaited: CleanupAction,
    pub outcome: ConnectionShutdown,
}

/// A [`Cleanup`] by its texts.
pub struct CleanupView {
    pub endpoint: Endpoint,
    pub awaited: CleanupAction,
    pub outcome: ShutdownView,
}

impl View for Cleanup {
    type V = CleanupView;

    open spec fn view(&self) -> CleanupView {
        CleanupView {
            endpoint: self.endpoint,
            awaited: self.awaited,
            outcome: self.outcome@,
        }
    }
}

/// The first thing to do about an endpoint.
pub open spec fn endpoint_action(endpoint: Endpoint) -> CleanupAction {
    match endpoint {
        Endpoint::Embedded => CleanupAction::AwaitServer,
        Endpoint::Managed => CleanupAction::AwaitChild,
        Endpoint::External => CleanupAction::Done,
    }
}

/// Which observations an action can have.
pub open spec fn observable(awaited: CleanupAction, observation: Observation) -> bool {
    match awaited {
        CleanupAction::AwaitWriter
        | CleanupAction::AwaitWriterToTheEnd
        | CleanupAction::AwaitReader
        | CleanupAction::AbortReader => observation is Finished || observation is TaskFailed
            || observation is TimedOut,
        CleanupAction::AwaitServer | CleanupAction::AbortServer => observation is Finished
            || observation is LoopFailed || observation is TaskFailed || observation is TimedOut,
        CleanupAction::AwaitChild => observation is Exited || observation is WaitFailed
            || observation is TimedOut,
        CleanupAction::KillChild => observation is Forced,
        CleanupAction::Done => false,
    }
}

/// A failure of kind [`ConnectionFailureKind::Failed`], with what was observed.
pub open spec fn broke(
    outcome: ShutdownView,
    phase: ConnectionShutdownPhase,
    text: Seq<char>,
    message: String,
) -> ShutdownView {
    failed(outcome, phase, ConnectionFailureKind::Failed, text + message@)
}

/// What is known, and what the host does next, after an observation.
pub open spec fn cleaned(
    endpoint: Endpoint,
    awaited: CleanupAction,
    outcome: ShutdownView,
    observation: Observation,
) -> (CleanupAction, ShutdownView) {
    let writer = ConnectionShutdownPhase::Writer;
    let reader = ConnectionShutdownPhase::Reader;
    let server = ConnectionShutdownPhase::EmbeddedServer;
    let child = ConnectionShutdownPhase::ManagedChild;
    let late = ConnectionFailureKind::TimedOut;
    match awaited {
        CleanupAction::AwaitWriter => match observation {
            Observation::TaskFailed { message, .. } => (
                CleanupAction::AwaitReader,
                broke(outcome, writer, "local writer close task failed: "@, message),
            ),
            Observation::TimedOut => (
                CleanupAction::AwaitWriterToTheEnd,
                noted(under_force(outcome), "local writer close exceeded graceful window"@),
            ),
            _ => (CleanupAction::AwaitReader, outcome),
        },
        CleanupAction::AwaitWriterToTheEnd => match observation {
            Observation::TaskFailed { message, .. } => (
                CleanupAction::AwaitReader,
                broke(outcome, writer, "local writer close task failed after grace: "@, message),
            ),
            Observation::TimedOut => (
                CleanupAction::AwaitReader,
                failed(
                    outcome,
                    writer,
                    late,
                    "local writer close timed out; close continues in background"@,
                ),
            ),
            _ => (CleanupAction::AwaitReader, outcome),
        },
        CleanupAction::AwaitReader => match observation {
            Observation::TaskFailed { message, .. } => (
                endpoint_action(endpoint),
                broke(outcome, reader, "SDK reader task failed: "@, message),
            ),
            Observation::TimedOut => (
                CleanupAction::AbortReader,
                noted(under_force(outcome), "SDK reader join timed out"@),
            ),
            _ => (endpoint_action(endpoint), outcome),
        },
        CleanupAction::AbortReader => match observation {
            Observation::TaskFailed { cancelled, message } => (
                endpoint_action(endpoint),
                if cancelled {
                    outcome
                } else {
                    broke(outcome, reader, "SDK reader task failed after abort: "@, message)
                },
            ),
            Observation::TimedOut => (
                endpoint_action(endpoint),
                failed(outcome, reader, late, "SDK reader abort join timed out"@),
            ),
            _ => (endpoint_action(endpoint), outcome),
        },
        CleanupAction::AwaitServer => match observation {
            Observation::LoopFailed(message) => (
                CleanupAction::Done,
                broke(outcome, server, "embedded server loop failed: "@, message),
            ),
            Observation::TaskFailed { message, .. } => (
                CleanupAction::Done,
                broke(outcome, server, "embedded server task failed: "@, message),
            ),
            Observation::TimedOut => (
                CleanupAction::AbortServer,
                noted(
                    under_force(outcome),
                    "embedded server connection loop join timed out"@,
                ),
            ),
            _ => (CleanupAction::Done, outcome),
        },
        CleanupAction::AbortServer => match observation {
            Observation::LoopFailed(message) => (
                CleanupAction::Done,
                broke(outcome, server, "embedded server loop failed after abort: "@, message),
            ),
            Observation::TaskFailed { cancelled, message } => (
                CleanupAction::Done,
                if cancelled {
                    outcome
                } else {
                    broke(outcome, server, "embedded server task failed after abort: "@, message)
                },
            ),
            Observation::TimedOut => (
                CleanupAction::Done,
                failed(outcome, server, late, "embedded server abort join timed out"@),
            ),
            _ => (CleanupAction::Done, outcome),
        },
        CleanupAction::AwaitChild => match observation {
            Observation::Exited(status) => (
                CleanupAction::Done,
                ShutdownView { process_status: Some(status), ..outcome },
            ),
            Observation::WaitFailed(message) => (
                CleanupAction::KillChild,
                broke(under_force(outcome), child, "managed child wait failed: "@, message),
            ),
            Observation::TimedOut => (
                CleanupAction::KillChild,
                noted(under_force(outcome), "managed child graceful wait timed out"@),
            ),
            _ => (CleanupAction::Done, outcome),
        },
        CleanupAction::KillChild => match observation {
            Observation::Forced { kill_error, reap } => match reap {
                Some(result) => (
                    CleanupAction::Done,
                    ShutdownView {
                        background_reap: outcome.background_reap || result is Err,
                        ..reaped(outcome, kill_error, result)
                    },
                ),
                None => (
                    CleanupAction::Done,
                    ShutdownView {
                        background_reap: true,
                        ..failed(
                            killed(outcome, kill_error),
                            child,
                            late,
                            "managed child reap timed out; reap continues in background"@,
                        )
                    },
                ),
            },
            _ => (CleanupAction::Done, outcome),
        },
        CleanupAction::Done => (CleanupAction::Done, outcome),
    }
}

fn endpoint_step(endpoint: Endpoint) -> (action: CleanupAction)
    ensures
        action == endpoint_action(endpoint),
{
    match endpoint {
        Endpoint::Embedded => CleanupAction::AwaitServer,
        Endpoint::Managed => CleanupAction::AwaitChild,
        Endpoint::External => CleanupAction::Done,
    }
}

impl Cleanup {
    /// A shutdown that starts now. `fits` says whether the platform's clock can count
    /// to its end. The first thing to do is [`CleanupAction::AwaitWriter`].
    pub fn begin(endpoint: Endpoint, fits: bool) -> (cleanup: Self)
        ensures
            cleanup@ == (CleanupView {
                endpoint,
                awaited: CleanupAction::AwaitWriter,
                outcome: if fits {
                    clean_shutdown(None)
                } else {
                    failed(
                        clean_shutdown(None),
                        ConnectionShutdownPhase::Deadline,
                        ConnectionFailureKind::Failed,
                        "shutdown timeout exceeds the platform Instant range"@,
                    )
                },
            }),
    {
        let mut outcome = ConnectionShutdown::clean(None);
        if !fits {
            outcome.record_failure(
                ConnectionShutdownPhase::Deadline,
                ConnectionFailureKind::Failed,
                "shutdown timeout exceeds the platform Instant range".to_owned(),
            );
        }
        Cleanup { endpoint, awaited: CleanupAction::AwaitWriter, outcome }
    }

    fn broke(&mut self, phase: ConnectionShutdownPhase, text: &str, message: String)
        ensures
            final(self)@ == (CleanupView {
                outcome: broke(old(self)@.outcome, phase, text@, message),
                ..old(self)@
            }),
    {
        self.outcome.record_failure(
            phase,
            ConnectionFailureKind::Failed,
            join2(text, message.as_str()),
        );
    }

    fn late(&mut self, phase: ConnectionShutdownPhase, text: &str)
        ensures
            final(self)@ == (CleanupView {
                outcome: failed(
                    old(self)@.outcome,
                    phase,
                    ConnectionFailureKind::TimedOut,
                    text@,
                ),
                ..old(self)@
            }),
    {
        self.outcome.record_failure(phase, ConnectionFailureKind::TimedOut, text.to_owned());
    }

    fn force(&mut self, text: &str)
        ensures
            final(self)@ == (CleanupView {
                outcome: noted(under_force(old(self)@.outcome), text@),
                ..old(self)@
            }),
    {
        self.outcome.forced = true;
        self.outcome.record_warning(text);
    }

    fn observe_writer(&mut self, observation: Observation) -> (action: CleanupAction)
        requires
            old(self)@.awaited == CleanupAction::AwaitWriter || old(self)@.awaited
                == CleanupAction::AwaitWriterToTheEnd,
            observable(old(self)@.awaited, observation),
        ensures
            (action, final(self)@.outcome) == cleaned(
                old(self)@.endpoint,
                old(self)@.awaited,
                old(self)@.outcome,
                observation,
            ),
            final(self)@.endpoint == old(self)@.endpoint,
    {
        let in_time = self.awaited == CleanupAction::AwaitWriter;
        match observation {
            Observation::TaskFailed { message, .. } => {
                if in_time {
                    self.broke(
                        ConnectionShutdownPhase::Writer,
                        "local writer close task failed: ",
                        message,
                    );
                } else {
                    self.broke(
                        ConnectionShutdownPhase::Writer,
                        "local writer close task failed after grace: ",
                        message,
                    );
                }
                CleanupAction::AwaitReader
            },
            Observation::TimedOut => {
                if in_time {
                    self.force("local writer close exceeded graceful window");
                    CleanupAction::AwaitWriterToTheEnd
                } else {
                    self.late(
                        ConnectionShutdownPhase::Writer,
                        "local writer close timed out; close continues in background",
                    );
                    CleanupAction::AwaitReader
                }
            },
            _ => CleanupAction::AwaitReader,
        }
    }

    fn observe_reader(&mut self, observation: Observation) -> (action: CleanupAction)
        requires
            old(self)@.awaited == CleanupAction::AwaitReader || old(self)@.awaited
                == CleanupAction::AbortReader,
            observable(old(self)@.awaited, observation),
        ensures
            (action, final(self)@.outcome) == cleaned(
                old(self)@.endpoint,
                old(self)@.awaited,
                old(self)@.outcome,
                observation,
            ),
            final(self)@.endpoint == old(self)@.endpoint,
    {
        let in_time = self.awaited == CleanupAction::AwaitReader;
        match observation {
            Observation::TaskFailed { cancelled, message } => {
                if in_time {
                    self.broke(
                        ConnectionShutdownPhase::Reader,
                        "SDK reader task failed: ",
                        message,
                    );
                } else if !cancelled {
                    self.broke(
                        ConnectionShutdownPhase::Reader,
                        "SDK reader task failed after abort: ",
                        message,
                    );
                }
                endpoint_step(self.endpoint)
            },
            Observation::TimedOut => {
                if in_time {
                    self.force("SDK reader join timed out");
                    CleanupAction::AbortReader
                } else {
                    self.late(
                        ConnectionShutdownPhase::Reader,
                        "SDK reader abort join timed out",
                    );
                    endpoint_step(self.endpoint)
                }
            },
            _ => endpoint_step(self.endpoint),
        }
    }

    fn observe_server(&mut self, observation: Observation) -> (action: CleanupAction)
        requires
            old(self)@.awaited == CleanupAction::AwaitServer || old(self)@.awaited
                == CleanupAction::AbortServer,
            observable(old(self)@.awaited, observation),
        ensures
            (action, final(self)@.outcome) == cleaned(
                old(self)@.endpoint,
                old(self)@.awaited,
                old(self)@.outcome,
                observation,
            ),
            final(self)@.endpoint == old(self)@.endpoint,
    {
        let in_time = self.awaited == CleanupAction::AwaitServer;
        match observation {
            Observation::LoopFailed(message) => {
                if in_time {
                    self.broke(
                        ConnectionShutdownPhase::EmbeddedServer,
                        "embedded server loop failed: ",
                        message,
                    );
                } else {
                    self.broke(
                        ConnectionShutdownPhase::EmbeddedServer,
                        "embedded server loop failed after abort: ",
                        message,
                    );
                }
                CleanupAction::Done
            },
            Observation::TaskFailed { cancelled, message } => {
                if in_time {
                    self.broke(
                        ConnectionShutdownPhase::EmbeddedServer,
                        "embedded server task failed: ",
                        message,
                    );
                } else if !cancelled {
                    self.broke(
                        ConnectionShutdownPhase::EmbeddedServer,
                        "embedded server task failed after abort: ",
                        message,
                    );
                }
                CleanupAction::Done
            },
            Observation::TimedOut => {
                if in_time {
                    self.force("embedded server connection loop join timed out");
                    CleanupAction::AbortServer
                } else {
                    self.late(
                        ConnectionShutdownPhase::EmbeddedServer,
                        "embedded server abort join timed out",
                    );
                    CleanupAction::Done
                }
            },
            _ => CleanupAction::Done,
        }
    }

    fn observe_child(&mut self, observation: Observation) -> (action: CleanupAction)
        requires
            old(self)@.awaited == CleanupAction::AwaitChild || old(self)@.awaited
                == CleanupAction::KillChild,
            observable(old(self)@.awaited, observation),
        ensures
            (action, final(self)@.outcome) == cleaned(
                old(self)@.endpoint,
                old(self)@.awaited,
                old(self)@.outcome,
                observation,
            ),
            final(self)@.endpoint == old(self)@.endpoint,
    {
        match observation {
            Observation::Exited(status) => {
                self.outcome.process_status = Some(status);
                CleanupAction::Done
            },
            Observation::WaitFailed(message) => {
                self.outcome.forced = true;
                self.broke(
                    ConnectionShutdownPhase::ManagedChild,
                    "managed child wait failed: ",
                    message,
                );
                CleanupAction::KillChild
            },
            Observation::TimedOut => {
                self.force("managed child graceful wait timed out");
                CleanupAction::KillChild
            },
            Observation::Forced { kill_error, reap } => {
                match reap {
                    Some(result) => {
                        let lost = result.is_err();
                        self.outcome.record_forced_reap(kill_error, result);
                        if lost {
                            self.outcome.background_reap = true;
                        }
                    },
                    None => {
                        if let Some(error) = kill_error {
                            self.broke(
                                ConnectionShutdownPhase::ManagedChild,
                                "managed child kill failed: ",
                                error,
                            );
                        }
                        self.late(
                            ConnectionShutdownPhase::ManagedChild,
                            "managed child reap timed out; reap continues in background",
                        );
                        self.outcome.background_reap = true;
                    },
                }
                CleanupAction::Done
            },
            _ => CleanupAction::Done,
        }
    }

    /// Takes what the host observed and says what to do next.
    pub fn observe(&mut self, observation: Observation) -> (action: CleanupAction)
        requires
            observable(old(self)@.awaited, observation),
        ensures
            (action, final(self)@.outcome) == cleaned(
                old(self)@.endpoint,
                old(self)@.awaited,
                old(self)@.outcome,
                observation,
            ),
            final(self)@.awaited == action,
            final(self)@.endpoint == old(self)@.endpoint,
    {
        let action = match self.awaited {
            CleanupAction::AwaitWriter | CleanupAction::AwaitWriterToTheEnd => self.observe_writer(
                observation,
            ),
            CleanupAction::AwaitReader | CleanupAction::AbortReader => self.observe_reader(
                observation,
            ),
            CleanupAction::AwaitServer | CleanupAction::AbortServer => self.observe_server(
                observation,
            ),
            CleanupAction::AwaitChild | CleanupAction::KillChild => self.observe_child(observation),
            CleanupAction::Done => CleanupAction::Done,
        };
        self.awaited = action;
        action
    }
}

/// How many observations a shutdown can still make.
pub open spec fn remaining(awaited: CleanupAction) -> nat {
    match awaited {
        CleanupAction::AwaitWriter => 6,
        CleanupAction::AwaitWriterToTheEnd => 5,
        CleanupAction::AwaitReader => 4,
        CleanupAction::AbortReader => 3,
        CleanupAction::AwaitServer | CleanupAction::AwaitChild => 2,
        CleanupAction::AbortServer | CleanupAction::KillChild => 1,
        CleanupAction::Done => 0,
    }
}

/// Every observation brings a shutdown nearer to its end, so it ends after at most
/// six of them, whatever is observed.
pub proof fn shutdown_ends(
    endpoint: Endpoint,
    awaited: CleanupAction,
    outcome: ShutdownView,
    observation: Observation,
)
    requires
        observable(awaited, observation),
    ensures
        remaining(cleaned(endpoint, awaited, outcome, observation).0) < remaining(awaited),
        remaining(awaited) <= 6,
{
}

/// The first failure of a shutdown is the one that is reported, force is never taken
/// back, and no diagnostic is lost: each observation only adds to the text.
pub proof fn shutdown_only_adds(
    endpoint: Endpoint,
    awaited: CleanupAction,
    outcome: ShutdownView,
    observation: Observation,
)
    requires
        observable(awaited, observation),
    ensures
        ({
            let next = cleaned(endpoint, awaited, outcome, observation).1;
            &&& outcome.failure is Some ==> next.failure == outcome.failure
            &&& outcome.forced ==> next.forced
            &&& outcome.error matches Some(text) ==> {
                &&& next.error is Some
                &&& text.is_prefix_of(next.error->0)
            }
        }),
{
    let next = cleaned(endpoint, awaited, outcome, observation).1;
    if let Some(text) = outcome.error {
        assert(next.error is Some);
        assert(next.error->0.subrange(0, text.len() as int) =~= text);
    }
}

/// A stage that misses its graceful window and then ends well makes the shutdown a
/// forced one, not a failed one.
pub proof fn late_but_ended_is_no_failure(
    endpoint: Endpoint,
    awaited: CleanupAction,
    outcome: ShutdownView,
)
    requires
        awaited == CleanupAction::AwaitWriter || awaited == CleanupAction::AwaitReader || awaited
            == CleanupAction::AwaitServer,
    ensures
        ({
            let (then_awaited, mid) = cleaned(
                endpoint,
                awaited,
                outcome,
                Observation::TimedOut,
            );
            let (next, end) = cleaned(endpoint, then_awaited, mid, Observation::Finished);
            &&& end.forced
            &&& end.failure == outcome.failure
            &&& next == cleaned(endpoint, awaited, outcome, Observation::Finished).0
        }),
{
}

/// A shutdown in which everything ends by itself has nothing to report.
pub proof fn clean_stages_keep_the_shutdown_clean(
    endpoint: Endpoint,
    awaited: CleanupAction,
    outcome: ShutdownView,
    observation: Observation,
)
    requires
        observable(awaited, observation),
        observation is Finished || observation is Exited,
        outcome == clean_shutdown(None),
    ensures
        ({
            let next = cleaned(endpoint, awaited, outcome, observation).1;
            next == clean_shutdown(next.process_status)
        }),
{
}

/// No shutdown ends before its endpoint was attended to: whatever is observed of the writer,
/// the reader comes next, and whatever is observed of the reader, the server or the child is
/// awaited next, once the reader has not to be aborted first. Only a daemon that runs elsewhere
/// leaves nothing to wait for.
pub proof fn endpoint_is_attended_to(
    endpoint: Endpoint,
    outcome: ShutdownView,
    observation: Observation,
)
    ensures
        ({
            let first = cleaned(endpoint, CleanupAction::AwaitWriter, outcome, observation).0;
            let second = cleaned(
                endpoint,
                CleanupAction::AwaitWriterToTheEnd,
                outcome,
                observation,
            ).0;
            let third = cleaned(endpoint, CleanupAction::AwaitReader, outcome, observation).0;
            let fourth = cleaned(endpoint, CleanupAction::AbortReader, outcome, observation).0;
            &&& first == if observation is TimedOut {
                CleanupAction::AwaitWriterToTheEnd
            } else {
                CleanupAction::AwaitReader
            }
            &&& second == CleanupAction::AwaitReader
            &&& observation is TimedOut ==> third == CleanupAction::AbortReader
            &&& !(observation is TimedOut) ==> third == fourth
            &&& endpoint == Endpoint::Managed ==> fourth == CleanupAction::AwaitChild
            &&& endpoint == Endpoint::Embedded ==> fourth == CleanupAction::AwaitServer
            &&& endpoint == Endpoint::External ==> fourth == CleanupAction::Done
        }),
{
}

/// A child that exits ends the shutdown with its status. One that does not exit in time, or
/// that cannot be waited for, is told to die, and that counts as force.
pub proof fn child_is_reaped_or_killed(
    endpoint: Endpoint,
    outcome: ShutdownView,
    status: ProcessStatus,
    message: String,
)
    ensures
        cleaned(endpoint, CleanupAction::AwaitChild, outcome, Observation::Exited(status)) == (
            CleanupAction::Done,
            ShutdownView { process_status: Some(status), ..outcome },
        ),
        ({
            let (next, known) = cleaned(
                endpoint,
                CleanupAction::AwaitChild,
                outcome,
                Observation::TimedOut,
            );
            &&& next == CleanupAction::KillChild
            &&& known.forced
            &&& known.failure == outcome.failure
        }),
        ({
            let (next, known) = cleaned(
                endpoint,
                CleanupAction::AwaitChild,
                outcome,
                Observation::WaitFailed(message),
            );
            &&& next == CleanupAction::KillChild
            &&& known.forced
            &&& known.failure is Some
        }),
{
}

/// A child that was told to die and is gone was stopped, even where telling it failed. One
/// that is not known to be gone is a failure, and the host goes on waiting for it.
pub proof fn killed_child_is_accounted_for(
    endpoint: Endpoint,
    outcome: ShutdownView,
    kill_error: Option<String>,
    reap: Option<Result<ProcessStatus, String>>,
)
    requires
        outcome.failure is None,
        !outcome.background_reap,
    ensures
        ({
            let (next, known) = cleaned(
                endpoint,
                CleanupAction::KillChild,
                outcome,
                Observation::Forced { kill_error, reap },
            );
            &&& next == CleanupAction::Done
            &&& known.forced == outcome.forced
            &&& match reap {
                Some(Ok(status)) => {
                    &&& known.process_status == Some(status)
                    &&& known.failure is None
                    &&& !known.background_reap
                },
                _ => {
                    &&& known.process_status == outcome.process_status
                    &&& known.failure is Some
                    &&& known.failure->0.phase == ConnectionShutdownPhase::ManagedChild
                    &&& known.failure->0.kind == if kill_error is None && reap is None {
                        ConnectionFailureKind::TimedOut
                    } else {
                        ConnectionFailureKind::Failed
                    }
                    &&& known.background_reap
                },
            }
            &&& known.error is None <==> outcome.error is None && kill_error is None && (reap
                matches Some(result) && result is Ok)
        }),
{
}

/// A server that ends, or whose task fails, ends the shutdown; one that does not end in time
/// is aborted first, and that counts as force.
pub proof fn server_is_joined_or_aborted(
    endpoint: Endpoint,
    outcome: ShutdownView,
    observation: Observation,
)
    ensures
        cleaned(endpoint, CleanupAction::AwaitServer, outcome, observation).0 == if observation
            is TimedOut {
            CleanupAction::AbortServer
        } else {
            CleanupAction::Done
        },
        cleaned(endpoint, CleanupAction::AbortServer, outcome, observation).0
            == CleanupAction::Done,
{
}

/// A shutdown was forced exactly where a stage missed its graceful window, or where the child
/// could not be waited for.
pub proof fn force_is_told_exactly(
    endpoint: Endpoint,
    awaited: CleanupAction,
    outcome: ShutdownView,
    observation: Observation,
)
    ensures
        cleaned(endpoint, awaited, outcome, observation).1.forced <==> {
            ||| outcome.forced
            ||| observation is TimedOut && (awaited == CleanupAction::AwaitWriter || awaited
                == CleanupAction::AwaitReader || awaited == CleanupAction::AwaitServer || awaited
                == CleanupAction::AwaitChild)
            ||| observation is WaitFailed && awaited == CleanupAction::AwaitChild
        },
{
}

/// The first thing that counts against a shutdown is reported by where and how it went wrong:
/// a task that failed, other than one that was aborted, a server that returned an error, a
/// child that could not be waited for, and a stage that missed its last window.
pub proof fn first_failure_is_reported(
    endpoint: Endpoint,
    awaited: CleanupAction,
    outcome: ShutdownView,
    observation: Observation,
)
    requires
        outcome.failure is None,
        awaited != CleanupAction::KillChild,
        observable(awaited, observation),
    ensures
        ({
            let failure = cleaned(endpoint, awaited, outcome, observation).1.failure;
            let second = awaited == CleanupAction::AwaitWriterToTheEnd || awaited
                == CleanupAction::AbortReader || awaited == CleanupAction::AbortServer;
            let aborted = awaited == CleanupAction::AbortReader || awaited
                == CleanupAction::AbortServer;
            &&& failure is Some <==> {
                ||| observation matches Observation::TaskFailed { cancelled, .. } && !(aborted
                    && cancelled)
                ||| observation is LoopFailed
                ||| observation is WaitFailed
                ||| observation is TimedOut && second
            }
            &&& failure matches Some(told) ==> {
                &&& told.kind == if observation is TimedOut {
                    ConnectionFailureKind::TimedOut
                } else {
                    ConnectionFailureKind::Failed
                }
                &&& told.phase == match awaited {
                    CleanupAction::AwaitWriter | CleanupAction::AwaitWriterToTheEnd =>
                        ConnectionShutdownPhase::Writer,
                    CleanupAction::AwaitReader | CleanupAction::AbortReader =>
                        ConnectionShutdownPhase::Reader,
                    CleanupAction::AwaitServer | CleanupAction::AbortServer =>
                        ConnectionShutdownPhase::EmbeddedServer,
                    _ => ConnectionShutdownPhase::ManagedChild,
                }
                &&& observation matches Observation::TaskFailed { message, .. } ==> message@.is_suffix_of(
                    told.message,
                )
                &&& observation matches Observation::LoopFailed(message) ==> message@.is_suffix_of(
                    told.message,
                )
                &&& observation matches Observation::WaitFailed(message) ==> message@.is_suffix_of(
                    told.message,
                )
            }
        }),
{
}

/// What ends well says nothing, and takes nothing back; only the exit of a child tells its
/// status.
pub proof fn good_end_adds_nothing(
    endpoint: Endpoint,
    awaited: CleanupAction,
    outcome: ShutdownView,
)
    ensures
        cleaned(endpoint, awaited, outcome, Observation::Finished).1 == outcome,
{
}

/// Only the child's own end tells its status: every other observation leaves what is known of
/// it as it is.
pub proof fn status_comes_from_the_child(
    endpoint: Endpoint,
    awaited: CleanupAction,
    outcome: ShutdownView,
    observation: Observation,
)
    requires
        awaited != CleanupAction::AwaitChild,
        awaited != CleanupAction::KillChild,
    ensures
        cleaned(endpoint, awaited, outcome, observation).1.process_status
            == outcome.process_status,
        cleaned(endpoint, awaited, outcome, observation).1.background_reap
            == outcome.background_reap,
{
}

/// A shutdown after a series of observations.
pub open spec fn after_observations(cleanup: CleanupView, observations: Seq<Observation>) -> CleanupView
    decreases observations.len(),
{
    if observations.len() == 0 {
        cleanup
    } else {
        let before = after_observations(cleanup, observations.drop_last());
        let (awaited, outcome) = cleaned(
            before.endpoint,
            before.awaited,
            before.outcome,
            observations.last(),
        );
        CleanupView { endpoint: before.endpoint, awaited, outcome }
    }
}

/// Every observation of the series is one of what was awaited then.
pub open spec fn is_observed(cleanup: CleanupView, observations: Seq<Observation>) -> bool
    decreases observations.len(),
{
    observations.len() > 0 ==> {
        &&& is_observed(cleanup, observations.drop_last())
        &&& observable(
            after_observations(cleanup, observations.drop_last()).awaited,
            observations.last(),
        )
    }
}

/// A shutdown of a managed daemon that has ended has seen the child exit, or has told it to
/// die; one of an embedded daemon has waited for the server. Nothing that is observed of the
/// writer or the reader lets it end before.
pub proof fn no_shutdown_leaves_its_endpoint_behind(
    start: CleanupView,
    observations: Seq<Observation>,
)
    requires
        start.awaited == CleanupAction::AwaitWriter,
        is_observed(start, observations),
    ensures
        ({
            let end = after_observations(start, observations);
            &&& end.endpoint == start.endpoint
            &&& start.endpoint == Endpoint::Managed ==> {
                &&& end.awaited != CleanupAction::AwaitServer
                &&& end.awaited != CleanupAction::AbortServer
                &&& end.awaited == CleanupAction::Done ==> exists|i: int|
                    0 <= i < observations.len() && ((#[trigger] observations[i]) is Exited
                        || observations[i] is Forced)
            }
            &&& start.endpoint == Endpoint::Embedded ==> {
                &&& end.awaited != CleanupAction::AwaitChild
                &&& end.awaited != CleanupAction::KillChild
                &&& end.awaited == CleanupAction::AbortServer || end.awaited
                    == CleanupAction::Done ==> exists|k: int|
                    0 <= k < observations.len() && (#[trigger] after_observations(
                        start,
                        observations.take(k),
                    )).awaited == CleanupAction::AwaitServer
            }
        }),
    decreases observations.len(),
{
    if observations.len() > 0 {
        let before = observations.drop_last();
        no_shutdown_leaves_its_endpoint_behind(start, before);
        let mid = after_observations(start, before);
        let end = after_observations(start, observations);
        let last = observations.len() - 1;
        assert(observations.last() == observations[last]);
        assert(observations.take(last) =~= before);
        if start.endpoint == Endpoint::Embedded {
            if mid.awaited == CleanupAction::AbortServer || mid.awaited == CleanupAction::Done {
                let k = choose|k: int|
                    0 <= k < before.len() && (#[trigger] after_observations(
                        start,
                        before.take(k),
                    )).awaited == CleanupAction::AwaitServer;
                assert(before.take(k) =~= observations.take(k));
                assert(after_observations(start, observations.take(k)).awaited
                    == CleanupAction::AwaitServer);
            } else if end.awaited == CleanupAction::AbortServer || end.awaited
                == CleanupAction::Done {
                assert(after_observations(start, observations.take(last)).awaited
                    == CleanupAction::AwaitServer);
            }
        }
    }
}

/// Diagnostics are kept in the order in which they came, and of those that count only the
/// first becomes the failure.
pub proof fn diagnostics_are_kept(
    outcome: ShutdownView,
    phase: ConnectionShutdownPhase,
    kind: ConnectionFailureKind,
    text: Seq<char>,
)
    ensures
        noted(outcome, text) == (ShutdownView { error: noted(outcome, text).error, ..outcome }),
        outcome.error is None ==> noted(outcome, text).error == Some(text),
        outcome.error matches Some(before) ==> noted(outcome, text).error == Some(
            before + "; "@ + text,
        ),
        failed(outcome, phase, kind, text) == (ShutdownView {
            failure: failed(outcome, phase, kind, text).failure,
            ..noted(outcome, text)
        }),
        outcome.failure is Some ==> failed(outcome, phase, kind, text).failure == outcome.failure,
        outcome.failure is None ==> failed(outcome, phase, kind, text).failure == Some(
            FailureView { phase, kind, message: text },
        ),
        under_force(outcome) == (ShutdownView { forced: true, ..outcome }),
{
}

/// A shutdown starts with nothing to report.
pub proof fn clean_shutdown_reports_nothing(process_status: Option<ProcessStatus>)
    ensures
        ({
            let clean = clean_shutdown(process_status);
            &&& !clean.forced
            &&& clean.error is None
            &&& clean.failure is None
            &&& clean.process_status == process_status
            &&& !clean.background_reap
        }),
{
}

/// How a child that was told to die ended is recorded: its status where it is gone, and the
/// failure to wait for it otherwise. A message of the kill is never lost.
pub proof fn forced_reap_is_recorded(
    outcome: ShutdownView,
    kill_error: Option<String>,
    reap_result: Result<ProcessStatus, String>,
)
    requires
        outcome.failure is None,
    ensures
        ({
            let known = reaped(outcome, kill_error, reap_result);
            &&& known.forced == outcome.forced
            &&& known.background_reap == outcome.background_reap
            &&& reap_result matches Ok(status) ==> {
                &&& known.process_status == Some(status)
                &&& known.failure is None
            }
            &&& reap_result is Err ==> {
                &&& known.process_status == outcome.process_status
                &&& known.failure is Some
                &&& known.failure->0.kind == ConnectionFailureKind::Failed
                &&& known.failure->0.phase == ConnectionShutdownPhase::ManagedChild
            }
            &&& kill_error is None && reap_result is Ok ==> known.error == outcome.error
            &&& kill_error is Some || reap_result is Err ==> known.error is Some
            &&& known.error is Some && outcome.error is Some && (kill_error is Some
                || reap_result is Err) ==> known.error->0.len() > outcome.error->0.len()
        }),
{
    reveal_strlit("; ");
}

/// Who asks for a shutdown gives its reason; other shutdowns are named after what caused them.
pub proof fn reason_is_handed_on(message: String)
    ensures
        reason_text(Some(StopReason::Requested(message))) == message@,
        reason_text(Some(StopReason::ReaderFinished)) == "Daemon disconnected"@,
        reason_text(None) == "Connection owner dropped"@,
{
}

/// Whatever goes wrong is noted among the diagnostics, behind those that came before, with
/// the message that came with it; what ends well, and the end of a task that was aborted,
/// adds nothing.
pub proof fn every_trouble_is_noted(
    endpoint: Endpoint,
    awaited: CleanupAction,
    outcome: ShutdownView,
    observation: Observation,
)
    requires
        observable(awaited, observation),
    ensures
        ({
            let known = cleaned(endpoint, awaited, outcome, observation).1;
            let aborted = awaited == CleanupAction::AbortReader || awaited
                == CleanupAction::AbortServer;
            let well = match observation {
                Observation::Finished | Observation::Exited(_) => true,
                Observation::TaskFailed { cancelled, .. } => aborted && cancelled,
                Observation::Forced { kill_error, reap } => kill_error is None && (reap
                    matches Some(result) && result is Ok),
                _ => false,
            };
            let detail = match observation {
                Observation::LoopFailed(message) => message@,
                Observation::TaskFailed { message, .. } => message@,
                Observation::WaitFailed(message) => message@,
                Observation::Forced { reap: Some(Err(message)), .. } => message@,
                Observation::Forced { kill_error: Some(message), reap: Some(Ok(_)) } => message@,
                _ => Seq::empty(),
            };
            &&& well ==> known.error == outcome.error
            &&& !well ==> (known.error matches Some(text) && detail.is_suffix_of(text) && (
            outcome.error matches Some(before) ==> before.len() < text.len()))
        }),
{
    reveal_strlit("; ");
}

/// What is known of the child's end comes from its exit, or from the wait for it after it was
/// told to die. A child whose end is not known then is left to the host, which goes on
/// waiting for it, and counts against the shutdown.
pub proof fn end_of_the_child_is_known_or_awaited(
    endpoint: Endpoint,
    outcome: ShutdownView,
    observation: Observation,
)
    ensures
        ({
            let waited = cleaned(endpoint, CleanupAction::AwaitChild, outcome, observation).1;
            &&& waited.background_reap == outcome.background_reap
            &&& waited.process_status == match observation {
                Observation::Exited(status) => Some(status),
                _ => outcome.process_status,
            }
        }),
        observation matches Observation::Forced { kill_error, reap } ==> {
            let known = cleaned(endpoint, CleanupAction::KillChild, outcome, observation).1;
            let ended = reap matches Some(result) && result is Ok;
            &&& known.process_status == match reap {
                Some(Ok(status)) => Some(status),
                _ => outcome.process_status,
            }
            &&& known.background_reap == (outcome.background_reap || !ended)
            &&& ended ==> known.failure == outcome.failure
            &&& !ended ==> known.failure is Some
            &&& outcome.failure is Some ==> known.failure == outcome.failure
        },
{
}

/// A forced end is noted with what went wrong: the failure to tell the child to die where it
/// ended nevertheless, and else the failure to wait for it.
pub proof fn forced_end_tells_what_went_wrong(
    outcome: ShutdownView,
    kill_error: Option<String>,
    reap_result: Result<ProcessStatus, String>,
)
    ensures
        ({
            let known = reaped(outcome, kill_error, reap_result);
            &&& reap_result matches Err(message) ==> (known.error matches Some(text)
                && message@.is_suffix_of(text))
            &&& reap_result is Ok ==> (kill_error matches Some(message) ==> (known.error
                matches Some(text) && message@.is_suffix_of(text)))
            &&& kill_error matches Some(message) ==> (killed(outcome, kill_error).error
                matches Some(text) && message@.is_suffix_of(text))
            &&& kill_error is None ==> killed(outcome, kill_error) == outcome
            &&& reap_result is Ok ==> known.failure == outcome.failure
        }),
{
}

/// Times are counted in nanoseconds: a second has a thousand millions of them, and the fixed
/// shutdown takes ten seconds.
pub proof fn times_are_nanoseconds()
    ensures
        SECOND == 1_000_000_000,
        LEGACY_SHUTDOWN_TIMEOUT == 10 * SECOND,
{
}

/// Each stage can be observed to end well, to break and to take too long, in its own way: a
/// task of the writer or the reader, the task or the loop of the server, and the child by its
/// exit, by a wait that fails, or once it was told to die. Nothing is observed at the end.
pub proof fn stages_are_observed_in_their_own_way(
    awaited: CleanupAction,
    observation: Observation,
)
    ensures
        ({
            let task = awaited == CleanupAction::AwaitWriter || awaited
                == CleanupAction::AwaitWriterToTheEnd || awaited == CleanupAction::AwaitReader
                || awaited == CleanupAction::AbortReader;
            let server = awaited == CleanupAction::AwaitServer || awaited
                == CleanupAction::AbortServer;
            let child = awaited == CleanupAction::AwaitChild;
            let told = awaited == CleanupAction::KillChild;
            observable(awaited, observation) <==> match observation {
                Observation::Finished => task || server,
                Observation::TaskFailed { .. } => task || server,
                Observation::LoopFailed(_) => server,
                Observation::TimedOut => task || server || child,
                Observation::Exited(_) => child,
                Observation::WaitFailed(_) => child,
                Observation::Forced { .. } => told,
            }
        }),
{
}

/// A recorded failure is shown as it is.
pub proof fn recorded_failure_is_shown(failure: ConnectionFailure)
    ensures
        opt_failure(Some(failure)) == Some(failure@),
        opt_failure(None) is None,
        failure@.phase == failure.phase,
        failure@.kind == failure.kind,
        failure@.message == failure.message@,
{
}

} // verus!
