use std::time::Duration;
use whale_sdk::connection::{
    force_reserve, shutdown_reason, shutdown_windows, Cleanup, CleanupAction, ConnectionFailure,
    ConnectionFailureKind, ConnectionShutdown, ConnectionShutdownPhase, Endpoint, Observation,
    ProcessStatus, StopReason,
};
use whale_sdk::initialization::InitializationFailure;
use whale_sdk::runtime::{
    connect_failure, is_owned_listen_argument, map_shutdown, map_shutdown_phase, missing_pipes,
    os_contains_equals, os_contains_nul, spawn_failure, startup_error, validate_options,
    ConnectFailure, RuntimeError, RuntimeMode, RuntimeOptions, RuntimeShutdown,
    RuntimeShutdownPhase, RuntimeSource, ShutdownDisposition, UnusedChild,
};

fn exited() -> ProcessStatus {
    ProcessStatus { code: Some(0), success: true }
}

#[test]
fn successful_reap_suppresses_a_raced_start_kill_error() {
    let mut outcome = ConnectionShutdown::clean(None);
    outcome.record_forced_reap(Some("process already exited".into()), Ok(exited()));
    assert!(outcome.failure.is_none(), "kill/reap race became fatal: {outcome:?}");
    assert!(outcome.process_status.unwrap().success);
}

#[test]
fn a_failed_reap_reports_the_kill_first() {
    let mut outcome = ConnectionShutdown::clean(None);
    outcome.record_forced_reap(Some("k".into()), Err("w".into()));
    assert_eq!(
        outcome.failure,
        Some(ConnectionFailure {
            phase: ConnectionShutdownPhase::ManagedChild,
            kind: ConnectionFailureKind::Failed,
            message: "managed child kill failed: k".into(),
        })
    );
    assert_eq!(
        outcome.error.as_deref(),
        Some("managed child kill failed: k; managed child reap failed: w")
    );
}

#[test]
fn successful_forced_cleanup_is_not_promoted_from_warning_text_to_an_error() {
    let mut outcome = ConnectionShutdown::clean(None);
    outcome.forced = true;
    outcome.error = Some("graceful embedded join timed out before successful abort".into());
    assert_eq!(
        map_shutdown(RuntimeMode::Embedded, Duration::from_secs(1), outcome),
        Ok(RuntimeShutdown {
            mode: RuntimeMode::Embedded,
            disposition: ShutdownDisposition::Forced,
        })
    );
}

#[test]
fn typed_timeout_controls_the_public_variant_without_parsing_its_message() {
    let mut outcome = ConnectionShutdown::clean(None);
    outcome.forced = true;
    outcome.error = Some("opaque diagnostic".into());
    outcome.failure = Some(ConnectionFailure {
        phase: ConnectionShutdownPhase::Reader,
        kind: ConnectionFailureKind::TimedOut,
        message: "opaque diagnostic".into(),
    });
    assert_eq!(
        map_shutdown(RuntimeMode::Embedded, Duration::from_millis(250), outcome),
        Err(RuntimeError::ShutdownTimeout {
            mode: RuntimeMode::Embedded,
            phase: RuntimeShutdownPhase::Reader,
            timeout: Duration::from_millis(250),
        })
    );
}

#[test]
fn phases_keep_their_names() {
    assert_eq!(
        map_shutdown_phase(ConnectionShutdownPhase::EmbeddedServer),
        RuntimeShutdownPhase::EmbeddedServer
    );
    assert_eq!(
        map_shutdown_phase(ConnectionShutdownPhase::OwnerTask),
        RuntimeShutdownPhase::OwnerTask
    );
}

#[test]
fn an_abandoned_shutdown_is_a_failure_of_its_owner() {
    let outcome = ConnectionShutdown::abandoned();
    assert!(outcome.forced);
    assert_eq!(
        map_shutdown(RuntimeMode::ExternalUds, Duration::from_secs(1), outcome),
        Err(RuntimeError::ShutdownFailure {
            mode: RuntimeMode::ExternalUds,
            phase: RuntimeShutdownPhase::OwnerTask,
            message: "connection owner stopped without publishing cleanup".into(),
        })
    );
}

#[test]
fn half_of_a_short_shutdown_is_kept_for_force() {
    assert_eq!(force_reserve(500_000_000), 250_000_000);
    assert_eq!(force_reserve(10_000_000_000), 1_000_000_000);
    assert_eq!(force_reserve(0), 0);
    let windows = shutdown_windows(500_000_000, true);
    assert_eq!((windows.graceful, windows.total), (250_000_000, 500_000_000));
    let fallback = shutdown_windows(u128::MAX, false);
    assert_eq!((fallback.graceful, fallback.total), (9_000_000_000, 10_000_000_000));
}

#[test]
fn a_clean_managed_connection_goes_down_gracefully() {
    let mut cleanup = Cleanup::begin(Endpoint::Managed, true);
    assert_eq!(cleanup.awaited, CleanupAction::AwaitWriter);
    assert_eq!(cleanup.observe(Observation::Finished), CleanupAction::AwaitReader);
    assert_eq!(cleanup.observe(Observation::Finished), CleanupAction::AwaitChild);
    assert_eq!(cleanup.observe(Observation::Exited(exited())), CleanupAction::Done);
    assert!(!cleanup.outcome.forced && cleanup.outcome.error.is_none());
    assert_eq!(cleanup.outcome.process_status, Some(exited()));
}

#[test]
fn writer_close_after_grace_before_total_deadline_is_forced_success() {
    let mut cleanup = Cleanup::begin(Endpoint::External, true);
    assert_eq!(cleanup.observe(Observation::TimedOut), CleanupAction::AwaitWriterToTheEnd);
    assert_eq!(cleanup.observe(Observation::Finished), CleanupAction::AwaitReader);
    assert_eq!(cleanup.observe(Observation::Finished), CleanupAction::Done);
    assert!(cleanup.outcome.forced && cleanup.outcome.failure.is_none());
}

#[test]
fn writer_close_after_total_deadline_reports_timeout_but_still_finishes() {
    let mut cleanup = Cleanup::begin(Endpoint::External, true);
    cleanup.observe(Observation::TimedOut);
    assert_eq!(cleanup.observe(Observation::TimedOut), CleanupAction::AwaitReader);
    assert_eq!(cleanup.observe(Observation::Finished), CleanupAction::Done);
    let failure = cleanup.outcome.failure.unwrap();
    assert_eq!(failure.phase, ConnectionShutdownPhase::Writer);
    assert_eq!(failure.kind, ConnectionFailureKind::TimedOut);
}

#[test]
fn reader_join_error_is_not_reported_as_clean_shutdown() {
    let mut cleanup = Cleanup::begin(Endpoint::External, true);
    cleanup.observe(Observation::Finished);
    let broken = Observation::TaskFailed { cancelled: false, message: "reader panicked".into() };
    assert_eq!(cleanup.observe(broken), CleanupAction::Done);
    assert!(!cleanup.outcome.forced);
    assert_eq!(
        cleanup.outcome.error.as_deref(),
        Some("SDK reader task failed: reader panicked")
    );
    let failure = cleanup.outcome.failure.unwrap();
    assert_eq!(failure.phase, ConnectionShutdownPhase::Reader);
    assert_eq!(failure.kind, ConnectionFailureKind::Failed);
}

#[test]
fn embedded_join_error_is_not_reported_as_clean_shutdown() {
    let mut cleanup = Cleanup::begin(Endpoint::Embedded, true);
    cleanup.observe(Observation::Finished);
    cleanup.observe(Observation::Finished);
    let broken = Observation::TaskFailed { cancelled: false, message: "fixture".into() };
    assert_eq!(cleanup.observe(broken), CleanupAction::Done);
    assert_eq!(
        cleanup.outcome.error.as_deref(),
        Some("embedded server task failed: fixture")
    );
}

#[test]
fn embedded_io_error_is_not_reported_as_clean_shutdown() {
    let mut cleanup = Cleanup::begin(Endpoint::Embedded, true);
    cleanup.observe(Observation::Finished);
    assert_eq!(cleanup.observe(Observation::Finished), CleanupAction::AwaitServer);
    assert_eq!(cleanup.observe(Observation::LoopFailed("io".into())), CleanupAction::Done);
    let failure = cleanup.outcome.failure.unwrap();
    assert_eq!(failure.phase, ConnectionShutdownPhase::EmbeddedServer);
    assert_eq!(failure.kind, ConnectionFailureKind::Failed);
}

#[test]
fn child_reap_continues_after_the_public_shutdown_deadline() {
    let mut cleanup = Cleanup::begin(Endpoint::Managed, true);
    cleanup.observe(Observation::Finished);
    cleanup.observe(Observation::Finished);
    assert_eq!(cleanup.observe(Observation::TimedOut), CleanupAction::KillChild);
    let late = Observation::Forced { kill_error: None, reap: None };
    assert_eq!(cleanup.observe(late), CleanupAction::Done);
    assert!(cleanup.outcome.background_reap);
    assert_eq!(cleanup.outcome.observed_process_status(&None), None);
    assert_eq!(cleanup.outcome.observed_process_status(&Some(Err("gone".into()))), None);
    assert_eq!(cleanup.outcome.observed_process_status(&Some(Ok(exited()))), Some(exited()));
    assert_eq!(cleanup.outcome.failure.unwrap().kind, ConnectionFailureKind::TimedOut);
}

#[test]
fn shutdowns_have_a_reason() {
    assert_eq!(shutdown_reason(Some(StopReason::Requested("Client closed".into()))), "Client closed");
    assert_eq!(shutdown_reason(Some(StopReason::ReaderFinished)), "Daemon disconnected");
    assert_eq!(shutdown_reason(None), "Connection owner dropped");
}

#[test]
fn invalid_deadlines_are_refused() {
    let field = |options: &RuntimeOptions, startup: bool, shutdown: bool| {
        match validate_options(options, startup, shutdown) {
            Err(RuntimeError::InvalidConfiguration { field, .. }) => field,
            other => panic!("{other:?}"),
        }
    };
    let mut options = RuntimeOptions::embedded();
    assert!(validate_options(&options, true, true).is_ok());
    assert_eq!(field(&options, false, true), "startup_timeout");
    assert_eq!(field(&options, true, false), "shutdown_timeout");
    options.startup_timeout = 0;
    assert_eq!(field(&options, true, true), "startup_timeout");
    options.startup_timeout = 1;
    options.shutdown_timeout = 0;
    assert_eq!(field(&options, true, true), "shutdown_timeout");
}

#[test]
fn invalid_managed_values_are_refused() {
    let field = |options: RuntimeOptions| match validate_options(&options, true, true) {
        Err(RuntimeError::InvalidConfiguration { field, .. }) => field,
        other => panic!("{other:?}"),
    };
    assert!(validate_options(&RuntimeOptions::managed(b"/bin/d".to_vec()), true, true).is_ok());
    assert_eq!(field(RuntimeOptions::managed(vec![47, 0])), "executable");
    assert_eq!(
        field(RuntimeOptions::managed(b"d".to_vec()).with_arg(b"--listen=tcp".to_vec())),
        "args"
    );
    assert_eq!(
        field(RuntimeOptions::managed(b"d".to_vec()).with_environment(b"A=B".to_vec(), b"1".to_vec())),
        "environment"
    );
    assert_eq!(field(RuntimeOptions::external_uds(b"/d".to_vec(), 1, 1)), "shutdown_timeout");
    assert!(is_owned_listen_argument(&b"--listen".to_vec()));
    assert!(!is_owned_listen_argument(&b"--listening".to_vec()));
    assert!(os_contains_nul(&vec![97, 0]) && !os_contains_nul(&vec![97]));
    assert!(os_contains_equals(&b"a=".to_vec()) && !os_contains_equals(&b"a".to_vec()));
}

#[test]
fn only_names_of_the_environment_are_shown() {
    let options = RuntimeOptions::managed(b"d".to_vec())
        .with_environment(b"TOKEN".to_vec(), b"hidden".to_vec())
        .with_environment(b"MODE".to_vec(), b"x".to_vec());
    assert_eq!(options.source.environment_names(), vec![b"TOKEN".to_vec(), b"MODE".to_vec()]);
    assert_eq!(options.source.mode(), RuntimeMode::ManagedProcess);
    assert!(RuntimeSource::Embedded.environment_names().is_empty());
}

#[test]
fn startup_failures_keep_their_kind() {
    let timeout = Duration::from_secs(3);
    assert_eq!(
        startup_error(
            RuntimeMode::Embedded,
            InitializationFailure::TimedOut { timeout, seconds: "3".into() }
        ),
        RuntimeError::StartupTimeout { mode: RuntimeMode::Embedded, timeout }
    );
    assert_eq!(
        startup_error(RuntimeMode::ExternalUds, InitializationFailure::Failed("m".into())),
        RuntimeError::InitializationFailure { mode: RuntimeMode::ExternalUds, message: "m".into() }
    );
    assert_eq!(
        connect_failure("/tmp/d.sock", ConnectFailure::TimedOut, timeout),
        RuntimeError::StartupTimeout { mode: RuntimeMode::ExternalUds, timeout }
    );
    assert_eq!(
        connect_failure("/tmp/d.sock", ConnectFailure::Failed("refused".into()), timeout),
        RuntimeError::SourceFailure {
            mode: RuntimeMode::ExternalUds,
            message: "external UDS connect to /tmp/d.sock failed: refused".into(),
        }
    );
    assert_eq!(
        spawn_failure("no such file").message(""),
        "failed to open ManagedProcess runtime source: managed process spawn failed: no such file"
    );
}

#[test]
fn a_child_without_pipes_is_killed_and_reported() {
    let text = |child: UnusedChild| match missing_pipes(&child) {
        RuntimeError::SourceFailure { message, .. } => message,
        other => panic!("{other:?}"),
    };
    assert_eq!(text(UnusedChild::Reaped), "managed process did not expose piped stdin/stdout");
    assert_eq!(
        text(UnusedChild::ReapFailed { kill_error: Some("k".into()), wait_error: "w".into() }),
        "managed process did not expose piped stdin/stdout; kill failed: k; reap failed: w"
    );
    assert_eq!(
        text(UnusedChild::CleanupFailed("t".into())),
        "managed process did not expose piped stdin/stdout; cleanup task failed: t"
    );
}

#[test]
fn runtime_errors_show_what_went_wrong() {
    let mode = RuntimeMode::ManagedProcess;
    let phase = RuntimeShutdownPhase::Writer;
    let timeout = Duration::from_millis(250);
    assert_eq!(
        RuntimeError::InvalidConfiguration { field: "f", message: "m".into() }.message(""),
        "invalid runtime configuration for f: m"
    );
    assert_eq!(
        RuntimeError::InitializationFailure { mode, message: "m".into() }.message(""),
        "ManagedProcess runtime initialization failed: m"
    );
    assert_eq!(
        RuntimeError::StartupTimeout { mode, timeout }.message("250ms"),
        "ManagedProcess runtime startup timed out after 250ms"
    );
    assert_eq!(
        RuntimeError::ShutdownFailure { mode, phase, message: "m".into() }.message(""),
        "ManagedProcess runtime shutdown failed in Writer: m"
    );
    assert_eq!(
        RuntimeError::ShutdownTimeout { mode, phase, timeout }.message("250ms"),
        "ManagedProcess runtime shutdown timed out in Writer after 250ms"
    );
}

fn refused_field(options: &RuntimeOptions) -> &'static str {
    match validate_options(options, true, true) {
        Err(RuntimeError::InvalidConfiguration { field, .. }) => field,
        other => panic!("{other:?}"),
    }
}

#[test]
fn invalid_deadlines_never_invoke_the_source_factory() {
    let second: u128 = 1_000_000_000;
    for (startup_timeout, shutdown_timeout, field) in [
        (0, second, "startup_timeout"),
        (second, 0, "shutdown_timeout"),
        (second, 1, "shutdown_timeout"),
    ] {
        let options =
            RuntimeOptions { startup_timeout, shutdown_timeout, ..RuntimeOptions::embedded() };
        assert_eq!(refused_field(&options), field);
    }
}

#[test]
fn invalid_managed_values_never_invoke_the_async_source_factory() {
    let valid = || RuntimeOptions::managed(b"/fixture/peer".to_vec());
    let named = |name: &[u8], value: &[u8]| valid().with_environment(name.to_vec(), value.to_vec());
    let cases = vec![
        (named(b"", b"value"), "environment"),
        (named(b"BAD=NAME", b"value"), "environment"),
        (named(b"BAD\0NAME", b"value"), "environment"),
        (named(b"NAME", b"BAD\0VALUE"), "environment"),
        (valid().with_arg(b"--listen".to_vec()), "args"),
        (valid().with_arg(b"--listen=\x80".to_vec()), "args"),
        (valid().with_arg(b"BAD\0ARG".to_vec()), "args"),
        (RuntimeOptions::managed(b"/bad\0executable".to_vec()), "executable"),
    ];
    for (options, field) in cases {
        assert_eq!(refused_field(&options), field);
    }
}

#[test]
fn external_connect_timeout_maps_to_the_typed_startup_timeout() {
    let timeout = Duration::from_millis(40);
    assert_eq!(
        connect_failure("/fixture/runtime.sock", ConnectFailure::TimedOut, timeout),
        RuntimeError::StartupTimeout { mode: RuntimeMode::ExternalUds, timeout }
    );
}

#[test]
fn reader_abort_join_cannot_exceed_the_shutdown_bound() {
    let mut cleanup = Cleanup::begin(Endpoint::External, true);
    assert_eq!(cleanup.observe(Observation::Finished), CleanupAction::AwaitReader);
    assert_eq!(cleanup.observe(Observation::TimedOut), CleanupAction::AbortReader);
    assert_eq!(cleanup.observe(Observation::TimedOut), CleanupAction::Done);
    assert!(cleanup.outcome.forced);
    assert!(cleanup.outcome.error.unwrap().contains("SDK reader"));
}

#[test]
fn embedded_abort_join_cannot_exceed_the_shutdown_bound() {
    let mut cleanup = Cleanup::begin(Endpoint::Embedded, true);
    cleanup.observe(Observation::Finished);
    assert_eq!(cleanup.observe(Observation::Finished), CleanupAction::AwaitServer);
    assert_eq!(cleanup.observe(Observation::TimedOut), CleanupAction::AbortServer);
    assert_eq!(cleanup.observe(Observation::TimedOut), CleanupAction::Done);
    assert!(cleanup.outcome.forced);
    assert!(cleanup.outcome.error.unwrap().contains("embedded server"));
}

#[test]
fn short_shutdown_timeout_still_has_a_graceful_child_window() {
    let windows = shutdown_windows(120_000_000, true);
    assert!(windows.graceful >= 30_000_000);
    let mut cleanup = Cleanup::begin(Endpoint::Managed, true);
    cleanup.observe(Observation::Finished);
    assert_eq!(cleanup.observe(Observation::Finished), CleanupAction::AwaitChild);
    assert_eq!(cleanup.observe(Observation::TimedOut), CleanupAction::KillChild);
    let killed = ProcessStatus { code: None, success: false };
    cleanup.observe(Observation::Forced { kill_error: None, reap: Some(Ok(killed)) });
    assert!(cleanup.outcome.forced);
}

#[test]
fn oversized_timeout_does_not_panic_during_emergency_cleanup() {
    let mut cleanup = Cleanup::begin(Endpoint::External, false);
    cleanup.observe(Observation::Finished);
    assert_eq!(cleanup.observe(Observation::Finished), CleanupAction::Done);
    assert!(cleanup.outcome.error.unwrap().contains("Instant range"));
}
