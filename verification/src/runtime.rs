//! Opening and closing a runtime: its options, and what its shutdown reports.

use std::time::Duration;

use vstd::prelude::*;

use crate::connection::{
    ConnectionFailureKind, ConnectionShutdown, ConnectionShutdownPhase, FailureView,
};
use crate::initialization::InitializationFailure;
use crate::protocol::InitializeResult;
use crate::text::{join2, join3, join4, join5};

verus! {

/// Where the daemon of a runtime runs.
#[derive(Clone, Copy, Debug, PartialEq, Eq, Structural)]
pub enum RuntimeMode {
    Embedded,
    ManagedProcess,
    ExternalUds,
}

/// Where a runtime gets its daemon from. Paths, arguments and environment are the
/// bytes that the operating system sees. Values of the environment may be secret: only
/// its names are meant to be shown.
pub enum RuntimeSource {
    Embedded,
    ManagedProcess {
        executable: Vec<u8>,
        args: Vec<Vec<u8>>,
        environment: Vec<(Vec<u8>, Vec<u8>)>,
    },
    ExternalUds { path: Vec<u8> },
}

impl RuntimeSource {
    /// The mode of a runtime with this source.
    pub open spec fn kind(self) -> RuntimeMode {
        match self {
            RuntimeSource::Embedded => RuntimeMode::Embedded,
            RuntimeSource::ManagedProcess { .. } => RuntimeMode::ManagedProcess,
            RuntimeSource::ExternalUds { .. } => RuntimeMode::ExternalUds,
        }
    }

    /// The mode of a runtime with this source.
    pub fn mode(&self) -> (mode: RuntimeMode)
        ensures
            mode == self.kind(),
    {
        match self {
            RuntimeSource::Embedded => RuntimeMode::Embedded,
            RuntimeSource::ManagedProcess { .. } => RuntimeMode::ManagedProcess,
            RuntimeSource::ExternalUds { .. } => RuntimeMode::ExternalUds,
        }
    }
}

/// The names of an environment.
pub open spec fn variable_names(environment: Seq<(Vec<u8>, Vec<u8>)>) -> Seq<Seq<u8>> {
    environment.map_values(|variable: (Vec<u8>, Vec<u8>)| variable.0@)
}

impl RuntimeSource {
    /// The names of the environment, without the values: what may be shown of it.
    pub fn environment_names(&self) -> (names: Vec<Vec<u8>>)
        ensures
            names@.map_values(|name: Vec<u8>| name@) == variable_names(variables(*self)),
    {
        let mut names: Vec<Vec<u8>> = Vec::new();
        match self {
            RuntimeSource::ManagedProcess { environment, .. } => {
                let mut i: usize = 0;
                assert(names@.map_values(|name: Vec<u8>| name@) =~= variable_names(
                    environment@.take(0),
                ));
                while i < environment.len()
                    invariant
                        i <= environment.len(),
                        names@.map_values(|name: Vec<u8>| name@) == variable_names(
                            environment@.take(i as int),
                        ),
                    decreases environment.len() - i,
                {
                    let ghost before = names@;
                    let name = copy_bytes(&environment[i].0);
                    names.push(name);
                    proof {
                        assert(names@.map_values(|name: Vec<u8>| name@) =~= before.map_values(
                            |name: Vec<u8>| name@,
                        ).push(environment@[i as int].0@));
                        assert(variable_names(environment@.take(i + 1)) =~= variable_names(
                            environment@.take(i as int),
                        ).push(environment@[i as int].0@));
                    }
                    i = i + 1;
                }
                assert(environment@.take(i as int) =~= environment@);
            },
            _ => {
                assert(names@.map_values(|name: Vec<u8>| name@) =~= Seq::empty());
                assert(variable_names(variables(*self)) =~= Seq::empty());
            },
        }
        names
    }
}

fn copy_bytes(bytes: &Vec<u8>) -> (copy: Vec<u8>)
    ensures
        copy@ == bytes@,
{
    let mut copy: Vec<u8> = Vec::new();
    let mut i: usize = 0;
    assert(bytes@.take(0) =~= Seq::empty());
    while i < bytes.len()
        invariant
            i <= bytes.len(),
            copy@ == bytes@.take(i as int),
        decreases bytes.len() - i,
    {
        copy.push(bytes[i]);
        assert(bytes@.take(i + 1) =~= bytes@.take(i as int).push(bytes@[i as int]));
        i = i + 1;
    }
    assert(bytes@.take(i as int) =~= bytes@);
    copy
}

/// The time, in nanoseconds, that opening a runtime may take by default.
pub const DEFAULT_STARTUP_TIMEOUT: u128 = 10_000_000_000;

/// The time, in nanoseconds, that closing a runtime may take by default.
pub const DEFAULT_SHUTDOWN_TIMEOUT: u128 = 10_000_000_000;

/// How a runtime is opened and closed. Times are in nanoseconds.
pub struct RuntimeOptions {
    pub source: RuntimeSource,
    pub startup_timeout: u128,
    pub shutdown_timeout: u128,
}

/// The arguments that a source hands to its process.
pub open spec fn arguments(source: RuntimeSource) -> Seq<Vec<u8>> {
    match source {
        RuntimeSource::ManagedProcess { args, .. } => args@,
        _ => Seq::empty(),
    }
}

/// The environment that a source hands to its process.
pub open spec fn variables(source: RuntimeSource) -> Seq<(Vec<u8>, Vec<u8>)> {
    match source {
        RuntimeSource::ManagedProcess { environment, .. } => environment@,
        _ => Seq::empty(),
    }
}

/// The program that a source starts.
pub open spec fn program(source: RuntimeSource) -> Option<Seq<u8>> {
    match source {
        RuntimeSource::ManagedProcess { executable, .. } => Some(executable@),
        _ => None,
    }
}

impl RuntimeOptions {
    /// Options for a daemon inside this process.
    pub fn embedded() -> (options: Self)
        ensures
            options == (RuntimeOptions {
                source: RuntimeSource::Embedded,
                startup_timeout: DEFAULT_STARTUP_TIMEOUT,
                shutdown_timeout: DEFAULT_SHUTDOWN_TIMEOUT,
            }),
    {
        RuntimeOptions {
            source: RuntimeSource::Embedded,
            startup_timeout: DEFAULT_STARTUP_TIMEOUT,
            shutdown_timeout: DEFAULT_SHUTDOWN_TIMEOUT,
        }
    }

    /// Options for a daemon in a process of its own.
    pub fn managed(executable: Vec<u8>) -> (options: Self)
        ensures
            options.source is ManagedProcess,
            program(options.source) == Some(executable@),
            arguments(options.source) == Seq::<Vec<u8>>::empty(),
            variables(options.source) == Seq::<(Vec<u8>, Vec<u8>)>::empty(),
            options.startup_timeout == DEFAULT_STARTUP_TIMEOUT,
            options.shutdown_timeout == DEFAULT_SHUTDOWN_TIMEOUT,
    {
        RuntimeOptions {
            source: RuntimeSource::ManagedProcess {
                executable,
                args: Vec::new(),
                environment: Vec::new(),
            },
            startup_timeout: DEFAULT_STARTUP_TIMEOUT,
            shutdown_timeout: DEFAULT_SHUTDOWN_TIMEOUT,
        }
    }

    /// Options for a daemon that runs already.
    pub fn external_uds(path: Vec<u8>, startup_timeout: u128, shutdown_timeout: u128) -> (options:
        Self)
        ensures
            options == (RuntimeOptions {
                source: RuntimeSource::ExternalUds { path },
                startup_timeout,
                shutdown_timeout,
            }),
    {
        RuntimeOptions {
            source: RuntimeSource::ExternalUds { path },
            startup_timeout,
            shutdown_timeout,
        }
    }

    /// The same options with one more argument for a process of its own; other
    /// sources have no arguments and stay as they are.
    pub fn with_arg(self, argument: Vec<u8>) -> (options: Self)
        ensures
            options.source.kind() == self.source.kind(),
            self.source is ManagedProcess ==> {
                &&& arguments(options.source) == arguments(self.source).push(argument)
                &&& variables(options.source) == variables(self.source)
                &&& program(options.source) == program(self.source)
            },
            !(self.source is ManagedProcess) ==> options == self,
            options.startup_timeout == self.startup_timeout,
            options.shutdown_timeout == self.shutdown_timeout,
    {
        let RuntimeOptions { source, startup_timeout, shutdown_timeout } = self;
        let source = match source {
            RuntimeSource::ManagedProcess { executable, args, environment } => {
                let mut args = args;
                args.push(argument);
                RuntimeSource::ManagedProcess { executable, args, environment }
            },
            source => source,
        };
        RuntimeOptions { source, startup_timeout, shutdown_timeout }
    }

    /// The same options with one more variable for a process of its own; other
    /// sources have no environment and stay as they are.
    pub fn with_environment(self, name: Vec<u8>, value: Vec<u8>) -> (options: Self)
        ensures
            options.source.kind() == self.source.kind(),
            self.source is ManagedProcess ==> {
                &&& variables(options.source) == variables(self.source).push((name, value))
                &&& arguments(options.source) == arguments(self.source)
                &&& program(options.source) == program(self.source)
            },
            !(self.source is ManagedProcess) ==> options == self,
            options.startup_timeout == self.startup_timeout,
            options.shutdown_timeout == self.shutdown_timeout,
    {
        let RuntimeOptions { source, startup_timeout, shutdown_timeout } = self;
        let source = match source {
            RuntimeSource::ManagedProcess { executable, args, environment } => {
                let mut environment = environment;
                environment.push((name, value));
                RuntimeSource::ManagedProcess { executable, args, environment }
            },
            source => source,
        };
        RuntimeOptions { source, startup_timeout, shutdown_timeout }
    }
}

impl Default for RuntimeOptions {
    fn default() -> (options: Self)
        ensures
            options == (RuntimeOptions {
                source: RuntimeSource::Embedded,
                startup_timeout: DEFAULT_STARTUP_TIMEOUT,
                shutdown_timeout: DEFAULT_SHUTDOWN_TIMEOUT,
            }),
    {
        RuntimeOptions::embedded()
    }
}

/// What is known of an open runtime.
#[derive(Clone, Debug, PartialEq, Eq)]
pub struct RuntimeInfo {
    pub mode: RuntimeMode,
    pub peer: InitializeResult,
    pub process_id: Option<u32>,
}

/// How a runtime went down.
#[derive(Clone, Copy, Debug, PartialEq, Eq, Structural)]
pub enum ShutdownDisposition {
    Graceful,
    Forced,
}

/// A runtime that went down.
#[derive(Clone, Copy, Debug, PartialEq, Eq, Structural)]
pub struct RuntimeShutdown {
    pub mode: RuntimeMode,
    pub disposition: ShutdownDisposition,
}

/// Where closing a runtime went wrong.
#[derive(Clone, Copy, Debug, PartialEq, Eq, Structural)]
pub enum RuntimeShutdownPhase {
    Deadline,
    OwnerTask,
    Writer,
    Reader,
    EmbeddedServer,
    ManagedChild,
}

/// What can go wrong with a runtime.
#[derive(Debug, PartialEq, Eq)]
pub enum RuntimeError {
    InvalidConfiguration { field: &'static str, message: String },
    SourceFailure { mode: RuntimeMode, message: String },
    InitializationFailure { mode: RuntimeMode, message: String },
    StartupTimeout { mode: RuntimeMode, timeout: Duration },
    ShutdownFailure { mode: RuntimeMode, phase: RuntimeShutdownPhase, message: String },
    ShutdownTimeout { mode: RuntimeMode, phase: RuntimeShutdownPhase, timeout: Duration },
}

/// A [`RuntimeError`] by its texts.
pub enum RuntimeErrorView {
    InvalidConfiguration { field: Seq<char>, message: Seq<char> },
    SourceFailure { mode: RuntimeMode, message: Seq<char> },
    InitializationFailure { mode: RuntimeMode, message: Seq<char> },
    StartupTimeout { mode: RuntimeMode, timeout: Duration },
    ShutdownFailure { mode: RuntimeMode, phase: RuntimeShutdownPhase, message: Seq<char> },
    ShutdownTimeout { mode: RuntimeMode, phase: RuntimeShutdownPhase, timeout: Duration },
}

impl View for RuntimeError {
    type V = RuntimeErrorView;

    open spec fn view(&self) -> RuntimeErrorView {
        match *self {
            RuntimeError::InvalidConfiguration { field, message } =>
                RuntimeErrorView::InvalidConfiguration { field: field@, message: message@ },
            RuntimeError::SourceFailure { mode, message } => RuntimeErrorView::SourceFailure {
                mode,
                message: message@,
            },
            RuntimeError::InitializationFailure { mode, message } =>
                RuntimeErrorView::InitializationFailure { mode, message: message@ },
            RuntimeError::StartupTimeout { mode, timeout } => RuntimeErrorView::StartupTimeout {
                mode,
                timeout,
            },
            RuntimeError::ShutdownFailure { mode, phase, message } =>
                RuntimeErrorView::ShutdownFailure { mode, phase, message: message@ },
            RuntimeError::ShutdownTimeout { mode, phase, timeout } =>
                RuntimeErrorView::ShutdownTimeout { mode, phase, timeout },
        }
    }
}

/// The phase of a runtime's shutdown that a phase of its connection's shutdown is.
pub open spec fn runtime_phase(phase: ConnectionShutdownPhase) -> RuntimeShutdownPhase {
    match phase {
        ConnectionShutdownPhase::Deadline => RuntimeShutdownPhase::Deadline,
        ConnectionShutdownPhase::OwnerTask => RuntimeShutdownPhase::OwnerTask,
        ConnectionShutdownPhase::Writer => RuntimeShutdownPhase::Writer,
        ConnectionShutdownPhase::Reader => RuntimeShutdownPhase::Reader,
        ConnectionShutdownPhase::EmbeddedServer => RuntimeShutdownPhase::EmbeddedServer,
        ConnectionShutdownPhase::ManagedChild => RuntimeShutdownPhase::ManagedChild,
    }
}

/// Names the phase of a connection's shutdown for the runtime.
pub fn map_shutdown_phase(phase: ConnectionShutdownPhase) -> (mapped: RuntimeShutdownPhase)
    ensures
        mapped == runtime_phase(phase),
{
    match phase {
        ConnectionShutdownPhase::Deadline => RuntimeShutdownPhase::Deadline,
        ConnectionShutdownPhase::OwnerTask => RuntimeShutdownPhase::OwnerTask,
        ConnectionShutdownPhase::Writer => RuntimeShutdownPhase::Writer,
        ConnectionShutdownPhase::Reader => RuntimeShutdownPhase::Reader,
        ConnectionShutdownPhase::EmbeddedServer => RuntimeShutdownPhase::EmbeddedServer,
        ConnectionShutdownPhase::ManagedChild => RuntimeShutdownPhase::ManagedChild,
    }
}

/// The error that a failure of a connection's shutdown is for the runtime.
pub open spec fn shutdown_error(mode: RuntimeMode, timeout: Duration, failure: FailureView) ->
    RuntimeErrorView {
    match failure.kind {
        ConnectionFailureKind::Failed => RuntimeErrorView::ShutdownFailure {
            mode,
            phase: runtime_phase(failure.phase),
            message: failure.message,
        },
        ConnectionFailureKind::TimedOut => RuntimeErrorView::ShutdownTimeout {
            mode,
            phase: runtime_phase(failure.phase),
            timeout,
        },
    }
}

/// Turns the shutdown of a connection into what the runtime reports. Only a recorded
/// failure makes it an error; diagnostics do not.
pub fn map_shutdown(mode: RuntimeMode, timeout: Duration, outcome: ConnectionShutdown) -> (result:
    Result<RuntimeShutdown, RuntimeError>)
    ensures
        match result {
            Ok(shutdown) => {
                &&& outcome@.failure is None
                &&& shutdown.mode == mode
                &&& shutdown.disposition == if outcome@.forced {
                    ShutdownDisposition::Forced
                } else {
                    ShutdownDisposition::Graceful
                }
            },
            Err(error) => {
                &&& outcome@.failure is Some
                &&& error@ == shutdown_error(mode, timeout, outcome@.failure->0)
            },
        },
{
    if let Some(failure) = outcome.failure {
        let phase = map_shutdown_phase(failure.phase);
        return match failure.kind {
            ConnectionFailureKind::Failed => Err(
                RuntimeError::ShutdownFailure { mode, phase, message: failure.message },
            ),
            ConnectionFailureKind::TimedOut => Err(
                RuntimeError::ShutdownTimeout { mode, phase, timeout },
            ),
        };
    }
    Ok(
        RuntimeShutdown {
            mode,
            disposition: if outcome.forced {
                ShutdownDisposition::Forced
            } else {
                ShutdownDisposition::Graceful
            },
        },
    )
}

/// The error of a runtime whose daemon could not be initialized.
pub fn startup_error(mode: RuntimeMode, failure: InitializationFailure) -> (error: RuntimeError)
    ensures
        error@ == match failure {
            InitializationFailure::TimedOut { timeout, .. } => RuntimeErrorView::StartupTimeout {
                mode,
                timeout,
            },
            InitializationFailure::Failed(message) => RuntimeErrorView::InitializationFailure {
                mode,
                message: message@,
            },
        },
{
    match failure {
        InitializationFailure::TimedOut { timeout, .. } => RuntimeError::StartupTimeout {
            mode,
            timeout,
        },
        InitializationFailure::Failed(message) => RuntimeError::InitializationFailure {
            mode,
            message,
        },
    }
}

/// The byte `wanted` occurs in `bytes`.
pub open spec fn holds(bytes: Seq<u8>, wanted: u8) -> bool {
    exists|i: int| 0 <= i < bytes.len() && bytes[i] == wanted
}

fn contains_byte(bytes: &Vec<u8>, wanted: u8) -> (found: bool)
    ensures
        found == holds(bytes@, wanted),
{
    let mut i: usize = 0;
    while i < bytes.len()
        invariant
            i <= bytes.len(),
            forall|j: int| 0 <= j < i ==> bytes@[j] != wanted,
        decreases bytes.len() - i,
    {
        if bytes[i] == wanted {
            return true;
        }
        i = i + 1;
    }
    false
}

/// Whether the operating system would cut the value off.
pub fn os_contains_nul(value: &Vec<u8>) -> (found: bool)
    ensures
        found == holds(value@, 0),
{
    contains_byte(value, 0)
}

/// Whether the value holds the sign between a variable's name and its value.
pub fn os_contains_equals(value: &Vec<u8>) -> (found: bool)
    ensures
        found == holds(value@, 61),
{
    contains_byte(value, 61)
}

/// The bytes of `--listen`.
pub open spec fn listen_bytes() -> Seq<u8> {
    seq![45u8, 45, 108, 105, 115, 116, 101, 110]
}

/// The argument is `--listen`, or `--listen=` with a value.
pub open spec fn is_listen(argument: Seq<u8>) -> bool {
    &&& argument.len() >= 8
    &&& argument.take(8) == listen_bytes()
    &&& argument.len() == 8 || argument[8] == 61
}

/// Whether an argument is the one with which the client itself tells the daemon
/// where to listen.
pub fn is_owned_listen_argument(value: &Vec<u8>) -> (owned: bool)
    ensures
        owned == is_listen(value@),
{
    if value.len() < 8 {
        return false;
    }
    let owned = value[0] == 45 && value[1] == 45 && value[2] == 108 && value[3] == 105 && value[4]
        == 115 && value[5] == 116 && value[6] == 101 && value[7] == 110 && (value.len() == 8
        || value[8] == 61);
    proof {
        if value@.take(8) == listen_bytes() {
            assert(value@.take(8)[0] == 45u8);
            assert(value@.take(8)[1] == 45u8);
            assert(value@.take(8)[2] == 108u8);
            assert(value@.take(8)[3] == 105u8);
            assert(value@.take(8)[4] == 115u8);
            assert(value@.take(8)[5] == 116u8);
            assert(value@.take(8)[6] == 101u8);
            assert(value@.take(8)[7] == 110u8);
        }
        if owned {
            assert(value@.take(8) =~= listen_bytes());
        }
    }
    owned
}

/// An argument that a managed process may not get.
pub open spec fn bad_argument(argument: Seq<u8>) -> bool {
    holds(argument, 0) || is_listen(argument)
}

/// A variable that a managed process may not get.
pub open spec fn bad_variable(name: Seq<u8>, value: Seq<u8>) -> bool {
    name.len() == 0 || holds(name, 0) || holds(name, 61) || holds(value, 0)
}

/// One of the arguments may not be handed on.
pub open spec fn some_bad_argument(args: Seq<Vec<u8>>) -> bool {
    exists|i: int| 0 <= i < args.len() && bad_argument((#[trigger] args[i])@)
}

/// One of the variables may not be handed on.
pub open spec fn some_bad_variable(environment: Seq<(Vec<u8>, Vec<u8>)>) -> bool {
    exists|i: int|
        0 <= i < environment.len() && bad_variable(
            (#[trigger] environment[i]).0@,
            environment[i].1@,
        )
}

fn any_bad_argument(args: &Vec<Vec<u8>>) -> (found: bool)
    ensures
        found == some_bad_argument(args@),
{
    let mut i: usize = 0;
    while i < args.len()
        invariant
            i <= args.len(),
            forall|j: int| 0 <= j < i ==> !bad_argument((#[trigger] args@[j])@),
        decreases args.len() - i,
    {
        if os_contains_nul(&args[i]) || is_owned_listen_argument(&args[i]) {
            assert(bad_argument(args@[i as int]@));
            return true;
        }
        i = i + 1;
    }
    false
}

fn any_bad_variable(environment: &Vec<(Vec<u8>, Vec<u8>)>) -> (found: bool)
    ensures
        found == some_bad_variable(environment@),
{
    let mut i: usize = 0;
    while i < environment.len()
        invariant
            i <= environment.len(),
            forall|j: int|
                0 <= j < i ==> !bad_variable(
                    (#[trigger] environment@[j]).0@,
                    environment@[j].1@,
                ),
        decreases environment.len() - i,
    {
        let (name, value) = &environment[i];
        if name.len() == 0 || os_contains_nul(name) || os_contains_equals(name) || os_contains_nul(
            value,
        ) {
            assert(bad_variable(environment@[i as int].0@, environment@[i as int].1@));
            return true;
        }
        i = i + 1;
    }
    false
}

/// The refusal of a setting.
pub open spec fn bad_setting(field: Seq<char>, message: Seq<char>) -> Option<RuntimeErrorView> {
    Some(RuntimeErrorView::InvalidConfiguration { field, message })
}

/// Why a time is refused, if it is.
pub open spec fn time_refusal(field: Seq<char>, time: u128, fits: bool) -> Option<
    RuntimeErrorView,
> {
    if time == 0 {
        bad_setting(field, "duration must be positive"@)
    } else if !fits {
        bad_setting(field, "duration exceeds the platform Instant range"@)
    } else {
        None
    }
}

/// Why options are refused, if they are. The first setting that is out of order
/// decides.
pub open spec fn options_refusal(
    options: RuntimeOptions,
    startup_fits: bool,
    shutdown_fits: bool,
) -> Option<RuntimeErrorView> {
    let startup = time_refusal("startup_timeout"@, options.startup_timeout, startup_fits);
    let shutdown = time_refusal("shutdown_timeout"@, options.shutdown_timeout, shutdown_fits);
    if startup is Some {
        startup
    } else if shutdown is Some {
        shutdown
    } else if options.shutdown_timeout < 2 {
        bad_setting(
            "shutdown_timeout"@,
            "duration must leave time for both graceful and forced cleanup"@,
        )
    } else {
        match options.source {
            RuntimeSource::ManagedProcess { executable, args, environment } => if holds(
                executable@,
                0,
            ) {
                bad_setting("executable"@, "managed executable contains NUL"@)
            } else if some_bad_argument(args@) {
                bad_setting(
                    "args"@,
                    "managed arguments contain NUL or the SDK-owned --listen option"@,
                )
            } else if some_bad_variable(environment@) {
                bad_setting(
                    "environment"@,
                    "managed environment names must be nonempty without '=' or NUL, and values must not contain NUL"@,
                )
            } else {
                None
            },
            _ => None,
        }
    }
}

fn refuse(field: &'static str, message: &str) -> (result: Result<(), RuntimeError>)
    ensures
        result is Err,
        Some(result->Err_0@) == bad_setting(field@, message@),
{
    Err(RuntimeError::InvalidConfiguration { field, message: message.to_owned() })
}

fn check_time(field: &'static str, time: u128, fits: bool) -> (result: Result<(), RuntimeError>)
    ensures
        match result {
            Ok(()) => time_refusal(field@, time, fits) is None,
            Err(error) => time_refusal(field@, time, fits) == Some(error@),
        },
{
    if time == 0 {
        return refuse(field, "duration must be positive");
    }
    if !fits {
        return refuse(field, "duration exceeds the platform Instant range");
    }
    Ok(())
}

/// Whether a runtime can be opened with these options. `startup_fits` and
/// `shutdown_fits` say whether the platform's clock can count to the end of the two
/// times.
pub fn validate_options(options: &RuntimeOptions, startup_fits: bool, shutdown_fits: bool) -> (result:
    Result<(), RuntimeError>)
    ensures
        match result {
            Ok(()) => options_refusal(*options, startup_fits, shutdown_fits) is None,
            Err(error) => options_refusal(*options, startup_fits, shutdown_fits) == Some(error@),
        },
{
    if let Err(error) = check_time("startup_timeout", options.startup_timeout, startup_fits) {
        return Err(error);
    }
    if let Err(error) = check_time("shutdown_timeout", options.shutdown_timeout, shutdown_fits) {
        return Err(error);
    }
    if options.shutdown_timeout < 2 {
        return refuse(
            "shutdown_timeout",
            "duration must leave time for both graceful and forced cleanup",
        );
    }
    if let RuntimeSource::ManagedProcess { executable, args, environment } = &options.source {
        if os_contains_nul(executable) {
            return refuse("executable", "managed executable contains NUL");
        }
        if any_bad_argument(args) {
            return refuse(
                "args",
                "managed arguments contain NUL or the SDK-owned --listen option",
            );
        }
        if any_bad_variable(environment) {
            return refuse(
                "environment",
                "managed environment names must be nonempty without '=' or NUL, and values must not contain NUL",
            );
        }
    }
    Ok(())
}

/// The default options can be opened wherever the platform's clock can count ten
/// seconds ahead.
pub proof fn default_options_are_valid(options: RuntimeOptions)
    requires
        options == (RuntimeOptions {
            source: RuntimeSource::Embedded,
            startup_timeout: DEFAULT_STARTUP_TIMEOUT,
            shutdown_timeout: DEFAULT_SHUTDOWN_TIMEOUT,
        }),
    ensures
        options_refusal(options, true, true) is None,
{
}

/// Options that are accepted leave time for a graceful part and for a forced part of
/// the shutdown.
pub proof fn accepted_options_leave_both_windows(
    options: RuntimeOptions,
    startup_fits: bool,
    shutdown_fits: bool,
)
    requires
        options_refusal(options, startup_fits, shutdown_fits) is None,
    ensures
        shutdown_fits,
        options.startup_timeout > 0,
        1 <= options.shutdown_timeout / 2 < options.shutdown_timeout,
{
}

/// The word for where a daemon runs.
pub open spec fn mode_word(mode: RuntimeMode) -> Seq<char> {
    match mode {
        RuntimeMode::Embedded => "Embedded"@,
        RuntimeMode::ManagedProcess => "ManagedProcess"@,
        RuntimeMode::ExternalUds => "ExternalUds"@,
    }
}

/// The word for where closing a runtime went wrong.
pub open spec fn phase_word(phase: RuntimeShutdownPhase) -> Seq<char> {
    match phase {
        RuntimeShutdownPhase::Deadline => "Deadline"@,
        RuntimeShutdownPhase::OwnerTask => "OwnerTask"@,
        RuntimeShutdownPhase::Writer => "Writer"@,
        RuntimeShutdownPhase::Reader => "Reader"@,
        RuntimeShutdownPhase::EmbeddedServer => "EmbeddedServer"@,
        RuntimeShutdownPhase::ManagedChild => "ManagedChild"@,
    }
}

fn mode_text(mode: RuntimeMode) -> (text: &'static str)
    ensures
        text@ == mode_word(mode),
{
    match mode {
        RuntimeMode::Embedded => "Embedded",
        RuntimeMode::ManagedProcess => "ManagedProcess",
        RuntimeMode::ExternalUds => "ExternalUds",
    }
}

fn phase_text(phase: RuntimeShutdownPhase) -> (text: &'static str)
    ensures
        text@ == phase_word(phase),
{
    match phase {
        RuntimeShutdownPhase::Deadline => "Deadline",
        RuntimeShutdownPhase::OwnerTask => "OwnerTask",
        RuntimeShutdownPhase::Writer => "Writer",
        RuntimeShutdownPhase::Reader => "Reader",
        RuntimeShutdownPhase::EmbeddedServer => "EmbeddedServer",
        RuntimeShutdownPhase::ManagedChild => "ManagedChild",
    }
}

/// The message that an error shows to people. `timeout` is a timeout as people read it.
pub open spec fn runtime_error_text(error: RuntimeErrorView, timeout: Seq<char>) -> Seq<char> {
    match error {
        RuntimeErrorView::InvalidConfiguration { field, message } =>
            "invalid runtime configuration for "@ + field + ": "@ + message,
        RuntimeErrorView::SourceFailure { mode, message } => "failed to open "@ + mode_word(mode)
            + " runtime source: "@ + message,
        RuntimeErrorView::InitializationFailure { mode, message } => mode_word(mode)
            + " runtime initialization failed: "@ + message,
        RuntimeErrorView::StartupTimeout { mode, .. } => mode_word(mode)
            + " runtime startup timed out after "@ + timeout,
        RuntimeErrorView::ShutdownFailure { mode, phase, message } => mode_word(mode)
            + " runtime shutdown failed in "@ + phase_word(phase) + ": "@ + message,
        RuntimeErrorView::ShutdownTimeout { mode, phase, .. } => mode_word(mode)
            + " runtime shutdown timed out in "@ + phase_word(phase) + " after "@ + timeout,
    }
}

impl RuntimeError {
    /// The message of this error. `timeout` is the timeout that it holds, as people read
    /// it.
    pub fn message(&self, timeout: &str) -> (text: String)
        ensures
            text@ == runtime_error_text(self@, timeout@),
    {
        match self {
            RuntimeError::InvalidConfiguration { field, message } => join4(
                "invalid runtime configuration for ",
                field,
                ": ",
                message.as_str(),
            ),
            RuntimeError::SourceFailure { mode, message } => join4(
                "failed to open ",
                mode_text(*mode),
                " runtime source: ",
                message.as_str(),
            ),
            RuntimeError::InitializationFailure { mode, message } => join3(
                mode_text(*mode),
                " runtime initialization failed: ",
                message.as_str(),
            ),
            RuntimeError::StartupTimeout { mode, .. } => join3(
                mode_text(*mode),
                " runtime startup timed out after ",
                timeout,
            ),
            RuntimeError::ShutdownFailure { mode, phase, message } => join5(
                mode_text(*mode),
                " runtime shutdown failed in ",
                phase_text(*phase),
                ": ",
                message.as_str(),
            ),
            RuntimeError::ShutdownTimeout { mode, phase, .. } => join5(
                mode_text(*mode),
                " runtime shutdown timed out in ",
                phase_text(*phase),
                " after ",
                timeout,
            ),
        }
    }
}

/// What became of a child process that could not be used.
#[derive(Debug)]
pub enum UnusedChild {
    Reaped,
    ReapFailed { kill_error: Option<String>, wait_error: String },
    CleanupFailed(String),
}

/// What is said of a child process that could not be used.
pub open spec fn unused_text(child: UnusedChild) -> Seq<char> {
    match child {
        UnusedChild::Reaped => Seq::empty(),
        UnusedChild::ReapFailed { kill_error, wait_error } => match kill_error {
            Some(kill_error) => "; kill failed: "@ + kill_error@ + "; reap failed: "@
                + wait_error@,
            None => "; reap failed: "@ + wait_error@,
        },
        UnusedChild::CleanupFailed(error) => "; cleanup task failed: "@ + error@,
    }
}

fn source_failure(mode: RuntimeMode, message: String) -> (error: RuntimeError)
    ensures
        error@ == (RuntimeErrorView::SourceFailure { mode, message: message@ }),
{
    RuntimeError::SourceFailure { mode, message }
}

/// The error of a child process that has no pipes. The child has been killed and waited
/// for before.
pub fn missing_pipes(child: &UnusedChild) -> (error: RuntimeError)
    ensures
        error@ == (RuntimeErrorView::SourceFailure {
            mode: RuntimeMode::ManagedProcess,
            message: "managed process did not expose piped stdin/stdout"@ + unused_text(*child),
        }),
{
    let tail = match child {
        UnusedChild::Reaped => String::new(),
        UnusedChild::ReapFailed { kill_error, wait_error } => match kill_error {
            Some(kill_error) => join4(
                "; kill failed: ",
                kill_error.as_str(),
                "; reap failed: ",
                wait_error.as_str(),
            ),
            None => join2("; reap failed: ", wait_error.as_str()),
        },
        UnusedChild::CleanupFailed(error) => join2("; cleanup task failed: ", error.as_str()),
    };
    source_failure(
        RuntimeMode::ManagedProcess,
        join2("managed process did not expose piped stdin/stdout", tail.as_str()),
    )
}

/// The error of a child process that could not be started.
pub fn spawn_failure(error: &str) -> (failure: RuntimeError)
    ensures
        failure@ == (RuntimeErrorView::SourceFailure {
            mode: RuntimeMode::ManagedProcess,
            message: "managed process spawn failed: "@ + error@,
        }),
{
    source_failure(RuntimeMode::ManagedProcess, join2("managed process spawn failed: ", error))
}

/// What came of connecting to a daemon that runs elsewhere.
#[derive(Debug)]
pub enum ConnectFailure {
    Failed(String),
    TimedOut,
}

/// The error of a daemon that could not be reached. `path` is shown as people read it.
pub fn connect_failure(path: &str, failure: ConnectFailure, startup_timeout: Duration) -> (error:
    RuntimeError)
    ensures
        error@ == match failure {
            ConnectFailure::Failed(reason) => RuntimeErrorView::SourceFailure {
                mode: RuntimeMode::ExternalUds,
                message: "external UDS connect to "@ + path@ + " failed: "@ + reason@,
            },
            ConnectFailure::TimedOut => RuntimeErrorView::StartupTimeout {
                mode: RuntimeMode::ExternalUds,
                timeout: startup_timeout,
            },
        },
{
    match failure {
        ConnectFailure::Failed(reason) => source_failure(
            RuntimeMode::ExternalUds,
            join4("external UDS connect to ", path, " failed: ", reason.as_str()),
        ),
        ConnectFailure::TimedOut => RuntimeError::StartupTimeout {
            mode: RuntimeMode::ExternalUds,
            timeout: startup_timeout,
        },
    }
}

/// The mode of a runtime is where its daemon comes from, and only a process of its own has a
/// program, arguments and an environment: those that it was given.
pub proof fn only_processes_have_arguments(source: RuntimeSource)
    ensures
        source.kind() == RuntimeMode::Embedded <==> source is Embedded,
        source.kind() == RuntimeMode::ManagedProcess <==> source is ManagedProcess,
        source.kind() == RuntimeMode::ExternalUds <==> source is ExternalUds,
        match source {
            RuntimeSource::ManagedProcess { executable, args, environment } => {
                &&& program(source) == Some(executable@)
                &&& arguments(source) == args@
                &&& variables(source) == environment@
            },
            _ => {
                &&& program(source) is None
                &&& arguments(source).len() == 0
                &&& variables(source).len() == 0
            },
        },
{
}

/// Of an environment the names are shown, in order, and nothing else.
pub proof fn names_of_variables_are_shown(environment: Seq<(Vec<u8>, Vec<u8>)>, i: int)
    ensures
        variable_names(environment).len() == environment.len(),
        0 <= i < environment.len() ==> variable_names(environment)[i] == environment[i].0@,
{
}

/// A failure of a connection's shutdown is reported where it happened: as a timeout with the
/// time that there was, or as a failure with its message.
pub proof fn shutdown_failures_keep_their_place(
    mode: RuntimeMode,
    timeout: Duration,
    failure: FailureView,
)
    ensures
        ({
            let error = shutdown_error(mode, timeout, failure);
            let place = match error {
                RuntimeErrorView::ShutdownFailure { phase, .. } => Some(phase),
                RuntimeErrorView::ShutdownTimeout { phase, .. } => Some(phase),
                _ => None,
            };
            &&& failure.kind == ConnectionFailureKind::Failed ==> (error
                matches RuntimeErrorView::ShutdownFailure { mode: told, message, .. } && told
                == mode && message == failure.message)
            &&& failure.kind == ConnectionFailureKind::TimedOut ==> (error
                matches RuntimeErrorView::ShutdownTimeout { mode: told, timeout: limit, .. }
                && told == mode && limit == timeout)
            &&& place == Some(
                match failure.phase {
                    ConnectionShutdownPhase::Deadline => RuntimeShutdownPhase::Deadline,
                    ConnectionShutdownPhase::OwnerTask => RuntimeShutdownPhase::OwnerTask,
                    ConnectionShutdownPhase::Writer => RuntimeShutdownPhase::Writer,
                    ConnectionShutdownPhase::Reader => RuntimeShutdownPhase::Reader,
                    ConnectionShutdownPhase::EmbeddedServer =>
                        RuntimeShutdownPhase::EmbeddedServer,
                    ConnectionShutdownPhase::ManagedChild => RuntimeShutdownPhase::ManagedChild,
                },
            )
        }),
{
}

/// Phases that differ are told apart.
pub proof fn phases_are_told_apart(left: ConnectionShutdownPhase, right: ConnectionShutdownPhase)
    requires
        runtime_phase(left) == runtime_phase(right),
    ensures
        left == right,
{
}

/// The client's own argument is `--listen` alone, or with a value behind an equals sign.
pub proof fn listen_argument_is_known(value: Seq<u8>, other: u8)
    ensures
        is_listen(seq![45u8, 45u8, 108u8, 105u8, 115u8, 116u8, 101u8, 110u8]),
        is_listen(
            seq![45u8, 45u8, 108u8, 105u8, 115u8, 116u8, 101u8, 110u8, 61u8] + value,
        ),
        other != 61 ==> !is_listen(
            seq![45u8, 45u8, 108u8, 105u8, 115u8, 116u8, 101u8, 110u8, other] + value,
        ),
        is_listen(value) ==> value.len() >= 8 && value[0] == 45 && value[1] == 45 && value[2] == 108
            && value[3] == 105 && value[4] == 115 && value[5] == 116 && value[6] == 101
            && value[7] == 110 && (value.len() > 8 ==> value[8] == 61),
{
    let plain = seq![45u8, 45u8, 108u8, 105u8, 115u8, 116u8, 101u8, 110u8];
    let valued = seq![45u8, 45u8, 108u8, 105u8, 115u8, 116u8, 101u8, 110u8, 61u8] + value;
    let foreign = seq![45u8, 45u8, 108u8, 105u8, 115u8, 116u8, 101u8, 110u8, other] + value;
    assert(plain.take(8) =~= listen_bytes());
    assert(valued.take(8) =~= listen_bytes());
    assert(foreign[8] == other);
    if is_listen(value) {
        let head = value.take(8);
        assert(head[0] == value[0] && head[1] == value[1] && head[2] == value[2] && head[3]
            == value[3] && head[4] == value[4] && head[5] == value[5] && head[6] == value[6]
            && head[7] == value[7]);
    }
}

/// A byte occurs in a row exactly where it stands at some place.
pub proof fn bytes_are_found(bytes: Seq<u8>, wanted: u8, i: int)
    ensures
        0 <= i < bytes.len() && bytes[i] == wanted ==> holds(bytes, wanted),
        holds(bytes, wanted) ==> bytes.contains(wanted),
        bytes.contains(wanted) ==> holds(bytes, wanted),
{
}

/// A process may get every argument without a zero byte but the client's own, and every
/// variable with a name, without an equals sign in the name and without a zero byte in
/// either. One that it may not get spoils the whole list, wherever it stands.
pub proof fn processes_get_clean_settings(
    args: Seq<Vec<u8>>,
    environment: Seq<(Vec<u8>, Vec<u8>)>,
    argument: Seq<u8>,
    name: Seq<u8>,
    value: Seq<u8>,
    i: int,
)
    ensures
        bad_argument(argument) <==> argument.contains(0) || is_listen(argument),
        bad_variable(name, value) <==> name.len() == 0 || name.contains(0) || name.contains(61)
            || value.contains(0),
        0 <= i < args.len() && (args[i]@.contains(0) || is_listen(args[i]@))
            ==> some_bad_argument(args),
        0 <= i < environment.len() && (environment[i].0@.len() == 0 || environment[i].0@.contains(
            0,
        ) || environment[i].0@.contains(61) || environment[i].1@.contains(0))
            ==> some_bad_variable(environment),
        args.len() == 0 ==> !some_bad_argument(args),
        environment.len() == 0 ==> !some_bad_variable(environment),
{
    bytes_are_found(argument, 0, 0);
    bytes_are_found(name, 0, 0);
    bytes_are_found(name, 61, 0);
    bytes_are_found(value, 0, 0);
    if 0 <= i < args.len() {
        bytes_are_found(args[i]@, 0, 0);
        if args[i]@.contains(0) || is_listen(args[i]@) {
            assert(bad_argument(args[i]@));
        }
    }
    if 0 <= i < environment.len() {
        bytes_are_found(environment[i].0@, 0, 0);
        bytes_are_found(environment[i].0@, 61, 0);
        bytes_are_found(environment[i].1@, 0, 0);
        if environment[i].0@.len() == 0 || environment[i].0@.contains(0)
            || environment[i].0@.contains(61) || environment[i].1@.contains(0) {
            assert(bad_variable(environment[i].0@, environment[i].1@));
        }
    }
}

/// Options are taken exactly where both times are positive and can be counted, the second
/// can be halved, and a process gets nothing that it may not get. Each refusal names the
/// first setting that is out of order.
pub proof fn options_in_order_are_taken(
    options: RuntimeOptions,
    startup_fits: bool,
    shutdown_fits: bool,
)
    ensures
        ({
            let refusal = options_refusal(options, startup_fits, shutdown_fits);
            let started = options.startup_timeout > 0 && startup_fits;
            let stopped = options.shutdown_timeout >= 2 && shutdown_fits;
            let named = |field: Seq<char>|
                refusal matches Some(RuntimeErrorView::InvalidConfiguration { field: told, .. })
                    && told == field;
            let clean = match options.source {
                RuntimeSource::ManagedProcess { executable, args, environment } => !holds(
                    executable@,
                    0,
                ) && !some_bad_argument(args@) && !some_bad_variable(environment@),
                _ => true,
            };
            &&& refusal is None <==> started && stopped && clean
            &&& !started ==> named("startup_timeout"@)
            &&& started && !stopped ==> named("shutdown_timeout"@)
            &&& started && stopped ==> match options.source {
                RuntimeSource::ManagedProcess { executable, args, environment } => {
                    &&& holds(executable@, 0) ==> named("executable"@)
                    &&& !holds(executable@, 0) && some_bad_argument(args@) ==> named("args"@)
                    &&& !holds(executable@, 0) && !some_bad_argument(args@) && some_bad_variable(
                        environment@,
                    ) ==> named("environment"@)
                },
                _ => true,
            }
        }),
{
}

/// The message of an error of a runtime tells its particulars, and so does what is said of
/// a child that could not be used.
pub proof fn runtime_messages_tell_their_particulars(
    mode: RuntimeMode,
    phase: RuntimeShutdownPhase,
    field: Seq<char>,
    message: Seq<char>,
    shown: Seq<char>,
    timeout: Duration,
    kill_error: Option<String>,
    wait_error: String,
)
    ensures
        (field + ": "@ + message).is_suffix_of(
            runtime_error_text(RuntimeErrorView::InvalidConfiguration { field, message }, shown),
        ),
        message.is_suffix_of(
            runtime_error_text(RuntimeErrorView::SourceFailure { mode, message }, shown),
        ),
        message.is_suffix_of(
            runtime_error_text(RuntimeErrorView::InitializationFailure { mode, message }, shown),
        ),
        shown.is_suffix_of(
            runtime_error_text(RuntimeErrorView::StartupTimeout { mode, timeout }, shown),
        ),
        (phase_word(phase) + ": "@ + message).is_suffix_of(
            runtime_error_text(RuntimeErrorView::ShutdownFailure { mode, phase, message }, shown),
        ),
        (phase_word(phase) + " after "@ + shown).is_suffix_of(
            runtime_error_text(RuntimeErrorView::ShutdownTimeout { mode, phase, timeout }, shown),
        ),
        mode_word(mode).is_prefix_of(
            runtime_error_text(RuntimeErrorView::StartupTimeout { mode, timeout }, shown),
        ),
        mode_word(mode).is_prefix_of(
            runtime_error_text(RuntimeErrorView::ShutdownFailure { mode, phase, message }, shown),
        ),
        mode_word(mode).is_prefix_of(
            runtime_error_text(RuntimeErrorView::ShutdownTimeout { mode, phase, timeout }, shown),
        ),
        unused_text(UnusedChild::Reaped).len() == 0,
        wait_error@.is_suffix_of(
            unused_text(UnusedChild::ReapFailed { kill_error, wait_error }),
        ),
        wait_error@.is_suffix_of(unused_text(UnusedChild::CleanupFailed(wait_error))),
        kill_error matches Some(killed) ==> (killed@ + "; reap failed: "@
            + wait_error@).is_suffix_of(
            unused_text(UnusedChild::ReapFailed { kill_error, wait_error }),
        ),
{
}

/// Modes and phases are told by their own names.
pub proof fn modes_and_phases_have_their_own_words()
    ensures
        mode_word(RuntimeMode::Embedded) == "Embedded"@,
        mode_word(RuntimeMode::ManagedProcess) == "ManagedProcess"@,
        mode_word(RuntimeMode::ExternalUds) == "ExternalUds"@,
        phase_word(RuntimeShutdownPhase::Deadline) == "Deadline"@,
        phase_word(RuntimeShutdownPhase::OwnerTask) == "OwnerTask"@,
        phase_word(RuntimeShutdownPhase::Writer) == "Writer"@,
        phase_word(RuntimeShutdownPhase::Reader) == "Reader"@,
        phase_word(RuntimeShutdownPhase::EmbeddedServer) == "EmbeddedServer"@,
        phase_word(RuntimeShutdownPhase::ManagedChild) == "ManagedChild"@,
{
}

} // verus!
