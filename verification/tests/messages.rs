use whale_sdk::client::ClientState;
use whale_sdk::contexts::{
    conclude_interaction, context_reply, now_ms, tool_reply, CallbackEnd, CancellationSignal,
    ContextBuild, Dispatch, HostParams, QuestionEnd, Rejection, RunContextInfo, ScopedCallback,
    ToolContext, ToolContextInfo, ToolExecution, ToolReply,
};
use whale_sdk::errors::SdkError;
use whale_sdk::incoming::{Incoming, IncomingStep, NoticeParams, RequestId};
use whale_sdk::initialization::{HandshakeReply, Initialization, InitializationFailure};
use whale_sdk::protocol::{InitializeResult, PeerInfo};
use whale_sdk::requests::{
    plain_request_error, RemoteError, RequestEnd, RequestError, SessionRequestAccess,
};
use whale_sdk::run::{RunEvent, RunEventPayload};
use whale_sdk::sessions::{Close, CloseReply};

type Step = IncomingStep<u64, ()>;

fn peer(capabilities: &[&str]) -> InitializeResult {
    InitializeResult {
        server: PeerInfo { name: "d".into(), version: "1".into() },
        protocol_version: 1,
        capabilities: capabilities.iter().map(|capability| capability.to_string()).collect(),
    }
}

fn ready(capabilities: &[&str]) -> ClientState {
    let mut client = ClientState::new();
    assert!(client.initialization.begin());
    let reply = HandshakeReply::Answered { result: peer(capabilities), valid: Ok(()) };
    assert!(!client.initialization.settle(reply));
    client.ensure_session_open("s", 1).unwrap();
    client
}

fn receive(client: &mut ClientState, message: Incoming<u64, ()>) -> Step {
    client.incoming(message)
}

fn notify(client: &mut ClientState, method: &str, params: NoticeParams) -> Step {
    receive(client, Incoming::Notification { method: method.into(), params })
}

fn request(client: &mut ClientState, method: &str, params: HostParams, callback: u64) -> Dispatch {
    let message = Incoming::Request { id: RequestId::Number(4), method: method.into(), params, callback };
    match receive(client, message) {
        IncomingStep::Dispatch(dispatch) => dispatch,
        _ => panic!("no dispatch"),
    }
}

fn execution(call_id: &str, name: &str) -> ToolExecution {
    ToolExecution {
        call_id: call_id.into(),
        name: name.into(),
        thread_id: None,
        binding_id: None,
        context: None,
    }
}

fn in_session(call_id: &str, name: &str) -> ToolExecution {
    ToolExecution { thread_id: Some("s".into()), ..execution(call_id, name) }
}

fn refusal(dispatch: Dispatch) -> (i64, String) {
    match dispatch {
        Dispatch::Reject(rejection) => (rejection.code(), rejection.message()),
        other => panic!("{other:?}"),
    }
}

fn gave_up(step: Step) -> String {
    match step {
        IncomingStep::GiveUp(Some(ended)) => ended.message,
        _ => panic!("kept"),
    }
}

#[test]
fn answers_reach_the_request_that_they_answer() {
    let mut client = ready(&[]);
    let first = client.begin_request(SessionRequestAccess::Unscoped).unwrap();
    let second = client.begin_request(SessionRequestAccess::Writable("s")).unwrap();
    assert_eq!((first, second), (1, 2));
    client.enlist_request(first, SessionRequestAccess::Unscoped, 41).unwrap();
    client.enlist_request(second, SessionRequestAccess::Writable("s"), 42).unwrap();
    assert_eq!(client.pending_sessions.len(), 1);
    let answer = Incoming::Response { id: RequestId::Number(2), result: Some(7), error: None };
    match receive(&mut client, answer) {
        IncomingStep::Answer { reply, result } => {
            assert_eq!(reply, 42);
            assert!(matches!(result, Ok(7)));
        }
        _ => panic!("lost"),
    }
    let again = Incoming::Response { id: RequestId::Number(2), result: Some(7), error: None };
    assert!(matches!(receive(&mut client, again), IncomingStep::Nothing));
    let text = Incoming::Response { id: RequestId::Text("1".into()), result: None, error: None };
    match receive(&mut client, text) {
        IncomingStep::Answer { reply: 41, result: Err(RequestError::Sdk(SdkError::Internal(text))) } => {
            assert_eq!(text, "Response has no result or error")
        }
        _ => panic!("lost"),
    }
}

#[test]
fn an_error_beats_a_result() {
    let mut client = ready(&[]);
    let id = client.begin_request(SessionRequestAccess::Unscoped).unwrap();
    client.enlist_request(id, SessionRequestAccess::Unscoped, 41).unwrap();
    let error = RemoteError { code: -32030, message: "old".into(), data: () };
    let answer = Incoming::Response { id: RequestId::Number(id), result: Some(7), error: Some(error) };
    match receive(&mut client, answer) {
        IncomingStep::Answer { result: Err(error), .. } => {
            assert!(matches!(plain_request_error(error), SdkError::RunExpired(text) if text == "old"))
        }
        _ => panic!("lost"),
    }
    let plain = |code| {
        plain_request_error(RequestError::Remote(RemoteError { code, message: "m".into(), data: () }))
    };
    assert!(matches!(plain(-32031), SdkError::LimitExceeded(_)));
    assert!(matches!(plain(-5), SdkError::Rpc { code: -5, .. }));
}

#[test]
fn a_request_ends_in_one_way_and_leaves_nothing() {
    let mut client = ready(&[]);
    let access = SessionRequestAccess::Writable("s");
    let end = |client: &mut ClientState, end: RequestEnd<u64, ()>| {
        let id = client.begin_request(access).unwrap();
        client.enlist_request(id, access, 41).unwrap();
        let result = client.conclude_request(id, access, "turn.get", end);
        assert!(client.pending.is_empty() && client.pending_sessions.is_empty());
        result
    };
    assert!(matches!(end(&mut client, RequestEnd::Answered(Ok(3))), Ok(3)));
    assert!(matches!(
        end(&mut client, RequestEnd::TimedOut),
        Err(RequestError::Sdk(SdkError::RequestTimeout(method))) if method == "turn.get"
    ));
    assert!(matches!(
        end(&mut client, RequestEnd::Released),
        Err(RequestError::Sdk(SdkError::SessionClosed(session))) if session == "s"
    ));
    assert!(matches!(
        end(&mut client, RequestEnd::Abandoned),
        Err(RequestError::Sdk(SdkError::ChannelClosed(text))) if text == "Response channel closed"
    ));
}

#[test]
fn requests_need_an_open_connection_and_session() {
    let mut client = ready(&[]);
    assert!(matches!(
        client.begin_request(SessionRequestAccess::Writable("unknown")),
        Err(SdkError::SessionClosed(_))
    ));
    assert!(client.begin_request(SessionRequestAccess::Viewable("unknown")).is_ok());
    let id = client.begin_request(SessionRequestAccess::Unscoped).unwrap();
    client.disconnect("gone");
    assert!(matches!(
        client.enlist_request(id, SessionRequestAccess::Unscoped, 1),
        Err(SdkError::ChannelClosed(_))
    ));
    assert!(client.pending.is_empty());
    assert!(client.session_released("s", 0));
    assert!(matches!(
        client.enlist_request(id, SessionRequestAccess::Writable("unknown"), 1),
        Err(SdkError::SessionClosed(session)) if session == "unknown"
    ));
    assert!(matches!(
        client.begin_request(SessionRequestAccess::Writable("unknown")),
        Err(SdkError::ChannelClosed(text)) if text == "Client is closed"
    ));
}

#[test]
fn unreadable_messages_close_the_connection() {
    let mut client = ready(&[]);
    assert_eq!(
        gave_up(receive(&mut client, Incoming::Unreadable("expected value".into()))),
        "Invalid daemon message: expected value"
    );
    assert!(client.closed);
    let mut turn = ready(&[]);
    assert_eq!(
        gave_up(notify(&mut turn, "turn.event", NoticeParams::Unreadable)),
        "Invalid turn.event payload"
    );
    let mut event = ready(&[]);
    let bad = NoticeParams::Event { session: "s".into(), valid: Err("seq".into()) };
    assert_eq!(
        gave_up(notify(&mut event, "session.event", bad)),
        "Invalid session.event payload: seq"
    );
    let mut managed = ready(&[]);
    assert_eq!(
        gave_up(notify(&mut managed, "session.event.v2", NoticeParams::Unreadable)),
        "Invalid session.event.v2 payload"
    );
    let mut interaction = ready(&[]);
    assert_eq!(
        gave_up(notify(&mut interaction, "session.interaction_event", NoticeParams::Unreadable)),
        "Invalid session.interaction_event payload"
    );
}

#[test]
fn events_go_to_the_hub_or_the_run() {
    let mut client = ready(&[]);
    let event = || NoticeParams::Event { session: "s".into(), valid: Ok(()) };
    assert!(matches!(
        notify(&mut client, "session.event", event()),
        IncomingStep::Forward { hub: 1 }
    ));
    assert!(matches!(notify(&mut client, "session.event.v2", event()), IncomingStep::Nothing));
    client.runs.insert("r".into(), 17);
    let turn = |turn_id: &str| NoticeParams::Turn {
        event: RunEvent {
            thread_id: "s".into(),
            turn_id: turn_id.into(),
            seq: 1,
            handle: 5,
            payload: RunEventPayload::Stream,
        },
        approval: None,
    };
    assert!(matches!(
        notify(&mut client, "turn.event", turn("r")),
        IncomingStep::Turn { run: 17, .. }
    ));
    assert!(matches!(notify(&mut client, "turn.event", turn("q")), IncomingStep::Nothing));
    assert!(matches!(notify(&mut client, "other", NoticeParams::Unreadable), IncomingStep::Nothing));
}

#[test]
fn business_notifications_before_ready_do_not_mutate_or_disconnect_client() {
    let mut client = ClientState::new();
    assert!(matches!(
        notify(&mut client, "turn.event", NoticeParams::Unreadable),
        IncomingStep::Nothing
    ));
    assert!(!client.closed);
}

#[test]
fn reverse_requests_are_rejected_before_ready_without_blocking_initialization() {
    let mut client = ClientState::new();
    let params = HostParams::Tool(in_session("c", "t"));
    assert_eq!(
        refusal(request(&mut client, "tool.execute_host", params, 1)),
        (-32010, "Connection is not initialized".to_string())
    );
    assert!(client.tool_callbacks.is_empty());
    assert!(client.initialization.begin());
}

#[test]
fn a_tool_is_found_by_session_and_version() {
    let mut client = ready(&[]);
    client.tools.insert(("s".into(), "t".into()), 20);
    client.tool_bindings.insert(("s".into(), "v1".into()), 10);
    client.tool_bindings.insert(("s".into(), "v2".into()), 20);
    let run = |client: &mut ClientState, execution: ToolExecution| {
        match request(client, "tool.execute_host", HostParams::Tool(execution), 9) {
            Dispatch::RunTool { tool, .. } => tool,
            other => panic!("{other:?}"),
        }
    };
    let old = ToolExecution { binding_id: Some("v1".into()), ..in_session("a", "t") };
    assert_eq!(run(&mut client, old), Some(10));
    assert_eq!(run(&mut client, in_session("b", "t")), Some(20));
    assert_eq!(client.tool_callbacks.len(), 2);
    assert_eq!(client.tool_callback_sessions.get("a").unwrap().value(), "s");
}

#[test]
fn a_session_runs_only_its_own_tools() {
    let mut client = ready(&[]);
    client.ensure_session_open("other", 2).unwrap();
    client.tools.insert(("s".into(), "t".into()), 20);
    client.tools.insert(("other".into(), "t".into()), 30);
    client.tool_bindings.insert(("other".into(), "v".into()), 30);
    match request(&mut client, "tool.execute_host", HostParams::Tool(in_session("a", "t")), 9) {
        Dispatch::RunTool { tool, .. } => assert_eq!(tool, Some(20)),
        other => panic!("{other:?}"),
    }
    let foreign = ToolExecution { binding_id: Some("v".into()), ..in_session("b", "t") };
    match request(&mut client, "tool.execute_host", HostParams::Tool(foreign), 9) {
        Dispatch::RunTool { tool, .. } => assert_eq!(tool, None),
        other => panic!("{other:?}"),
    }
}

#[test]
fn unknown_binding_id_must_not_execute_the_name_binding() {
    let mut client = ready(&[]);
    client.ensure_session_open("session", 2).unwrap();
    client.tools.insert(("session".into(), "lookup".into()), 20);
    for thread_id in [Some("session".to_string()), None] {
        let execution = ToolExecution {
            thread_id,
            binding_id: Some("unknown".into()),
            ..execution("correlation", "lookup")
        };
        match request(&mut client, "tool.execute_host", HostParams::Tool(execution), 9) {
            Dispatch::RunTool { tool, .. } => assert_eq!(tool, None),
            other => panic!("{other:?}"),
        }
        match tool_reply(CallbackEnd::Unbound, "lookup") {
            ToolReply::Error(text) => {
                assert_eq!(text, "Host tool 'lookup' is not bound to this session")
            }
            ToolReply::Output(output) => panic!("{output}"),
        }
        client.finish_invocation(false, "correlation");
    }
}

#[test]
fn a_name_without_a_session_has_to_be_unique() {
    let mut client = ready(&[]);
    client.ensure_session_open("other", 2).unwrap();
    client.tools.insert(("s".into(), "t".into()), 20);
    match request(&mut client, "tool.execute_host", HostParams::Tool(execution("a", "t")), 9) {
        Dispatch::RunTool { tool, .. } => assert_eq!(tool, Some(20)),
        other => panic!("{other:?}"),
    }
    assert_eq!(client.tool_callback_sessions.get("a").unwrap().value(), "s");
    client.tools.insert(("other".into(), "t".into()), 30);
    match request(&mut client, "tool.execute_host", HostParams::Tool(execution("b", "t")), 9) {
        Dispatch::RunTool { tool, .. } => assert_eq!(tool, None),
        other => panic!("{other:?}"),
    }
    assert!(!client.tool_callback_sessions.contains_key("b"));
}

#[test]
fn malformed_invocations_are_refused() {
    let mut client = ready(&[]);
    let invalid = |text: &str| (-32602i64, text.to_string());
    assert_eq!(
        refusal(request(&mut client, "tool.execute_host", HostParams::Unreadable, 1)),
        invalid("Invalid tool.execute_host parameters")
    );
    assert_eq!(
        refusal(request(&mut client, "context.build_host", HostParams::Unreadable, 1)),
        invalid("Invalid context.build_host parameters")
    );
    assert_eq!(
        refusal(request(&mut client, "other.method", HostParams::Unreadable, 1)),
        (-32601, "other.method".to_string())
    );
    let context = |thread: &str, turn: &str| ToolContextInfo {
        run: RunContextInfo { thread_id: thread.into(), turn_id: turn.into(), deadline_unix_ms: None },
        call_id: "c".into(),
    };
    for broken in [context("", "r"), context("s", ""), context("t", "r")] {
        let params = HostParams::Tool(ToolExecution { context: Some(broken), ..in_session("c", "t") });
        assert_eq!(
            refusal(request(&mut client, "tool.execute_host", params, 1)),
            invalid("Invalid tool execution identity")
        );
    }
    let params = || HostParams::Tool(in_session("c", "t"));
    assert!(matches!(
        request(&mut client, "tool.execute_host", params(), 1),
        Dispatch::RunTool { .. }
    ));
    assert_eq!(
        refusal(request(&mut client, "tool.execute_host", params(), 2)),
        invalid("Duplicate host invocation")
    );
    client.finish_invocation(false, "c");
    assert!(client.tool_callbacks.is_empty() && client.tool_callback_sessions.is_empty());
    client.close_session("s").unwrap();
    assert_eq!(
        refusal(request(&mut client, "tool.execute_host", params(), 3)),
        invalid("SessionClosed: s")
    );
}

#[test]
fn contexts_are_built_by_the_policy_of_their_session() {
    let mut client = ready(&[]);
    let params = || HostParams::Context(ContextBuild {
        context: RunContextInfo { thread_id: "s".into(), turn_id: "r".into(), deadline_unix_ms: Some(5) },
    });
    assert_eq!(
        refusal(request(&mut client, "context.build_host", params(), 1)),
        (-32602, "No host context policy bound to this session".to_string())
    );
    client.context_policies.insert("s".into(), 33);
    match request(&mut client, "context.build_host", params(), 6) {
        Dispatch::BuildContext { policy, cancellation } => {
            assert_eq!(policy, 33);
            assert_eq!(cancellation.deadline_unix_ms(), Some(5));
        }
        other => panic!("{other:?}"),
    }
    assert_eq!(client.context_callbacks.get("4").map(|entry| *entry.value()), Some(6));
    client.finish_invocation(true, "4");
    assert!(client.context_callbacks.is_empty());
}

#[test]
fn cancellation_immediately_after_request_prevents_callback_dispatch() {
    let mut client = ready(&[]);
    request(&mut client, "tool.execute_host", HostParams::Tool(in_session("c", "t")), 9);
    let step = notify(&mut client, "tool.cancel_host", NoticeParams::Cancelled("c".into()));
    assert!(matches!(step, IncomingStep::Cancel { callback: 9 }));
    let mut callback = ScopedCallback::new(CancellationSignal::new(None));
    assert!(callback.may_start(0, false));
    callback.cancel();
    assert!(!callback.may_start(0, false));
    assert!(!callback.may_reply(0, false));
    let other = notify(&mut client, "context.cancel_host", NoticeParams::Cancelled("c".into()));
    assert!(matches!(other, IncomingStep::Nothing));
    let odd = notify(&mut client, "tool.cancel_host", NoticeParams::Unreadable);
    assert!(matches!(odd, IncomingStep::Nothing));
}

#[test]
fn local_deadline_signals_without_a_daemon_notification() {
    let mut signal = CancellationSignal::new(Some(100));
    assert!(!signal.is_cancelled(99));
    assert!(signal.is_cancelled(100));
    assert_eq!(signal.remaining(40), Some(60));
    assert_eq!(signal.remaining(400), Some(0));
    assert_eq!(CancellationSignal::new(None).remaining(0), None);
    signal.cancel();
    assert!(signal.is_cancelled(0));
    assert_eq!(now_ms(None), 0);
    assert_eq!(now_ms(Some(12)), 12);
    assert_eq!(now_ms(Some(u128::MAX)), u64::MAX);
}

#[test]
fn business_panics_send_correlated_errors_and_release_invocation_state() {
    assert!(matches!(
        tool_reply(CallbackEnd::Panicked, "t"),
        ToolReply::Error(text) if text == "Host tool panicked"
    ));
    assert!(matches!(
        tool_reply(CallbackEnd::Unbound, "t"),
        ToolReply::Error(text) if text == "Host tool 't' is not bound to this session"
    ));
    assert!(matches!(
        tool_reply(CallbackEnd::Failed("e".into()), "t"),
        ToolReply::Error(text) if text == "e"
    ));
    assert!(matches!(tool_reply(CallbackEnd::Returned(4), "t"), ToolReply::Output(4)));
    assert!(matches!(
        context_reply(CallbackEnd::Panicked),
        Err(Rejection::Internal(text)) if text == "Host context policy panicked"
    ));
    assert_eq!(context_reply(CallbackEnd::Failed("e".into())).unwrap_err().code(), -32603);
    assert!(matches!(context_reply(CallbackEnd::Returned(8)), Ok(8)));
}

#[test]
fn successful_callback_expires_progress_without_reporting_cancellation() {
    let context = ToolContext {
        info: Some(ToolContextInfo {
            run: RunContextInfo { thread_id: "s".into(), turn_id: "r".into(), deadline_unix_ms: None },
            call_id: "c".into(),
        }),
        correlation_id: "c".into(),
    };
    let mut callback = ScopedCallback::new(CancellationSignal::new(None));
    assert!(context.report_progress(&callback, 0, Ok(()), true).unwrap());
    assert!(matches!(
        context.report_progress(&callback, 0, Ok(()), false),
        Err(SdkError::ChannelClosed(text)) if text == "Client dropped"
    ));
    assert!(matches!(
        context.report_progress(&callback, 0, Err("bad".into()), true),
        Err(SdkError::InvalidConfiguration(text)) if text == "bad"
    ));
    callback.finish();
    assert!(!context.report_progress(&callback, 0, Ok(()), true).unwrap());
    assert!(!callback.cancellation.is_cancelled(0));
    callback.stop();
    assert!(callback.stopped && callback.cancellation.is_cancelled(0));
    let unidentified = ToolContext { info: None, correlation_id: "c".into() };
    let fresh = ScopedCallback::new(CancellationSignal::new(None));
    assert!(!unidentified.report_progress(&fresh, 0, Ok(()), true).unwrap());
}

#[test]
fn nested_questions_need_an_opted_in_session() {
    let context = ToolContext {
        info: Some(ToolContextInfo {
            run: RunContextInfo { thread_id: "s".into(), turn_id: "r".into(), deadline_unix_ms: None },
            call_id: "c".into(),
        }),
        correlation_id: "c".into(),
    };
    let callback = ScopedCallback::new(CancellationSignal::new(None));
    let text = |result: Result<String, SdkError>| result.unwrap_err().message();
    assert_eq!(
        text(context.request_interaction(&callback, 0, Ok(()), None)),
        "Communication channel closed: Client dropped"
    );
    let fresh = ClientState::new();
    assert_eq!(
        text(context.request_interaction(&callback, 0, Ok(()), Some(&fresh))),
        "Protocol compatibility error: Connection initialization is not complete"
    );
    let plain = ready(&[]);
    assert_eq!(
        text(context.request_interaction(&callback, 0, Ok(()), Some(&plain))),
        "Protocol compatibility error: Daemon does not advertise interactions.v1"
    );
    let mut client = ready(&["interactions.v1"]);
    assert_eq!(
        text(context.request_interaction(&callback, 0, Ok(()), Some(&client))),
        "Invalid configuration: Interactions are not enabled for Session s"
    );
    client.enable_interactions("s").unwrap();
    let identity = context.request_interaction(&callback, 0, Ok(()), Some(&client)).unwrap();
    assert_eq!(identity.len(), 36);
    let mut done = callback;
    done.finish();
    assert_eq!(
        text(context.request_interaction(&done, 0, Ok(()), Some(&client))),
        "Communication channel closed: Host tool callback is no longer active"
    );
    let unidentified = ToolContext { info: None, correlation_id: "c".into() };
    assert_eq!(
        text(unidentified.request_interaction(&callback, 0, Ok(()), Some(&client))),
        "Protocol compatibility error: The daemon did not supply an Interaction-capable ToolContext identity"
    );
}

#[test]
fn nested_answers_belong_to_their_question() {
    let answered = |request_id: &str, valid| QuestionEnd::Answered {
        request_id: request_id.into(),
        valid,
        response: 6,
    };
    assert_eq!(conclude_interaction("q", answered("q", Ok(()))).unwrap(), 6);
    let text = |end: QuestionEnd| conclude_interaction("q", end).unwrap_err().message();
    assert_eq!(
        text(answered("x", Ok(()))),
        "Internal SDK error: Daemon returned a different nested Interaction identity"
    );
    assert_eq!(text(answered("q", Err("odd".into()))), "Internal SDK error: odd");
    assert_eq!(
        text(QuestionEnd::Cancelled),
        "Communication channel closed: Host tool callback was cancelled"
    );
    assert_eq!(
        text(QuestionEnd::Finished),
        "Communication channel closed: Host tool callback finished"
    );
    assert_eq!(text(QuestionEnd::Failed(SdkError::EventLagged)), SdkError::EventLagged.message());
}

#[test]
fn concurrent_first_requests_share_one_validated_initialization() {
    let mut client = ClientState::new();
    assert!(client.initialization.begin());
    assert!(!client.initialization.begin());
    assert!(client.initialization.observed(false).is_none());
    assert!(client.initialization.require_initialized().is_err());
    let reply = HandshakeReply::Answered { result: peer(&["c"]), valid: Ok(()) };
    assert!(!client.initialization.settle(reply));
    assert!(matches!(client.initialization.observed(false), Some(Ok(_))));
    assert!(matches!(
        client.initialization.observed(true),
        Some(Err(failure)) if failure.message() == "Client closed after initialization"
    ));
    assert!(client.initialization.offers("c") && !client.initialization.offers("d"));
    assert!(client.is_initialized());
}

#[test]
fn incompatible_and_malformed_handshakes_close_client_without_business_requests() {
    let mut client = ClientState::new();
    client.initialization.begin();
    let reply = HandshakeReply::Answered { result: peer(&[]), valid: Err("version 9".into()) };
    assert!(client.initialization.settle(reply));
    assert!(matches!(
        client.initialization.require_initialized(),
        Err(SdkError::ProtocolCompatibility(text)) if text == "version 9"
    ));
    let mut refused = Initialization::NotStarted;
    refused.begin();
    assert!(refused.settle(HandshakeReply::Refused(SdkError::ChannelClosed("eof".into()))));
    assert!(matches!(
        refused.observed(false),
        Some(Err(failure)) if failure.message() == "Communication channel closed: eof"
    ));
    let mut late = Initialization::NotStarted;
    late.begin();
    let timeout = std::time::Duration::from_secs(10);
    assert!(late.settle(HandshakeReply::TimedOut { timeout, seconds: "10".into() }));
    assert!(matches!(
        late.observed(false),
        Some(Err(failure)) if failure.message() == "protocol.initialize timed out after 10 seconds"
    ));
}

fn session_call(call_id: &str) -> HostParams {
    HostParams::Tool(ToolExecution {
        context: Some(ToolContextInfo {
            run: RunContextInfo {
                thread_id: "session".into(),
                turn_id: "turn".into(),
                deadline_unix_ms: None,
            },
            call_id: "model-call".into(),
        }),
        thread_id: Some("session".into()),
        ..execution(call_id, "lookup")
    })
}

fn session_context() -> HostParams {
    HostParams::Context(ContextBuild {
        context: RunContextInfo {
            thread_id: "session".into(),
            turn_id: "turn".into(),
            deadline_unix_ms: None,
        },
    })
}

fn correlated(
    client: &mut ClientState,
    id: &str,
    method: &str,
    params: HostParams,
    callback: u64,
) -> Dispatch {
    let id = RequestId::Text(id.into());
    match receive(client, Incoming::Request { id, method: method.into(), params, callback }) {
        IncomingStep::Dispatch(dispatch) => dispatch,
        _ => panic!("no dispatch"),
    }
}

fn with_callbacks() -> ClientState {
    let mut client = ready(&[]);
    client.ensure_session_open("session", 2).unwrap();
    client.tools.insert(("session".into(), "lookup".into()), 10);
    client.tool_bindings.insert(("session".into(), "version".into()), 10);
    client.context_policies.insert("session".into(), 20);
    let tool = correlated(&mut client, "tool", "tool.execute_host", session_call("correlation"), 1);
    assert!(matches!(tool, Dispatch::RunTool { tool: Some(10), .. }));
    let policy = correlated(&mut client, "policy", "context.build_host", session_context(), 2);
    assert!(matches!(policy, Dispatch::BuildContext { policy: 20, .. }));
    client
}

#[test]
fn context_cancel_immediately_after_ingress_prevents_dispatch() {
    let mut client = ready(&[]);
    client.context_policies.insert("session".into(), 20);
    client.ensure_session_open("session", 2).unwrap();
    let name = "context-correlation";
    let dispatch = correlated(&mut client, name, "context.build_host", session_context(), 3);
    let mut callback = match dispatch {
        Dispatch::BuildContext { policy: 20, cancellation } => ScopedCallback::new(cancellation),
        other => panic!("{other:?}"),
    };
    assert!(client.context_callbacks.contains_key(name));
    let step = notify(&mut client, "context.cancel_host", NoticeParams::Cancelled(name.into()));
    assert!(matches!(step, IncomingStep::Cancel { callback: 3 }));
    callback.cancel();
    assert!(callback.cancellation.is_cancelled(0));
    assert!(!callback.may_start(0, false) && !callback.may_reply(0, false));
    client.finish_invocation(true, name);
    assert!(client.context_callbacks.is_empty());
}

#[test]
fn close_cancels_and_drops_both_callback_futures_without_late_replies() {
    let mut client = with_callbacks();
    let ended = client.disconnect("Client closed").unwrap();
    assert_eq!(ended.tool_callbacks, vec![("correlation".to_string(), 1)]);
    assert_eq!(ended.context_callbacks, vec![("policy".to_string(), 2)]);
    assert!(client.tools.is_empty() && client.tool_bindings.is_empty());
    assert!(client.context_policies.is_empty());
    let mut callback = ScopedCallback::new(CancellationSignal::new(None));
    callback.stop();
    assert!(!callback.may_reply(0, false) && !callback.may_reply(0, true));
    let context = ToolContext { info: None, correlation_id: "correlation".into() };
    assert!(!context.report_progress(&callback, 0, Ok(()), true).unwrap());
}

#[test]
fn session_close_drops_only_its_callbacks_and_owned_resources() {
    let mut client = with_callbacks();
    client.tools.insert(("s".into(), "lookup".into()), 11);
    let other = HostParams::Tool(in_session("other", "lookup"));
    correlated(&mut client, "other", "tool.execute_host", other, 5);
    let (claim, attempt) = match client.close_session("session") {
        Ok(Close::Ask { claim, attempt }) => (claim, attempt),
        other => panic!("{other:?}"),
    };
    let reply = CloseReply::Answered { thread_id: "session".into(), closed: true };
    client.settle_close(&claim, attempt, reply);
    let released = client.release_routes("session", claim.id);
    assert_eq!(released.tool_callbacks, vec![("correlation".to_string(), 1)]);
    assert_eq!(released.context_callbacks, vec![("policy".to_string(), 2)]);
    client.release_bindings("session", claim.id);
    assert!(matches!(client.finish_close(&claim, true, &Vec::new()), Ok(true)));
    client.release_probe(claim);
    client.finish_invocation(false, "correlation");
    client.finish_invocation(true, "policy");
    assert_eq!(client.tool_callbacks.len(), 1);
    assert!(client.context_callbacks.is_empty() && client.context_policies.is_empty());
    assert_eq!(client.tools.len(), 1);
    assert!(client.tool_bindings.is_empty());
    assert!(!client.closed);
    let late = session_call("late-correlation");
    let (_, message) =
        refusal(correlated(&mut client, "late-tool", "tool.execute_host", late, 6));
    assert!(message.contains("SessionClosed"));
}

#[test]
fn session_close_interrupts_tool_reply_backpressure() {
    let mut callback = ScopedCallback::new(CancellationSignal::new(None));
    assert!(callback.may_reply(0, false));
    callback.stop();
    assert!(!callback.may_reply(0, false));
}

#[test]
fn aborting_first_initializer_waiter_does_not_restart_handshake() {
    let mut client = ClientState::new();
    assert!(client.initialization.begin());
    assert!(!client.initialization.begin());
    let reply = HandshakeReply::Answered { result: peer(&[]), valid: Ok(()) };
    assert!(!client.initialization.settle(reply));
    assert!(matches!(client.initialization.observed(false), Some(Ok(_))));
    assert!(!client.initialization.begin());
}

#[test]
fn explicit_close_interrupts_initialization() {
    let mut client = ClientState::new();
    client.initialization.begin();
    client.pending.insert("1".into(), 41);
    let ended = client.disconnect("Client closed").unwrap();
    assert_eq!(ended.replies, vec![("1".to_string(), 41)]);
    assert!(client.initialization.settle(HandshakeReply::Refused(ended.error())));
    assert!(matches!(client.initialization.observed(true), Some(Err(_))));
    assert!(client.pending.is_empty());
}

#[test]
fn initialization_timeout_closes_transport_and_clears_pending() {
    let mut client = ClientState::new();
    client.initialization.begin();
    client.pending.insert("1".into(), 41);
    let timeout = std::time::Duration::from_secs(10);
    let late = HandshakeReply::TimedOut { timeout, seconds: "10".into() };
    assert!(client.initialization.settle(late));
    assert!(matches!(
        client.initialization.require_initialized(),
        Err(SdkError::ProtocolCompatibility(message)) if message.contains("10 seconds")
    ));
    client.disconnect("Initialization failed");
    assert!(client.closed && client.pending.is_empty());
}

#[test]
fn runtime_initialization_uses_the_callers_deadline_instead_of_the_legacy_default() {
    let mut client = ClientState::new();
    client.initialization.begin();
    let timeout = std::time::Duration::from_millis(75);
    let late = HandshakeReply::TimedOut { timeout, seconds: "0.075".into() };
    assert!(client.initialization.settle(late));
    match client.initialization.observed(true) {
        Some(Err(InitializationFailure::TimedOut { timeout: kept, .. })) => {
            assert_eq!(kept, timeout)
        }
        other => panic!("{other:?}"),
    }
}

#[test]
fn eof_during_initialization_is_permanent_failure() {
    let mut client = ClientState::new();
    client.initialization.begin();
    client.pending.insert("1".into(), 41);
    let ended = client.disconnect("Daemon disconnected").unwrap();
    assert!(client.initialization.settle(HandshakeReply::Refused(ended.error())));
    assert!(matches!(
        client.initialization.require_initialized(),
        Err(SdkError::ProtocolCompatibility(_))
    ));
    assert!(client.closed && client.pending.is_empty());
    assert!(!client.initialization.begin());
}
