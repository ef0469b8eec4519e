use whale_sdk::client::ClientState;
use whale_sdk::errors::SdkError;
use whale_sdk::incoming::{Incoming, IncomingStep, NoticeParams, RequestId};
use whale_sdk::initialization::{HandshakeReply, Initialization};
use whale_sdk::interactions::{
    check_interaction_response, check_interaction_resume, check_interaction_snapshot,
    check_turn_interactions, interaction_fault, interaction_page_error, legacy_approval_response,
    run_approval_response, ApprovalDecision, InteractionSubscriptionOptions, InteractionViewError,
    InteractionWatchOptions, RunApprovalDecision,
};
use whale_sdk::protocol::{InitializeResult, PeerInfo};
use whale_sdk::receiver::{EventReceiver, HubTermination, Received, Signal};
use whale_sdk::requests::{plain_request_error, RemoteError, RequestEnd, SessionRequestAccess};
use whale_sdk::run::{Room, RunEvent, RunEventPayload};
use whale_sdk::run_routes::ApprovalRoute;
use whale_sdk::sessions::{close_result, Close, CloseReply, CloseStep};
use whale_sdk::stream::{
    Cursor, Fault, ReplayPage, StreamEvent, StreamKind, Worker, WorkerAction, WorkerInput,
};

fn ready(capabilities: &[&str]) -> ClientState {
    let mut client = ClientState::new();
    let mut initialization = Initialization::NotStarted;
    initialization.begin();
    initialization.settle(HandshakeReply::Answered {
        result: InitializeResult {
            server: PeerInfo { name: "d".into(), version: "1".into() },
            protocol_version: 1,
            capabilities: capabilities.iter().map(|capability| capability.to_string()).collect(),
        },
        valid: Ok(()),
    });
    client.initialization = initialization;
    client.ensure_session_open("s", 1).unwrap();
    client
}

#[test]
fn interaction_option_boundaries_and_defaults_are_frozen() {
    let subscription = InteractionSubscriptionOptions::default();
    assert_eq!(subscription.output_capacity(), 64);
    assert_eq!(subscription.replay_page_limit(), 128);
    assert!(InteractionSubscriptionOptions::new(0, 1).is_err());
    assert!(InteractionSubscriptionOptions::new(1, 0).is_err());
    assert!(InteractionSubscriptionOptions::new(4_097, 1).is_err());
    assert!(InteractionSubscriptionOptions::new(1, 257).is_err());
    let exact = InteractionSubscriptionOptions::new(4_096, 256).unwrap();
    assert_eq!(exact.output_capacity(), 4_096);
    assert_eq!(exact.replay_page_limit(), 256);

    let watch = InteractionWatchOptions::default();
    assert_eq!(watch.output_capacity(), 64);
    assert_eq!(watch.replay_page_limit(), 128);
    assert!(InteractionWatchOptions::new(0, 1).is_err());
    assert!(InteractionWatchOptions::new(1, 257).is_err());
    assert!(InteractionWatchOptions::new(4_096, 256).is_ok());
}

#[test]
fn non_opted_session_rejects_all_generic_entrypoints_without_business_rpc() {
    let mut client = ready(&["interactions.v1"]);
    assert_eq!(
        client.require_interaction_session("s").unwrap_err().message(),
        "Invalid configuration: Interactions are not enabled for Session s"
    );
    assert!(matches!(
        client.require_interaction_view("s"),
        Err(InteractionViewError::NotEnabled { thread_id }) if thread_id == "s"
    ));
    assert!(client.subscribe_interaction_events("s", 4, false).is_err());
    client.enable_interactions("s").unwrap();
    assert!(client.require_interaction_session("s").is_ok());
    assert!(client.require_interaction_view("s").is_ok());
    assert_eq!(client.subscribe_interaction_events("s", 4, false).unwrap(), 4);
    let plain = ready(&[]);
    assert!(matches!(
        plain.require_interaction_view("s"),
        Err(InteractionViewError::UnsupportedCapability { capability })
            if capability == "interactions.v1"
    ));
    assert!(!plain.supports_interactions());
}

#[test]
fn dropping_the_last_watcher_releases_its_weak_notification_route() {
    let mut client = ready(&["interactions.v1"]);
    client.enable_interactions("s").unwrap();
    assert_eq!(client.subscribe_interaction_events("s", 4, false).unwrap(), 4);
    assert_eq!(client.subscribe_interaction_events("s", 5, true).unwrap(), 4);
    client.drop_hub(StreamKind::Interaction, "s", 4);
    assert!(client.interaction_event_hubs.is_empty());
    assert!(client.interactions_enabled("s"));
}

#[test]
fn interaction_watchers_are_independent_and_close_with_the_session() {
    let mut client = ready(&["interactions.v1"]);
    client.enable_interactions("s").unwrap();
    let cursor = |seq: u64| Cursor { thread_id: "s".into(), stream_id: "stream".into(), seq };
    let mut watches = Vec::new();
    for (fresh, alive) in [(4, false), (5, true)] {
        assert_eq!(client.subscribe_interaction_events("s", fresh, alive).unwrap(), 4);
        let mut worker: Worker<u64> = Worker::new(StreamKind::Interaction, "s", &cursor(0), 128);
        let barrier: WorkerAction<u64, u64, String> = worker.step(WorkerInput::Page {
            valid: Ok(()),
            page: ReplayPage {
                events: Vec::new(),
                resume_after: cursor(0),
                through: cursor(0),
                has_more: false,
                gap: None,
                closed: false,
            },
        });
        assert!(matches!(barrier, WorkerAction::Listen));
        watches.push((worker, EventReceiver::new(StreamKind::Interaction)));
    }
    let params = NoticeParams::Event { session: "s".into(), valid: Ok(()) };
    let notice: Incoming<u64, ()> =
        Incoming::Notification { method: "session.interaction_event".into(), params };
    assert!(matches!(client.incoming(notice), IncomingStep::Forward { hub: 4 }));
    for (worker, reader) in &mut watches {
        let event = StreamEvent { cursor: cursor(1), closes: false, payload: 10 };
        let offered: WorkerAction<u64, u64, String> = worker.step(WorkerInput::Live(event));
        let WorkerAction::Offer(event) = offered else {
            panic!("{offered:?}");
        };
        let got: Received<u64, String> = reader.wake(Signal::Event(event), None);
        assert!(matches!(got, Received::Event(event) if event.cursor == cursor(1) && event.payload == 10));
        let next: WorkerAction<u64, u64, String> = worker.step(WorkerInput::Sent);
        assert!(matches!(next, WorkerAction::Listen));
    }
    let (claim, attempt) = match client.close_session("s") {
        Ok(Close::Ask { claim, attempt }) => (claim, attempt),
        other => panic!("{other:?}"),
    };
    let answer = CloseReply::Answered { thread_id: "s".into(), closed: true };
    let step = client.settle_close(&claim, attempt, answer);
    assert!(matches!(step, CloseStep::Release { closed: true }));
    let released = client.release_routes("s", claim.id);
    assert_eq!(released.interaction_hub, Some(4));
    client.release_bindings("s", claim.id);
    let outcome = client.finish_close(&claim, true, &Vec::new());
    assert!(close_result(&Some(outcome), true).unwrap());
    for (_, reader) in &mut watches {
        let end: Received<u64, String> = reader.wake(
            Signal::TerminationChanged { hub_gone: false },
            Some(HubTermination::SessionClosed),
        );
        assert!(matches!(end, Received::End));
    }
    assert!(!client.interactions_enabled("s"));
}

#[test]
fn interaction_answers_are_those_that_were_asked_for() {
    assert!(check_interaction_snapshot(Ok(()), "s", "s").is_ok());
    assert_eq!(
        check_interaction_snapshot(Ok(()), "t", "s").unwrap_err().message(),
        "Invalid Interaction projection: Daemon returned an Interaction snapshot for another Session"
    );
    let cursor = Cursor { thread_id: "s".into(), stream_id: "i".into(), seq: 1 };
    assert!(check_interaction_resume(Ok(()), &cursor, "s").is_ok());
    assert_eq!(
        check_interaction_resume(Ok(()), &cursor, "t").unwrap_err().message(),
        "Invalid Interaction cursor: Interaction cursor belongs to another Session"
    );
    assert_eq!(
        check_interaction_response(Ok(()), "x", "q").unwrap_err().message(),
        "Internal SDK error: Daemon returned a different Interaction response identity"
    );
    assert!(check_interaction_response(Ok(()), "q", "q").is_ok());
    assert_eq!(
        check_turn_interactions(Ok(()), "s", "x", "s", "r").unwrap_err().message(),
        "Internal SDK error: Daemon returned an Interaction snapshot for another Run"
    );
    assert!(check_turn_interactions(Ok(()), "s", "r", "s", "r").is_ok());
}

#[test]
fn replay_gap_fetches_and_returns_an_authoritative_resnapshot() {
    match interaction_fault(Fault::Gap(3), Ok(9)) {
        InteractionViewError::ResyncRequired { gap, snapshot } => assert_eq!((gap, snapshot), (3, 9)),
        other => panic!("{other:?}"),
    }
    let failed = InteractionViewError::Sdk(SdkError::EventLagged);
    assert!(matches!(
        interaction_fault(Fault::Gap(3), Err(failed)),
        InteractionViewError::Sdk(SdkError::EventLagged)
    ));
    assert!(matches!(
        interaction_fault(Fault::Projection("p".into()), Ok(9)),
        InteractionViewError::InvalidProjection { message } if message == "p"
    ));
    assert!(matches!(
        interaction_page_error(SdkError::Rpc { code: -32602, message: "bad".into() }),
        InteractionViewError::InvalidCursor { message } if message == "bad"
    ));
}

#[test]
fn stable_interaction_rpc_errors_remain_sdk_rpc_errors() {
    const INTERACTION_CONFLICT: i64 = -32070;
    let mut client = ready(&["interactions.v1"]);
    client.ensure_session_open("session", 2).unwrap();
    client.enable_interactions("session").unwrap();
    assert!(client.require_interaction_session("session").is_ok());
    let access = SessionRequestAccess::Writable("session");
    let id = client.begin_request(access).unwrap();
    client.enlist_request(id, access, 41).unwrap();
    let error =
        RemoteError { code: INTERACTION_CONFLICT, message: "different response".into(), data: () };
    let rejected: Incoming<u64, ()> =
        Incoming::Response { id: RequestId::Number(id), result: None, error: Some(error) };
    let answer = match client.incoming(rejected) {
        IncomingStep::Answer { reply: 41, result } => result,
        _ => panic!("lost"),
    };
    let result =
        client.conclude_request(id, access, "turn.respond_interaction", RequestEnd::Answered(answer));
    assert!(matches!(
        plain_request_error(result.unwrap_err()),
        SdkError::Rpc { code: INTERACTION_CONFLICT, message } if message == "different response"
    ));
}

#[test]
fn other_errors_of_an_interaction_page_are_kept() {
    assert!(matches!(
        interaction_page_error(SdkError::Rpc { code: -32070, message: "m".into() }),
        InteractionViewError::Sdk(SdkError::Rpc { code: -32070, .. })
    ));
}

#[test]
fn approvals_become_generic_responses() {
    let text = |text: &str| serde_json::Value::String(text.into());
    let modified = run_approval_response(
        RunApprovalDecision::ModifyArguments,
        Some(serde_json::Value::Bool(true)),
        Some("use this".into()),
    );
    assert_eq!(modified["decision"], text("modify_arguments"));
    assert_eq!(modified["arguments"], serde_json::Value::Bool(true));
    assert_eq!(modified["feedback"], text("use this"));
    let approved = run_approval_response(RunApprovalDecision::Approve, None, None);
    assert_eq!(approved.as_object().unwrap().len(), 1);
    assert_eq!(approved["decision"], text("approve"));
    let rejected = legacy_approval_response(ApprovalDecision::Reject, Some("no".into()));
    assert_eq!(rejected["decision"], text("reject"));
    assert_eq!(rejected["feedback"], text("no"));
    assert!(rejected.get("arguments").is_none());
}

#[test]
fn typed_approval_uses_generic_only_for_an_opted_in_capable_session() {
    let mut client = ready(&["interactions.v1"]);
    let mut run = client.start_run("s", 1, 7, false).unwrap();
    let event = RunEvent {
        thread_id: "s".into(),
        turn_id: run.turn_id.clone(),
        seq: 1,
        handle: 1,
        payload: RunEventPayload::Stream,
    };
    client.apply_turn_event(7, &mut run, event, Some("q".into()), Room::Available);
    assert!(!client.approves_by_interaction("s"));
    assert!(matches!(client.approval_route("q"), ApprovalRoute::Session(_)));
    client.enable_interactions("s").unwrap();
    match client.approval_route("q") {
        ApprovalRoute::Interaction { session, turn } => {
            assert_eq!((session.as_str(), turn), ("s", run.turn_id.clone()))
        }
        other => panic!("{other:?}"),
    }
}
