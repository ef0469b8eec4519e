use whale_sdk::client::ClientState;
use whale_sdk::errors::SdkError;
use whale_sdk::session_management::SessionLifecycleState;
use whale_sdk::sessions::{
    close_result, Close, CloseFailure, CloseReply, CloseStep, SessionPhase, SessionProbe,
};
use whale_sdk::stream::StreamKind;

fn ask(client: &mut ClientState, session: &str) -> (SessionProbe, u64) {
    match client.close_session(session) {
        Ok(Close::Ask { claim, attempt }) => (claim, attempt),
        other => panic!("{other:?}"),
    }
}

fn phase(client: &ClientState, session: &str) -> SessionPhase {
    client.sessions.get(session).unwrap().phase
}

fn answered(thread_id: &str, closed: bool) -> CloseReply {
    CloseReply::Answered { thread_id: thread_id.into(), closed }
}

#[test]
fn session_preparation_installs_the_hub_before_the_business_request() {
    let mut state = ClientState::new();
    state.prepare_session("new-session", 5).unwrap();
    assert!(state.session_event_hubs.contains_key("new-session"));
}

#[test]
fn a_prepared_session_opens_once() {
    let mut client = ClientState::new();
    let record = client.prepare_session("s", 5).unwrap();
    assert!(client.check_session_open("s").is_err());
    assert!(client.prepare_session("s", 6).is_err());
    assert!(client.accept_prepared_session("s", record.id + 1, &mut None).is_err());
    client
        .accept_prepared_session("s", record.id, &mut Some((9, vec!["lookup".into()])))
        .unwrap();
    assert!(client.accept_prepared_session("s", record.id, &mut None).is_err());
    assert!(client.check_existing_session_open("s").is_ok());
    assert_eq!(client.take_attached_pack_owner("s"), Some(9));
    assert_eq!(client.take_attached_pack_owner("s"), None);
}

#[test]
fn pack_owned_names_cannot_be_registered() {
    let mut client = ClientState::new();
    let record = client.prepare_session("s", 5).unwrap();
    client
        .accept_prepared_session("s", record.id, &mut Some((9, vec!["lookup".into()])))
        .unwrap();
    assert!(client.ensure_dynamic_tool_name_available("s", "other").is_ok());
    match client.ensure_dynamic_tool_name_available("s", "lookup") {
        Err(SdkError::InvalidConfiguration(text)) => {
            assert_eq!(text, "Tool 'lookup' is owned by a ToolPack for Session s")
        }
        other => panic!("{other:?}"),
    }
    assert!(matches!(
        client.ensure_dynamic_tool_name_available("unknown", "x"),
        Err(SdkError::SessionClosed(_))
    ));
}

#[test]
fn a_rejected_preparation_leaves_no_trace() {
    let mut client = ClientState::new();
    let record = client.prepare_session("s", 5).unwrap();
    assert_eq!(client.reject_prepared_session("s", record.id), Some(5));
    assert!(client.sessions.is_empty() && client.session_event_hubs.is_empty());
    let later = client.prepare_session("s", 6).unwrap();
    assert_ne!(later.id, record.id);
    client.reject_prepared_session("s", record.id);
    assert!(client.sessions.contains_key("s"));
}

#[test]
fn a_preparation_that_was_not_accepted_is_closed() {
    let mut client = ClientState::new();
    client.prepare_session("s", 5).unwrap();
    assert_eq!(client.finish_preparation("s", false).unwrap(), Some(5));
    assert_eq!(phase(&client, "s"), SessionPhase::Closed);
    assert!(client.finish_preparation("s", true).is_err());
    client.prepare_session("t", 6).unwrap();
    assert_eq!(client.finish_preparation("t", true).unwrap(), None);
    assert_eq!(phase(&client, "t"), SessionPhase::Open);
}

#[test]
fn close_fences_clones_cleans_only_target_and_is_idempotent() {
    let mut client = ClientState::new();
    for session in ["a", "b"] {
        client.ensure_session_open(session, 1).unwrap();
        client.tools.insert((session.into(), "t".into()), 4);
        client.pending.insert(session.into(), 11);
        client.pending_sessions.insert(session.into(), session.into());
        client.runs.insert(format!("run-{session}"), 12);
        client.run_sessions.insert(format!("run-{session}"), session.into());
        client.approval_sessions.insert(format!("ask-{session}"), session.into());
        client.approval_turns.insert(format!("ask-{session}"), format!("run-{session}"));
    }
    let (claim, attempt) = ask(&mut client, "a");
    assert!(client.check_existing_session_open("a").is_err());
    let step = client.settle_close(&claim, attempt, answered("a", true));
    assert!(matches!(step, CloseStep::Release { closed: true }));
    let routes = client.release_routes("a", claim.id);
    assert_eq!(routes.session_hub, Some(1));
    assert_eq!(routes.replies, vec![("a".to_string(), 11)]);
    let bindings = client.release_bindings("a", claim.id);
    assert_eq!(bindings.runs, vec![("run-a".to_string(), 12)]);
    let outcome = client.finish_close(&claim, true, &Vec::new());
    assert!(close_result(&Some(outcome), true).unwrap());
    client.release_probe(claim);
    assert_eq!(phase(&client, "a"), SessionPhase::Closed);
    assert!(matches!(client.close_session("a"), Ok(Close::Done)));
    assert_eq!(client.tools.len(), 1);
    assert!(client.pending.contains_key("b") && client.runs.contains_key("run-b"));
    assert!(client.approval_turns.contains_key("ask-b"));
    assert!(!client.approval_turns.contains_key("ask-a"));
    assert!(client.check_existing_session_open("b").is_ok());
}

#[test]
fn closes_share_one_attempt() {
    let mut client = ClientState::new();
    client.ensure_session_open("s", 1).unwrap();
    let (first, attempt) = ask(&mut client, "s");
    match client.close_session("s") {
        Ok(Close::Wait { claim, attempt: joined }) => {
            assert_eq!((claim.id, joined), (first.id, attempt));
        }
        other => panic!("{other:?}"),
    }
    assert!(!close_result(&Some(Ok(true)), false).unwrap());
    assert!(matches!(
        close_result(&None, true),
        Err(SdkError::ChannelClosed(text)) if text == "Session close task stopped"
    ));
}

#[test]
fn explicit_unsupported_close_restores_open_and_preserves_bindings() {
    for code in [-32601, -32602] {
        let mut client = ClientState::new();
        client.ensure_session_open("s", 1).unwrap();
        client.tools.insert(("s".into(), "t".into()), 4);
        let (claim, attempt) = ask(&mut client, "s");
        let error = SdkError::Rpc { code, message: "no".into() };
        match client.settle_close(&claim, attempt, CloseReply::Failed(error)) {
            CloseStep::Reopen(failure) => {
                assert!(matches!(failure.sdk(), SdkError::Rpc { code: seen, .. } if seen == code))
            }
            other => panic!("{other:?}"),
        }
        assert_eq!(phase(&client, "s"), SessionPhase::Open);
        assert_eq!(client.tools.len(), 1);
    }
}

#[test]
fn internal_rpc_close_error_cannot_reopen_a_possibly_mutated_session() {
    let mut client = ClientState::new();
    client.ensure_session_open("s", 1).unwrap();
    let (claim, attempt) = ask(&mut client, "s");
    let error = SdkError::Rpc { code: -32603, message: "boom".into() };
    match client.settle_close(&claim, attempt, CloseReply::Failed(error)) {
        CloseStep::GiveUp(failure) => match failure.sdk() {
            SdkError::ChannelClosed(text) => assert_eq!(
                text,
                "Session close outcome unknown: RPC error (code -32603): boom"
            ),
            other => panic!("{other:?}"),
        },
        other => panic!("{other:?}"),
    }
    assert_eq!(phase(&client, "s"), SessionPhase::Closed);
}

#[test]
fn ambiguous_close_result_closes_the_connection() {
    let mut client = ClientState::new();
    client.ensure_session_open("s", 1).unwrap();
    let (claim, attempt) = ask(&mut client, "s");
    match client.settle_close(&claim, attempt, answered("another", true)) {
        CloseStep::GiveUp(CloseFailure::Unknown(text)) => assert_eq!(
            text,
            "Session close outcome unknown: Daemon returned a different session identity"
        ),
        other => panic!("{other:?}"),
    }
}

#[test]
fn unknown_close_reporting_false_does_not_commit_a_fake_closed_session() {
    let mut client = ClientState::new();
    let (claim, attempt) = ask(&mut client, "never-seen");
    client.settle_close(&claim, attempt, answered("never-seen", false));
    client.release_routes("never-seen", claim.id);
    client.release_bindings("never-seen", claim.id);
    let outcome = client.finish_close(&claim, false, &Vec::new());
    assert!(!close_result(&Some(outcome), true).unwrap());
    client.release_probe(claim);
    assert!(client.sessions.is_empty());
}

#[test]
fn concurrent_failed_unknown_close_does_not_leave_a_provisional_lifecycle() {
    let mut client = ClientState::new();
    let (first, attempt) = ask(&mut client, "x");
    let second = match client.close_session("x") {
        Ok(Close::Wait { claim, .. }) => claim,
        other => panic!("{other:?}"),
    };
    let error = SdkError::Rpc { code: -32602, message: "unknown".into() };
    client.settle_close(&first, attempt, CloseReply::Failed(error));
    client.release_probe(first);
    assert!(client.sessions.contains_key("x"));
    client.release_probe(second);
    assert!(client.sessions.is_empty());
}

#[test]
fn a_session_that_is_known_survives_a_failed_probe() {
    let mut client = ClientState::new();
    let probe = client.probe_session("s");
    assert!(probe.counted);
    client.commit_probe(&probe);
    client.release_probe(probe);
    assert!(client.sessions.contains_key("s"));
    let again = client.probe_session("s");
    assert!(!again.counted);
    client.release_probe(again);
    assert!(client.sessions.contains_key("s"));
}

#[test]
fn pack_failures_are_reported_by_a_close() {
    let mut client = ClientState::new();
    client.ensure_session_open("s", 1).unwrap();
    let (claim, attempt) = ask(&mut client, "s");
    client.settle_close(&claim, attempt, answered("s", true));
    let outcome = client.finish_close(&claim, true, &vec!["p: x".into(), "q: y".into()]);
    match close_result(&Some(outcome), true) {
        Err(SdkError::Internal(text)) => assert_eq!(
            text,
            "Session s closed with ToolPack cleanup failures: p: x; q: y"
        ),
        other => panic!("{other:?}"),
    }
}

#[test]
fn a_session_in_preparation_cannot_be_closed() {
    let mut client = ClientState::new();
    client.prepare_session("s", 1).unwrap();
    assert!(matches!(client.close_session("s"), Err(SdkError::SessionClosed(_))));
    assert_eq!(phase(&client, "s"), SessionPhase::Preparing);
}

#[test]
fn managed_views_see_how_far_a_session_has_come() {
    let mut client = ClientState::new();
    assert_eq!(client.session_lifecycle_v2("s"), None);
    client.ensure_session_open("s", 1).unwrap();
    assert_eq!(client.session_lifecycle_v2("s"), Some(SessionLifecycleState::Open));
    ask(&mut client, "s");
    assert_eq!(client.session_lifecycle_v2("s"), Some(SessionLifecycleState::Closing));
    client.disconnect("gone");
    assert_eq!(client.session_lifecycle_v2("s"), Some(SessionLifecycleState::Closed));
}

#[test]
fn a_lost_connection_ends_everything_once() {
    let mut client = ClientState::new();
    client.ensure_session_open("s", 1).unwrap();
    client.pending.insert("7".into(), 70);
    client.runs.insert("r".into(), 71);
    client.tool_callbacks.insert("c".into(), 72);
    let ended = client.disconnect("Client closed").unwrap();
    assert_eq!(ended.replies, vec![("7".to_string(), 70)]);
    assert_eq!(ended.runs, vec![("r".to_string(), 71)]);
    assert_eq!(ended.tool_callbacks, vec![("c".to_string(), 72)]);
    assert_eq!(ended.session_hubs, vec![("s".to_string(), 1)]);
    assert!(matches!(ended.error(), SdkError::ChannelClosed(text) if text == "Client closed"));
    assert!(client.disconnect("again").is_none());
    assert!(client.pending.is_empty() && client.runs.is_empty() && client.tool_callbacks.is_empty());
    assert!(matches!(
        client.check_existing_session_open("s"),
        Err(SdkError::ChannelClosed(text)) if text == "Client is closed"
    ));
    assert!(matches!(client.close_session("s"), Err(SdkError::ChannelClosed(_))));
}

#[test]
fn dropping_the_last_v2_watcher_releases_its_notification_route() {
    let mut client = ClientState::new();
    let hub = client.subscribe_session_events_v2("s", 3, false).unwrap();
    assert_eq!(hub, 3);
    assert_eq!(client.subscribe_session_events_v2("s", 4, true).unwrap(), 3);
    assert_eq!(client.route_event(StreamKind::Management, "s", Ok(())).unwrap(), Some(3));
    client.drop_hub(StreamKind::Management, "s", 4);
    assert!(client.session_event_hubs_v2.contains_key("s"));
    client.drop_hub(StreamKind::Management, "s", 3);
    assert!(client.session_event_hubs_v2.is_empty());
    assert_eq!(client.route_event(StreamKind::Management, "s", Ok(())).unwrap(), None);
    assert_eq!(client.subscribe_session_events_v2("s", 5, false).unwrap(), 5);
}

#[test]
fn a_hub_that_took_over_a_route_survives_the_old_one() {
    let mut client = ClientState::new();
    client.subscribe_session_events_v2("s", 3, false).unwrap();
    assert_eq!(client.subscribe_session_events_v2("s", 4, false).unwrap(), 4);
    client.drop_hub(StreamKind::Management, "s", 3);
    assert_eq!(client.session_event_hubs_v2.get("s").map(|entry| *entry.value()), Some(4));
}

#[test]
fn a_closed_session_can_be_looked_at_but_not_followed() {
    let mut client = ClientState::new();
    client.prepare_session("s", 1).unwrap();
    client.finish_preparation("s", false).unwrap();
    assert!(client.subscribe_session_events("s", 2).is_err());
    assert!(client.ensure_session_viewable().is_ok());
    assert!(client.subscribe_session_events_v2("s", 3, false).is_ok());
    client.disconnect("gone");
    assert!(client.subscribe_session_events_v2("s", 3, false).is_err());
}
