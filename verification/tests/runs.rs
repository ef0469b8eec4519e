use whale_sdk::client::ClientState;
use whale_sdk::errors::SdkError;
use whale_sdk::run::{
    check_started, legacy_end, result_lost, LegacyEnd, Room, RunEvent, RunEventPayload,
    RunEventStream, RunReceived, RunSnapshot, RunState,
};
use whale_sdk::requests::{plain_request_error, RemoteError, RequestError};
use whale_sdk::run_routes::{check_run_session, ApprovalRoute, RunPlace};
use whale_sdk::sessions::{Close, CloseReply};

fn delta(seq: u64) -> RunEvent {
    RunEvent {
        thread_id: "s".into(),
        turn_id: "r".into(),
        seq,
        handle: 100 + seq,
        payload: RunEventPayload::Stream,
    }
}

fn snapshot(terminal: bool, last_seq: u64, has_result: bool) -> RunSnapshot {
    RunSnapshot {
        thread_id: "s".into(),
        turn_id: "r".into(),
        terminal,
        last_seq,
        has_result,
        handle: 900,
    }
}

fn finished(seq: u64, last_seq: u64) -> RunEvent {
    RunEvent {
        payload: RunEventPayload::Finished { snapshot: snapshot(true, last_seq, true) },
        ..delta(seq)
    }
}

fn open_client() -> ClientState {
    let mut client = ClientState::new();
    client.ensure_session_open("s", 1).unwrap();
    client
}

#[test]
fn old_duplicate_does_not_move_sequence_backwards() {
    let mut state = RunState::new("s".into(), "r".into());
    let mut delivered = Vec::new();
    for seq in [1, 2, 1, 3] {
        if state.accept(delta(seq), Room::Available).deliver {
            delivered.push(seq);
        }
    }
    assert!(!state.lagged);
    assert_eq!(delivered, vec![1, 2, 3]);
}

#[test]
fn compatibility_collector_accepts_burst_before_start_returns() {
    let mut state = RunState::new("s".into(), "r".into());
    state.buffer_legacy_events();
    for seq in 1..=1000 {
        state.accept(delta(seq), Room::Full);
    }
    assert!(!state.lagged);
    assert_eq!(state.take_legacy_events().len(), 1000);
}

#[test]
fn a_gap_or_a_full_buffer_ends_the_stream() {
    let mut gap = RunState::new("s".into(), "r".into());
    assert!(gap.accept(delta(1), Room::Available).deliver);
    assert!(!gap.accept(delta(3), Room::Available).deliver);
    assert!(gap.lagged && !gap.sender_open);
    let mut full = RunState::new("s".into(), "r".into());
    assert!(!full.accept(delta(1), Room::Full).deliver);
    assert!(full.lagged && !full.sender_open);
    let mut gone = RunState::new("s".into(), "r".into());
    assert!(!gone.accept(delta(1), Room::Closed).deliver);
    assert!(!gone.lagged && !gone.sender_open);
}

#[test]
fn a_run_has_one_final_state() {
    let mut run = RunState::new("s".into(), "r".into());
    assert!(run.result().is_none());
    let accepted = run.accept(finished(1, 1), Room::Available);
    assert!(accepted.deliver && accepted.ends_route);
    assert!(matches!(run.result(), Some(Ok(900))));
    run.fail("too late");
    run.complete(&snapshot(true, 9, false));
    assert!(matches!(run.result(), Some(Ok(900))));
}

#[test]
fn contradictory_ends_fail_the_run() {
    let message = |run: &RunState| match run.result() {
        Some(Err(SdkError::ChannelClosed(message))) => message,
        other => panic!("{other:?}"),
    };
    let mut wrong_seq = RunState::new("s".into(), "r".into());
    wrong_seq.accept(finished(1, 2), Room::Available);
    assert_eq!(message(&wrong_seq), "Invalid terminal event");
    let mut no_result = RunState::new("s".into(), "r".into());
    no_result.complete(&snapshot(true, 1, false));
    assert_eq!(message(&no_result), "Terminal snapshot has no result");
    let mut stranger = RunState::new("s".into(), "r".into());
    stranger.complete(&RunSnapshot { turn_id: "x".into(), ..snapshot(true, 1, true) });
    assert_eq!(message(&stranger), "Snapshot belongs to another run");
    let mut event = RunState::new("s".into(), "r".into());
    event.accept(RunEvent { thread_id: "x".into(), ..delta(1) }, Room::Available);
    assert_eq!(message(&event), "Event belongs to another run");
}

#[test]
fn the_event_stream_is_taken_once_and_reports_lag_once() {
    let mut run = RunState::new("s".into(), "r".into());
    run.events().unwrap();
    assert!(matches!(run.events(), Err(SdkError::AlreadySubscribed)));
    let mut stream = RunEventStream { ended: false };
    assert!(matches!(stream.poll(&run), RunReceived::Wait));
    assert!(matches!(stream.wake(&run, Some(7)), RunReceived::Event(7)));
    run.accept(delta(5), Room::Available);
    assert!(matches!(stream.poll(&run), RunReceived::Failed(SdkError::EventLagged)));
    assert!(matches!(stream.poll(&run), RunReceived::End));
}

#[test]
fn a_failed_run_ends_its_stream_with_the_error() {
    let mut run = RunState::new("s".into(), "r".into());
    run.fail("gone");
    let mut stream = RunEventStream { ended: false };
    match stream.wake(&run, None) {
        RunReceived::Failed(SdkError::ChannelClosed(message)) => assert_eq!(message, "gone"),
        other => panic!("{other:?}"),
    }
    assert!(stream.ended);
    assert!(matches!(result_lost(), SdkError::ChannelClosed(text) if text == "Run result channel closed"));
}

#[test]
fn a_collected_turn_ends_with_one_closing_event() {
    assert!(matches!(legacy_end(true, None), LegacyEnd::TurnCompleted));
    match legacy_end(false, None) {
        LegacyEnd::TurnFailed { code, message } => {
            assert_eq!(code, "cancelled");
            assert_eq!(message, "Run cancelled");
        }
        other => panic!("{other:?}"),
    }
    match legacy_end(false, Some(("e".into(), "m".into()))) {
        LegacyEnd::TurnFailed { code, message } => assert_eq!((code.as_str(), message.as_str()), ("e", "m")),
        other => panic!("{other:?}"),
    }
}

#[test]
fn a_started_run_is_the_one_that_was_asked_for() {
    assert!(check_started("s", "r", "s", "r").is_ok());
    assert!(matches!(
        check_started("s", "x", "s", "r"),
        Err(SdkError::Internal(text)) if text == "Daemon returned a different run identity"
    ));
}

#[test]
fn a_run_is_routed_before_its_start_is_answered() {
    let mut client = open_client();
    let run = client.start_run("s", 1, 7, false).unwrap();
    assert_eq!(run.thread_id, "s");
    assert_eq!(run.turn_id.len(), 36);
    assert_eq!(client.runs.get(&run.turn_id).map(|entry| *entry.value()), Some(7));
    assert_eq!(client.held_run(&run.turn_id), Some(7));
    let other = client.start_run("s", 1, 8, true).unwrap();
    assert_ne!(other.turn_id, run.turn_id);
    assert!(other.legacy_events.is_some() && !other.sender_open);
}

#[test]
fn a_start_that_was_not_accepted_drops_its_route() {
    let mut client = open_client();
    let run = client.start_run("s", 1, 7, false).unwrap();
    assert!(client
        .settle_start(7, &run, Ok(("s".into(), "another".into())))
        .is_err());
    assert!(client.runs.is_empty());
    let run = client.start_run("s", 1, 8, false).unwrap();
    let turn = run.turn_id.clone();
    assert!(client.settle_start(8, &run, Ok(("s".into(), turn.clone()))).is_ok());
    assert!(client.runs.contains_key(&turn));
}

#[test]
fn aborting_start_before_ack_releases_an_unclaimed_run_route() {
    let mut client = open_client();
    let run = client.start_run("s", 1, 7, false).unwrap();
    client.abandon_start(7, &run);
    assert!(client.runs.is_empty());
    client.drop_run(&run.turn_id, 7);
    assert!(client.run_handles.is_empty());
}

#[test]
fn aborting_start_does_not_remove_a_route_claimed_by_a_real_event() {
    let mut client = open_client();
    let mut run = client.start_run("s", 1, 7, false).unwrap();
    let event = RunEvent { turn_id: run.turn_id.clone(), ..delta(1) };
    let accepted = client.apply_turn_event(7, &mut run, event, None, Room::Available);
    assert!(accepted.deliver);
    client.abandon_start(7, &run);
    assert!(client.runs.contains_key(&run.turn_id));
}

#[test]
fn finished_releases_strong_route_but_keeps_held_result_and_buffer() {
    let mut client = open_client();
    let mut run = client.start_run("s", 1, 7, false).unwrap();
    let turn = run.turn_id.clone();
    let event = RunEvent {
        turn_id: turn.clone(),
        payload: RunEventPayload::Finished {
            snapshot: RunSnapshot { turn_id: turn.clone(), ..snapshot(true, 1, true) },
        },
        ..delta(1)
    };
    let accepted = client.apply_turn_event(7, &mut run, event, None, Room::Available);
    assert!(accepted.deliver && accepted.ends_route);
    assert!(client.runs.is_empty() && client.run_sessions.is_empty());
    assert_eq!(client.held_run(&turn), Some(7));
    assert!(matches!(run.result(), Some(Ok(900))));
}

#[test]
fn a_route_that_another_run_took_over_stays() {
    let mut client = open_client();
    let run = client.start_run("s", 1, 7, false).unwrap();
    client.runs.insert(run.turn_id.clone(), 9);
    client.abandon_start(7, &run);
    assert_eq!(client.runs.get(&run.turn_id).map(|entry| *entry.value()), Some(9));
}

#[test]
fn queries_share_one_run_and_the_last_one_drops_an_archived_route() {
    let mut client = open_client();
    assert_eq!(client.locate_run("s", "r", false).unwrap(), RunPlace::Unknown);
    let mut run = client.query_run("s", "r", 7);
    let place = client.locate_run("s", "r", true).unwrap();
    assert_eq!(place, RunPlace::Routed(7));
    client.join_run(place, &mut run);
    run.observe(&snapshot(true, 3, true));
    client.release_run(7, &mut run);
    assert!(client.runs.contains_key("r"));
    client.release_run(7, &mut run);
    assert!(client.runs.is_empty());
    assert!(!run.sender_open);
}

#[test]
fn terminal_query_waits_for_another_pending_query_that_observes_running() {
    let mut client = open_client();
    let mut run = client.query_run("s", "r", 7);
    client.join_run(RunPlace::Routed(7), &mut run);
    run.observe(&snapshot(true, 3, true));
    client.release_run(7, &mut run);
    run.observe(&snapshot(false, 2, false));
    client.release_run(7, &mut run);
    assert!(client.runs.contains_key("r"));
    assert!(run.sender_open);
}

#[test]
fn retry_reacquires_a_query_state_still_held_by_an_incoming_callback() {
    let mut client = open_client();
    let mut run = client.query_run("s", "r", 7);
    client.release_run(7, &mut run);
    assert!(client.runs.is_empty());
    let place = client.locate_run("s", "r", true).unwrap();
    assert_eq!(place, RunPlace::Held(7));
    client.join_run(place, &mut run);
    assert_eq!(client.runs.get("r").map(|entry| *entry.value()), Some(7));
    assert_eq!(client.locate_run("s", "q", true).unwrap(), RunPlace::Unknown);
}

#[test]
fn a_query_for_another_session_is_refused() {
    let mut client = open_client();
    assert!(matches!(
        client.locate_run("unknown", "r", false),
        Err(SdkError::SessionClosed(session)) if session == "unknown"
    ));
    let run = client.query_run("s", "r", 7);
    assert!(check_run_session(&run, "s").is_ok());
    assert!(matches!(
        check_run_session(&run, "t"),
        Err(SdkError::Internal(text)) if text == "Run belongs to another session"
    ));
}

#[test]
fn approvals_are_routed_by_what_is_known_of_them() {
    let mut client = open_client();
    assert!(matches!(client.approval_route("q"), ApprovalRoute::Unscoped));
    let mut run = client.start_run("s", 1, 7, false).unwrap();
    let event = RunEvent { turn_id: run.turn_id.clone(), ..delta(1) };
    client.apply_turn_event(7, &mut run, event, Some("q".into()), Room::Available);
    assert!(matches!(client.approval_route("q"), ApprovalRoute::Session(session) if session == "s"));
}

fn live_run(client: &mut ClientState) -> RunState {
    client.ensure_session_open("s", 1).unwrap();
    client.runs.insert("r".into(), 7);
    client.run_handles.insert("r".into(), 7);
    RunState::new("s".into(), "r".into())
}

fn apply(client: &mut ClientState, run: &mut RunState, event: RunEvent) -> bool {
    client.apply_turn_event(7, run, event, None, Room::Available).deliver
}

fn answer(client: &mut ClientState, run: &mut RunState, reply: &RunSnapshot) {
    run.complete(reply);
    run.observe(reply);
    client.release_run(7, run);
}

#[test]
fn terminal_query_does_not_close_a_live_subscription_before_finished() {
    let mut client = ClientState::new();
    let mut run = live_run(&mut client);
    run.complete(&snapshot(true, 2, true));
    assert!(client.runs.contains_key("r"));
    let mut seen = Vec::new();
    for event in [delta(1), finished(2, 2)] {
        let seq = event.seq;
        if apply(&mut client, &mut run, event) {
            seen.push(seq);
        }
    }
    assert_eq!(seen, vec![1, 2]);
    assert!(!run.sender_open && !run.lagged);
    assert!(matches!(run.result(), Some(Ok(900))));
}

#[test]
fn newly_queried_terminal_has_an_ended_subscription() {
    let mut client = ClientState::new();
    let probe = client.probe_session("s");
    assert_eq!(client.locate_run("s", "r", false).unwrap(), RunPlace::Unknown);
    let mut run = client.query_run("s", "r", 7);
    let reply = snapshot(true, 1, true);
    run.complete(&reply);
    run.observe(&reply);
    client.commit_probe(&probe);
    client.ensure_session_open("s", 1).unwrap();
    client.release_run(7, &mut run);
    client.release_probe(probe);
    assert!(client.runs.is_empty());
    run.events().unwrap();
    let mut events = RunEventStream { ended: false };
    assert!(!run.sender_open);
    assert!(matches!(events.wake(&run, None), RunReceived::End));
}

#[test]
fn cached_handle_queries_are_authoritative_without_overwriting_delivered_result() {
    let mut client = ClientState::new();
    let mut run = live_run(&mut client);
    assert!(apply(&mut client, &mut run, finished(1, 1)));
    let place = client.locate_run("s", "r", true).unwrap();
    assert_eq!(place, RunPlace::Held(7));
    client.join_run(place, &mut run);
    answer(&mut client, &mut run, &snapshot(true, 1, true));
    let place = client.locate_run("s", "r", true).unwrap();
    assert_eq!(place, RunPlace::Held(7));
    client.join_run(place, &mut run);
    let refused = RemoteError { code: -32030, message: "expired".into(), data: () };
    assert!(matches!(
        plain_request_error(RequestError::Remote(refused)),
        SdkError::RunExpired(_)
    ));
    client.release_run(7, &mut run);
    assert!(matches!(run.result(), Some(Ok(900))));
}

#[test]
fn rejected_query_preserves_existing_live_route_but_drops_new_query_state() {
    let mut client = ClientState::new();
    let mut run = live_run(&mut client);
    let lifecycle = client.sessions.get("s").map(|entry| entry.value().id);
    let place = client.locate_run("s", "r", true).unwrap();
    assert_eq!(place, RunPlace::Routed(7));
    client.join_run(place, &mut run);
    client.release_run(7, &mut run);
    assert_eq!(client.runs.len(), 1);
    let mut missing = client.query_run("s", "missing", 8);
    client.release_run(8, &mut missing);
    client.drop_run("missing", 8);
    assert_eq!(client.runs.len(), 1);
    assert!(client.runs.contains_key("r"));
    assert_eq!(client.run_handles.len(), 1);
    assert_eq!(client.sessions.get("s").map(|entry| entry.value().id), lifecycle);
    assert_eq!(client.session_event_hubs.get("s").map(|entry| *entry.value()), Some(1));
    assert!(apply(&mut client, &mut run, finished(1, 1)));
    assert!(matches!(run.result(), Some(Ok(900))));
}

#[test]
fn abandoning_new_query_releases_its_strong_route() {
    let mut client = ClientState::new();
    let probe = client.probe_session("s");
    let mut missing = client.query_run("s", "missing", 7);
    assert!(client.runs.contains_key("missing"));
    client.release_run(7, &mut missing);
    client.drop_run("missing", 7);
    client.release_probe(probe);
    assert!(client.runs.is_empty() && client.run_handles.is_empty());
    assert!(client.pending.is_empty());
}

#[test]
fn failed_concurrent_unknown_queries_remove_only_their_provisional_session() {
    let mut client = open_client();
    let known = client.sessions.get("s").map(|entry| entry.value().id);
    let first = client.probe_session("unknown-session");
    let mut missing_a = client.query_run("unknown-session", "missing-a", 8);
    let second = client.probe_session("unknown-session");
    let mut missing_b = client.query_run("unknown-session", "missing-b", 9);
    client.release_run(8, &mut missing_a);
    client.release_probe(first);
    assert!(client.sessions.contains_key("unknown-session"));
    client.release_run(9, &mut missing_b);
    client.release_probe(second);
    assert!(!client.sessions.contains_key("unknown-session"));
    assert!(!client.session_event_hubs.contains_key("unknown-session"));
    assert_eq!(client.sessions.get("s").map(|entry| entry.value().id), known);
    assert_eq!(client.session_event_hubs.get("s").map(|entry| *entry.value()), Some(1));
}

#[test]
fn successful_unknown_query_commits_the_session_against_a_concurrent_failure() {
    let mut client = ClientState::new();
    let session = "discovered-session";
    let success = client.probe_session(session);
    let mut found = client.query_run(session, "found", 7);
    let failure = client.probe_session(session);
    let mut missing = client.query_run(session, "missing", 8);
    let reply = RunSnapshot {
        thread_id: session.into(),
        turn_id: "found".into(),
        ..snapshot(false, 0, false)
    };
    found.complete(&reply);
    found.observe(&reply);
    client.commit_probe(&success);
    client.ensure_session_open(session, 2).unwrap();
    client.release_run(7, &mut found);
    client.release_probe(success);
    client.release_run(8, &mut missing);
    client.release_probe(failure);
    assert!(client.sessions.contains_key(session));
    assert!(client.session_event_hubs.contains_key(session));
    assert!(client.runs.contains_key("found"));
}

#[test]
fn one_failed_or_abandoned_query_cannot_break_another_pending_query() {
    let mut client = open_client();
    let mut run = client.query_run("s", "r", 7);
    let place = client.locate_run("s", "r", true).unwrap();
    client.join_run(place, &mut run);
    client.release_run(7, &mut run);
    answer(&mut client, &mut run, &snapshot(false, 0, false));
    assert!(client.runs.contains_key("r"));
    assert!(apply(&mut client, &mut run, finished(1, 1)));
    assert!(matches!(run.result(), Some(Ok(900))));
    assert!(client.runs.is_empty());
}

#[test]
fn real_stream_before_first_query_reply_makes_the_subscription_live() {
    let mut client = open_client();
    let mut run = client.query_run("s", "r", 7);
    assert!(apply(&mut client, &mut run, delta(1)));
    answer(&mut client, &mut run, &snapshot(true, 2, true));
    assert!(client.runs.contains_key("r") && run.sender_open);
    assert!(apply(&mut client, &mut run, finished(2, 2)));
    assert!(client.runs.is_empty() && !run.sender_open && !run.lagged);
}

#[test]
fn closed_session_retains_completed_results_and_buffered_events_but_not_authoritative_queries() {
    let mut client = ClientState::new();
    client.ensure_session_open("a", 1).unwrap();
    let mut done = client.query_run("a", "done", 7);
    let event = RunEvent {
        thread_id: "a".into(),
        turn_id: "done".into(),
        payload: RunEventPayload::Finished {
            snapshot: RunSnapshot {
                thread_id: "a".into(),
                turn_id: "done".into(),
                ..snapshot(true, 1, true)
            },
        },
        ..delta(1)
    };
    assert!(done.accept(event, Room::Available).deliver);
    done.events().unwrap();
    let mut pending = client.query_run("a", "pending", 8);
    let (claim, attempt) = match client.close_session("a") {
        Ok(Close::Ask { claim, attempt }) => (claim, attempt),
        other => panic!("{other:?}"),
    };
    let reply = CloseReply::Answered { thread_id: "a".into(), closed: true };
    client.settle_close(&claim, attempt, reply);
    client.release_routes("a", claim.id);
    let mut released = client.release_bindings("a", claim.id).runs;
    released.sort();
    assert_eq!(released, vec![("done".to_string(), 7), ("pending".to_string(), 8)]);
    assert!(matches!(client.finish_close(&claim, true, &Vec::new()), Ok(true)));
    let ended = SdkError::SessionClosed("a".into()).message();
    done.fail(&ended);
    pending.fail(&ended);
    assert!(matches!(done.result(), Some(Ok(900))));
    let mut events = RunEventStream { ended: false };
    assert!(matches!(events.wake(&done, Some(101)), RunReceived::Event(101)));
    assert!(matches!(events.wake(&done, None), RunReceived::End));
    match pending.result() {
        Some(Err(error)) => assert!(error.message().contains("SessionClosed")),
        other => panic!("{other:?}"),
    }
    assert!(matches!(
        client.locate_run("a", "done", true),
        Err(SdkError::SessionClosed(session)) if session == "a"
    ));
    assert!(client.check_existing_session_open("a").is_err());
    assert!(client.runs.is_empty());
}
