use whale_sdk::errors::SdkError;
use whale_sdk::protocol::{InitializeResult, PeerInfo, ProtocolLimits};
use whale_sdk::receiver::{EventReceiver, HubTermination, Received, Signal};
use whale_sdk::session_management::{
    check_writable, SessionLifecycleState, SessionManagementError,
};
use whale_sdk::session_views::{
    check_cursor, check_history_limit, check_replay, check_snapshot, replay_page_error, session_fault, ReplayGap,
    RunEventSubscription, SessionPayload, SessionViewError, SessionWatchOptions,
    SubscriptionOptions,
};
use whale_sdk::stream::{
    check_page, is_next_cursor, same_cursor, Cursor, Fault, ReplayPage, StreamEvent, StreamKind, Worker,
    WorkerAction, WorkerInput, WorkerPhase,
};

type Input = WorkerInput<u64, u64, String>;
type Action = WorkerAction<u64, u64, String>;

const LIMITS: ProtocolLimits =
    ProtocolLimits { list_page: 64, history_page: 128, history_window: 256, replay_page: 256 };

fn cursor(seq: u64) -> Cursor {
    Cursor { thread_id: "session".into(), stream_id: "stream".into(), seq }
}

fn event(seq: u64) -> StreamEvent<u64> {
    StreamEvent { cursor: cursor(seq), closes: false, payload: seq * 10 }
}

fn page(from: u64, to: u64, through: u64) -> Input {
    WorkerInput::Page {
        valid: Ok(()),
        page: ReplayPage {
            events: (from..=to).map(event).collect(),
            resume_after: cursor(to),
            through: cursor(through),
            has_more: to < through,
            gap: None,
            closed: false,
        },
    }
}

fn empty_page(at: u64) -> Input {
    page(at + 1, at, at)
}

fn gap_page(at: u64, through: u64, gap: u64) -> Input {
    match page(at + 1, at, through) {
        WorkerInput::Page { valid, page } => WorkerInput::Page {
            valid,
            page: ReplayPage { has_more: false, gap: Some(gap), ..page },
        },
        other => other,
    }
}

fn step(worker: &mut Worker<u64>, input: Input) -> Action {
    worker.step(input)
}

fn drain(worker: &mut Worker<u64>, mut action: Action, seen: &mut Vec<u64>) -> Action {
    while let WorkerAction::Offer(event) = action {
        seen.push(event.cursor.seq);
        action = step(worker, WorkerInput::Sent);
    }
    action
}

fn feed(worker: &mut Worker<u64>, input: Input, seen: &mut Vec<u64>) -> Action {
    let action = step(worker, input);
    drain(worker, action, seen)
}

fn asked(action: Action) -> (u64, Option<u64>, u32) {
    match action {
        WorkerAction::Request(request) => {
            (request.after.seq, request.through.map(|through| through.seq), request.limit)
        }
        other => panic!("{other:?}"),
    }
}

#[test]
fn cursors_follow_one_another_in_one_stream() {
    assert!(is_next_cursor(&cursor(1), &cursor(2)));
    assert!(!is_next_cursor(&cursor(1), &cursor(3)));
    assert!(!is_next_cursor(&cursor(u64::MAX), &cursor(0)));
    let other = Cursor { stream_id: "old".into(), ..cursor(2) };
    assert!(!is_next_cursor(&cursor(1), &other));
    assert!(same_cursor(&cursor(4), &cursor(4)) && !same_cursor(&cursor(2), &other));
}

#[test]
fn subscribe_reuses_fixed_through_and_merges_concurrent_live_once() {
    let mut worker: Worker<u64> = Worker::new(StreamKind::Session, "session", &cursor(0), 128);
    let first = worker.first_request();
    assert_eq!((first.after, first.through, first.limit), (cursor(0), None, 128));
    let mut seen = Vec::new();
    let second = feed(&mut worker, page(1, 1, 3), &mut seen);
    assert_eq!(asked(second), (1, Some(3), 128));
    let action = feed(&mut worker, page(2, 3, 3), &mut seen);
    assert!(matches!(action, WorkerAction::Listen));
    for live in [4, 4] {
        let action = feed(&mut worker, WorkerInput::Live(event(live)), &mut seen);
        assert!(matches!(action, WorkerAction::Listen));
    }
    assert_eq!(seen, vec![1, 2, 3, 4]);
}

#[test]
fn watch_routes_an_event_received_before_the_snapshot_response_once() {
    let mut worker: Worker<u64> = Worker::new(StreamKind::Session, "session", &cursor(1), 128);
    let barrier = worker.first_request();
    assert_eq!((barrier.after, barrier.through), (cursor(1), None));
    let mut seen = Vec::new();
    for input in [page(2, 2, 2), WorkerInput::Live(event(2)), WorkerInput::Live(event(3))] {
        assert!(matches!(feed(&mut worker, input, &mut seen), WorkerAction::Listen));
    }
    assert_eq!(seen, vec![2, 3]);
    let mut reader = EventReceiver::new(StreamKind::Session);
    for seq in seen {
        let got: Received<u64, String> = reader.wake(Signal::Event(event(seq)), None);
        assert!(matches!(got, Received::Event(event) if event.cursor == cursor(seq)));
        assert_eq!(reader.last_received(), Some(&cursor(seq)));
    }
}

#[test]
fn watch_replays_a_journaled_event_when_the_live_notification_is_missing() {
    let mut worker: Worker<u64> = Worker::new(StreamKind::Session, "session", &cursor(1), 128);
    let barrier = worker.first_request();
    assert_eq!((barrier.after, barrier.through), (cursor(1), None));
    let mut seen = Vec::new();
    assert!(matches!(feed(&mut worker, page(2, 2, 2), &mut seen), WorkerAction::Listen));
    assert_eq!(seen, vec![2]);
}

#[test]
fn snapshot_barrier_merges_live_and_replay_once_in_order() {
    let mut worker: Worker<u64> = Worker::new(StreamKind::Interaction, "session", &cursor(1), 128);
    let barrier = worker.first_request();
    assert_eq!((barrier.after.seq, barrier.limit), (1, 128));
    let mut seen = Vec::new();
    for input in [page(2, 2, 2), WorkerInput::Live(event(2)), WorkerInput::Live(event(3))] {
        assert!(matches!(feed(&mut worker, input, &mut seen), WorkerAction::Listen));
    }
    assert_eq!(seen, vec![2, 3]);
}

#[test]
fn replay_pages_keep_one_fixed_high_watermark_and_merge_later_live_once() {
    let mut worker: Worker<u64> = Worker::new(StreamKind::Interaction, "session", &cursor(0), 1);
    let mut seen = Vec::new();
    let second = feed(&mut worker, page(1, 1, 2), &mut seen);
    assert_eq!(asked(second), (1, Some(2), 1));
    for input in [page(2, 2, 2), WorkerInput::Live(event(2)), WorkerInput::Live(event(3))] {
        assert!(matches!(feed(&mut worker, input, &mut seen), WorkerAction::Listen));
    }
    assert_eq!(seen, vec![1, 2, 3]);
}

#[test]
fn a_non_contiguous_live_event_recovers_through_fixed_replay() {
    let mut worker: Worker<u64> = Worker::new(StreamKind::Interaction, "session", &cursor(0), 128);
    let mut seen = Vec::new();
    assert!(matches!(feed(&mut worker, empty_page(0), &mut seen), WorkerAction::Listen));
    let replay = feed(&mut worker, WorkerInput::Live(event(2)), &mut seen);
    assert_eq!(asked(replay), (0, None, 128));
    assert!(matches!(feed(&mut worker, page(1, 2, 2), &mut seen), WorkerAction::Listen));
    assert_eq!(seen, vec![1, 2]);
}

#[test]
fn v2_watch_installs_route_before_snapshot_and_merges_replay_once() {
    let mut worker: Worker<u64> = Worker::new(StreamKind::Management, "session", &cursor(1), 128);
    let replay = worker.first_request();
    assert_eq!((replay.after, replay.through), (cursor(1), None));
    let mut seen = Vec::new();
    for input in [page(2, 2, 2), WorkerInput::Live(event(2)), WorkerInput::Live(event(3))] {
        assert!(matches!(feed(&mut worker, input, &mut seen), WorkerAction::Listen));
    }
    assert_eq!(seen, vec![2, 3]);
}

#[test]
fn v2_replay_keeps_fixed_through_and_repairs_output_and_hub_lag() {
    let mut worker: Worker<u64> = Worker::new(StreamKind::Management, "session", &cursor(0), 128);
    let mut seen = Vec::new();
    let second = feed(&mut worker, page(1, 1, 3), &mut seen);
    assert_eq!(asked(second), (1, Some(3), 128));
    for input in [page(2, 3, 3), WorkerInput::Live(event(4)), WorkerInput::Live(event(5))] {
        assert!(matches!(feed(&mut worker, input, &mut seen), WorkerAction::Listen));
    }
    assert!(matches!(step(&mut worker, WorkerInput::Live(event(6))), WorkerAction::Offer(_)));
    seen.push(6);
    assert!(matches!(step(&mut worker, WorkerInput::Sent), WorkerAction::Listen));
    assert_eq!(asked(step(&mut worker, WorkerInput::Lagged)), (6, None, 128));
    let action = feed(&mut worker, page(7, 74, 74), &mut seen);
    assert!(matches!(action, WorkerAction::Listen));
    for stale in 11..=74 {
        let action = feed(&mut worker, WorkerInput::Live(event(stale)), &mut seen);
        assert!(matches!(action, WorkerAction::Listen));
    }
    assert_eq!(seen, (1..=74).collect::<Vec<u64>>());
}

#[test]
fn v2_subscribers_are_independent_and_drop_stops_only_its_worker() {
    let mut first: Worker<u64> = Worker::new(StreamKind::Management, "session", &cursor(0), 128);
    let mut second: Worker<u64> = Worker::new(StreamKind::Management, "session", &cursor(0), 128);
    let mut seen = Vec::new();
    assert!(matches!(step(&mut first, empty_page(0)), WorkerAction::Listen));
    assert!(matches!(step(&mut first, WorkerInput::Live(event(1))), WorkerAction::Offer(_)));
    assert!(matches!(step(&mut first, WorkerInput::NotSent), WorkerAction::Stop));
    for input in [empty_page(0), WorkerInput::Live(event(1)), WorkerInput::Live(event(2))] {
        assert!(matches!(feed(&mut second, input, &mut seen), WorkerAction::Listen));
    }
    assert_eq!(seen, vec![1, 2]);
}

#[test]
fn an_unpolled_subscriber_does_not_delay_an_independent_subscriber() {
    let mut slow: Worker<u64> = Worker::new(StreamKind::Session, "session", &cursor(0), 128);
    let mut fast: Worker<u64> = Worker::new(StreamKind::Session, "session", &cursor(0), 128);
    let mut seen = Vec::new();
    assert!(matches!(step(&mut slow, empty_page(0)), WorkerAction::Listen));
    assert!(matches!(step(&mut slow, WorkerInput::Live(event(1))), WorkerAction::Offer(_)));
    for input in [empty_page(0), WorkerInput::Live(event(1)), WorkerInput::Live(event(2))] {
        assert!(matches!(feed(&mut fast, input, &mut seen), WorkerAction::Listen));
    }
    assert_eq!(seen, vec![1, 2]);
    assert_eq!(slow.phase, WorkerPhase::OfferingLive);
}

#[test]
fn close_response_forces_v2_replay_and_view_remains_read_only() {
    let mut worker: Worker<u64> = Worker::new(StreamKind::Management, "session", &cursor(0), 128);
    let mut seen = Vec::new();
    assert!(matches!(feed(&mut worker, empty_page(0), &mut seen), WorkerAction::Listen));
    assert_eq!(asked(step(&mut worker, WorkerInput::Nudged)), (0, None, 128));
    let closed = match page(1, 2, 2) {
        WorkerInput::Page { valid, mut page } => {
            page.events[1].closes = true;
            WorkerInput::Page { valid, page: ReplayPage { closed: true, ..page } }
        }
        other => other,
    };
    let action = feed(&mut worker, closed, &mut seen);
    assert!(matches!(action, WorkerAction::StopAndForgetHub));
    assert_eq!(seen, vec![1, 2]);
    assert!(matches!(
        check_writable(Some(SessionLifecycleState::Closed)),
        Err(SessionManagementError::SessionNotOpen { lifecycle: SessionLifecycleState::Closed })
    ));
}
#[test]
fn output_backlog_and_hub_lag_replay_each_event_once() {
    let mut worker: Worker<u64> = Worker::new(StreamKind::Session, "session", &cursor(0), 128);
    let mut seen = Vec::new();
    for input in [empty_page(0), WorkerInput::Live(event(1))] {
        assert!(matches!(feed(&mut worker, input, &mut seen), WorkerAction::Listen));
    }
    assert!(matches!(step(&mut worker, WorkerInput::Live(event(2))), WorkerAction::Offer(_)));
    seen.push(2);
    assert!(matches!(step(&mut worker, WorkerInput::Sent), WorkerAction::Listen));
    assert_eq!(asked(step(&mut worker, WorkerInput::Lagged)), (2, None, 128));
    let action = feed(&mut worker, page(3, 70, 70), &mut seen);
    assert!(matches!(action, WorkerAction::Listen));
    assert_eq!(seen, (1..=70).collect::<Vec<u64>>());
    for live in 7..=71 {
        let action = feed(&mut worker, WorkerInput::Live(event(live)), &mut seen);
        assert!(matches!(action, WorkerAction::Listen));
    }
    assert_eq!(seen, (1..=71).collect::<Vec<u64>>());
}
#[test]
fn a_gap_during_lag_recovery_is_emitted_once_and_ends_the_stream() {
    let mut worker: Worker<u64> = Worker::new(StreamKind::Session, "session", &cursor(0), 128);
    assert!(matches!(step(&mut worker, empty_page(0)), WorkerAction::Listen));
    assert_eq!(asked(step(&mut worker, WorkerInput::Live(event(2)))), (0, None, 128));
    let action = step(&mut worker, gap_page(0, 2, 77));
    assert!(matches!(action, WorkerAction::Report(Fault::Gap(77))));
    assert_eq!(worker.phase, WorkerPhase::Ended);
    let mut reader = EventReceiver::new(StreamKind::Session);
    let failed: Received<u64, String> = reader.wake(Signal::Failed("resync".into()), None);
    assert!(matches!(failed, Received::Failed(error) if error == "resync"));
    let end: Received<u64, String> = reader.poll(None);
    assert!(matches!(end, Received::End));
}
#[test]
fn inconsistent_pages_end_the_stream() {
    let text = |action: Action| match action {
        WorkerAction::Report(Fault::Projection(text)) => text,
        other => panic!("{other:?}"),
    };
    let mut skips: Worker<u64> = Worker::new(StreamKind::Management, "session", &cursor(0), 10);
    assert_eq!(
        text(step(&mut skips, page(2, 3, 3))),
        "V2 replay event is not contiguous after Session cursor 0"
    );
    let mut stalls: Worker<u64> = Worker::new(StreamKind::Interaction, "session", &cursor(4), 10);
    let stalled = WorkerInput::Page {
        valid: Ok(()),
        page: ReplayPage {
            events: Vec::new(),
            resume_after: cursor(4),
            through: cursor(9),
            has_more: true,
            gap: None,
            closed: false,
        },
    };
    assert_eq!(
        text(step(&mut stalls, stalled)),
        "Interaction replay claimed more events without advancing"
    );
    let mut invalid: Worker<u64> = Worker::new(StreamKind::Session, "session", &cursor(0), 10);
    let bad = match page(1, 1, 1) {
        WorkerInput::Page { page, .. } => WorkerInput::Page { valid: Err("bad".into()), page },
        other => other,
    };
    assert_eq!(text(step(&mut invalid, bad)), "bad");
    let mut failed: Worker<u64> = Worker::new(StreamKind::Session, "session", &cursor(0), 10);
    assert!(matches!(
        step(&mut failed, WorkerInput::PageFailed("e".into())),
        WorkerAction::Report(Fault::Source(error)) if error == "e"
    ));
}

#[test]
fn v2_closed_is_delivered_once_and_closed_cursor_replay_ends() {
    let closing = |input: Input| match input {
        WorkerInput::Page { valid, mut page } => {
            if let Some(last) = page.events.last_mut() {
                last.closes = true;
            }
            WorkerInput::Page { valid, page: ReplayPage { closed: true, ..page } }
        }
        other => other,
    };
    let mut worker: Worker<u64> = Worker::new(StreamKind::Management, "session", &cursor(0), 128);
    let mut seen = Vec::new();
    let action = feed(&mut worker, closing(page(1, 2, 2)), &mut seen);
    assert!(matches!(action, WorkerAction::StopAndForgetHub));
    assert_eq!(seen, vec![1, 2]);
    let mut late: Worker<u64> = Worker::new(StreamKind::Management, "session", &cursor(2), 128);
    let action = feed(&mut late, closing(empty_page(2)), &mut seen);
    assert!(matches!(action, WorkerAction::StopAndForgetHub));
    assert_eq!(seen, vec![1, 2]);
}

#[test]
fn a_live_close_ends_a_managed_stream() {
    let mut live: Worker<u64> = Worker::new(StreamKind::Management, "session", &cursor(0), 10);
    let mut seen = Vec::new();
    assert!(matches!(feed(&mut live, page(1, 1, 1), &mut seen), WorkerAction::Listen));
    let closing = StreamEvent { closes: true, ..event(2) };
    let action = feed(&mut live, WorkerInput::Live(closing), &mut seen);
    assert!(matches!(action, WorkerAction::StopAndForgetHub));
    assert_eq!(seen, vec![1, 2]);
}
#[test]
fn unexpected_disconnect_emits_one_error_then_ends() {
    let mut reader = EventReceiver::new(StreamKind::Session);
    let first: Received<u64, String> = reader.poll(None);
    assert!(matches!(first, Received::Wait));
    let lost: Received<u64, String> =
        reader.poll(Some(HubTermination::ConnectionLost("peer lost".into())));
    assert!(matches!(lost, Received::Lost(message) if message == "peer lost"));
    let end: Received<u64, String> =
        reader.poll(Some(HubTermination::ConnectionLost("peer lost".into())));
    assert!(matches!(end, Received::End));
}

#[test]
fn connection_loss_emits_one_stream_error_then_ends() {
    let lost = || Some(HubTermination::ConnectionLost("peer disappeared".into()));
    let mut reader = EventReceiver::new(StreamKind::Interaction);
    let first: Received<u64, String> =
        reader.wake(Signal::TerminationChanged { hub_gone: false }, lost());
    assert!(matches!(first, Received::Lost(message) if message == "peer disappeared"));
    let end: Received<u64, String> = reader.poll(lost());
    assert!(matches!(end, Received::End));
}

#[test]
fn cancelled_v2_recv_keeps_worker_and_disconnect_errors_once() {
    let mut worker: Worker<u64> = Worker::new(StreamKind::Management, "session", &cursor(0), 128);
    let mut reader = EventReceiver::new(StreamKind::Management);
    assert!(matches!(step(&mut worker, empty_page(0)), WorkerAction::Listen));
    let waiting: Received<u64, String> = reader.poll(None);
    assert!(matches!(waiting, Received::Wait));
    let offered = match step(&mut worker, WorkerInput::Live(event(1))) {
        WorkerAction::Offer(event) => event,
        other => panic!("{other:?}"),
    };
    let got: Received<u64, String> = reader.wake(Signal::Event(offered), None);
    assert!(matches!(got, Received::Event(event) if event.cursor == cursor(1)));
    assert!(matches!(step(&mut worker, WorkerInput::Sent), WorkerAction::Listen));
    let lost = || Some(HubTermination::ConnectionLost("peer lost".into()));
    let failed: Received<u64, String> = reader.poll(lost());
    assert!(matches!(failed, Received::Lost(message) if message == "peer lost"));
    let end: Received<u64, String> = reader.poll(lost());
    assert!(matches!(end, Received::End));
}
#[test]
fn explicit_session_close_ends_stream_without_an_error() {
    let mut reader = EventReceiver::new(StreamKind::Session);
    let seen: Received<u64, String> = reader.wake(Signal::Event(event(3)), None);
    assert!(matches!(seen, Received::Event(event) if event.payload == 30));
    assert_eq!(reader.last_received().unwrap().seq, 3);
    let end: Received<u64, String> = reader.wake(
        Signal::TerminationChanged { hub_gone: false },
        Some(HubTermination::SessionClosed),
    );
    assert!(matches!(end, Received::End));
    assert!(reader.ended);
}

#[test]
fn a_hub_that_is_gone_without_a_word_is_an_error() {
    let mut reader = EventReceiver::new(StreamKind::Management);
    let lost: Received<u64, String> = reader.wake(Signal::TerminationChanged { hub_gone: true }, None);
    assert!(matches!(lost, Received::Lost(text) if text == "V2 Session event hub stopped"));
}

fn run_event(seq: u64, turn: &str, finished: bool) -> StreamEvent<SessionPayload<u64>> {
    StreamEvent {
        cursor: cursor(seq),
        closes: false,
        payload: SessionPayload::RunEvent { turn_id: turn.into(), finished, event: seq },
    }
}

#[test]
fn run_subscription_scans_other_runs_and_resumes_from_the_exposed_cursor() {
    let mut events = RunEventSubscription::new("run-a");
    assert!(events.select(run_event(1, "run-b", false)).is_none());
    assert!(events.last_received().is_none());
    let first = events.select(run_event(2, "run-a", false)).unwrap();
    assert_eq!((first.cursor, first.event), (cursor(2), 2));
    let resumed: Worker<u64> = Worker::new(StreamKind::Session, "session", &cursor(2), 128);
    assert_eq!(resumed.first_request().after, cursor(2));
    let mut resumed = RunEventSubscription::new("run-a");
    assert!(resumed.select(run_event(3, "run-b", false)).is_none());
    assert_eq!(resumed.select(run_event(4, "run-a", false)).unwrap().cursor, cursor(4));
    assert_eq!(resumed.last_received(), Some(&cursor(4)));
    assert!(!resumed.ended);
}

#[test]
fn run_subscription_without_a_cursor_starts_after_a_fresh_snapshot() {
    let worker: Worker<u64> = Worker::new(StreamKind::Session, "session", &cursor(1), 128);
    assert_eq!(worker.first_request().after, cursor(1));
    let mut events = RunEventSubscription::new("run-a");
    assert!(events.select(run_event(2, "run-b", false)).is_none());
    assert_eq!(events.select(run_event(3, "run-a", false)).unwrap().cursor, cursor(3));
}

#[test]
fn run_subscription_ends_after_returning_its_matching_finished_event() {
    let mut events = RunEventSubscription::new("run-a");
    let finished = events.select(run_event(1, "run-a", true)).unwrap();
    assert_eq!(finished.cursor, cursor(1));
    assert!(events.ended);
}
#[test]
fn subscription_options_stay_within_the_bounds() {
    let options = SubscriptionOptions::default();
    assert_eq!((options.buffer_capacity(), options.replay_page_size()), (64, 128));
    assert!(SubscriptionOptions::new(4096, 256, &LIMITS).is_ok());
    let text = |result: Result<SubscriptionOptions, SessionViewError>| match result {
        Err(error) => error.message(),
        Ok(_) => panic!("accepted"),
    };
    assert_eq!(
        text(SubscriptionOptions::new(0, 1, &LIMITS)),
        "Invalid configuration: subscription buffer capacity must be between 1 and 4096"
    );
    assert_eq!(
        text(SubscriptionOptions::new(1, 257, &LIMITS)),
        "Invalid configuration: replay page size must be between 1 and 256"
    );
    let watch = SessionWatchOptions::new(256, options, &LIMITS).unwrap();
    assert_eq!(watch.history_limit(), 256);
    assert!(SessionWatchOptions::new(257, options, &LIMITS).is_err());
    assert!(check_history_limit(0, &LIMITS).is_err());
}

#[test]
fn snapshots_and_cursors_of_other_sessions_are_refused() {
    assert!(check_snapshot(Ok(()), "s", 5, "s", 5).is_ok());
    let text = |result: Result<(), SessionViewError>| result.unwrap_err().message();
    assert_eq!(
        text(check_snapshot(Ok(()), "t", 5, "s", 5)),
        "Invalid Session projection: Daemon returned a snapshot for another Session"
    );
    assert_eq!(
        text(check_snapshot(Ok(()), "s", 4, "s", 5)),
        "Invalid Session projection: Daemon returned a different Session history window capacity"
    );
    assert_eq!(text(check_snapshot(Err("x".into()), "s", 5, "s", 5)), "Invalid Session projection: x");
    let peer = InitializeResult {
        server: PeerInfo { name: "d".into(), version: "1".into() },
        protocol_version: 1,
        capabilities: vec!["views".into()],
    };
    assert_eq!(
        text(check_cursor(Ok(()), &cursor(1), "t")),
        "Invalid Session cursor: Session cursor belongs to another thread"
    );
    assert_eq!(
        text(check_cursor(Err("x".into()), &cursor(1), "t")),
        "Invalid Session cursor: x"
    );
    assert!(check_cursor(Ok(()), &cursor(1), "session").is_ok());
    assert_eq!(
        text(check_replay(&peer, "views", "replay")),
        "Daemon does not advertise required capability replay"
    );
    assert_eq!(
        text(check_replay(&peer, "other", "replay")),
        "Daemon does not advertise required capability other"
    );
    assert!(check_replay(&peer, "views", "views").is_ok());
}

#[test]
fn initial_replay_gap_returns_typed_resync() {
    let gap = ReplayGap {
        reason: "Retention".into(),
        requested: cursor(0),
        replay_floor: cursor(3),
        current: cursor(5),
        session_revision: 5,
    };
    match session_fault(Fault::Gap(gap.clone())) {
        SessionViewError::ResyncRequired { gap: observed } => assert_eq!(observed, gap),
        other => panic!("{other:?}"),
    }
    let checked = |input: Input| match input {
        WorkerInput::Page { valid, page } => check_page::<u64, u64, String>(valid, page),
        other => panic!("{other:?}"),
    };
    assert!(matches!(checked(gap_page(0, 5, 7)), Err(Fault::Gap(7))));
    assert!(matches!(checked(page(1, 2, 3)), Ok(page) if page.events.len() == 2 && page.has_more));
    let wrong = match page(1, 2, 3) {
        WorkerInput::Page { page, .. } => WorkerInput::Page { valid: Err("bad".into()), page },
        other => other,
    };
    assert!(matches!(checked(wrong), Err(Fault::Projection(text)) if text == "bad"));
    let mut worker: Worker<u64> = Worker::new(StreamKind::Session, "session", &cursor(0), 128);
    let action = step(&mut worker, gap_page(0, 5, 7));
    assert!(matches!(action, WorkerAction::Report(Fault::Gap(7))));
    assert!(matches!(
        replay_page_error(SdkError::Rpc { code: -32602, message: "bad".into() }),
        SessionViewError::InvalidCursor { message } if message == "bad"
    ));
    assert!(matches!(
        replay_page_error(SdkError::Rpc { code: -32000, message: "bad".into() }),
        SessionViewError::Sdk(SdkError::Rpc { code: -32000, .. })
    ));
}
