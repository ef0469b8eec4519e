use whale_sdk::client::ClientState;
use whale_sdk::errors::SdkError;
use whale_sdk::protocol::{ErrorCodes, InitializeResult, PeerInfo, ProtocolLimits};
use whale_sdk::requests::{RemoteError, RequestEnd, RequestError, SessionRequestAccess};
use whale_sdk::session_management::{
    check_managed_resume, check_managed_snapshot, check_management_request,
    check_management_result, check_metadata_request, check_writable, checked_limit,
    management_fault, map_request_error, metadata_failure, DecodedErrorData, SessionHistoryAnchor,
    SessionHistoryOptions, SessionHistoryPageCursor, SessionLifecycleState, SessionListCursor,
    SessionListOptions, SessionManagementError, SessionManagementErrorData,
    SessionManagementWatchOptions, SessionViewHandle,
};
use whale_sdk::session_views::SubscriptionOptions;
use whale_sdk::stream::{Cursor, Fault};

const SESSION_MANAGEMENT_STATE: i64 = -32050;
const SESSION_REVISION_CONFLICT: i64 = -32051;
const SESSION_CURSOR_REJECTED: i64 = -32052;
const SESSION_HISTORY_GAP: i64 = -32053;
const STORE_FAILED: i64 = -32041;

const CODES: ErrorCodes = ErrorCodes {
    session_management_state: SESSION_MANAGEMENT_STATE,
    session_revision_conflict: SESSION_REVISION_CONFLICT,
    session_cursor_rejected: SESSION_CURSOR_REJECTED,
    session_history_gap: SESSION_HISTORY_GAP,
    store_failed: STORE_FAILED,
    recovery_unavailable: -32042,
    recovery_rejected: -32043,
};

const LIMITS: ProtocolLimits =
    ProtocolLimits { list_page: 64, history_page: 128, history_window: 256, replay_page: 256 };

fn v2_cursor(seq: u64) -> Cursor {
    Cursor { thread_id: "session".into(), stream_id: "v2".into(), seq }
}

fn peer(capabilities: &[&str]) -> InitializeResult {
    InitializeResult {
        server: PeerInfo { name: "d".into(), version: "1".into() },
        protocol_version: 1,
        capabilities: capabilities.iter().map(|capability| capability.to_string()).collect(),
    }
}

fn remote(code: i64, data: DecodedErrorData) -> SessionManagementError {
    map_request_error(
        RequestError::Remote(RemoteError {
            code,
            message: "diagnostic text is intentionally ignored".into(),
            data,
        }),
        &CODES,
    )
}

#[test]
fn every_typed_remote_error_maps_by_code_and_kind() {
    fn mapped(code: i64, data: SessionManagementErrorData) -> SessionManagementError {
        remote(code, DecodedErrorData::Typed(data))
    }

    fn anchor(stream_id: &str, index: u64) -> SessionHistoryAnchor {
        SessionHistoryAnchor {
            thread_id: "session".into(),
            stream_id: stream_id.into(),
            index,
        }
    }

    assert!(matches!(
        mapped(SESSION_MANAGEMENT_STATE, SessionManagementErrorData::Unavailable),
        SessionManagementError::SessionUnavailable
    ));
    assert!(matches!(
        mapped(
            SESSION_MANAGEMENT_STATE,
            SessionManagementErrorData::SessionNotOpen {
                lifecycle: SessionLifecycleState::Closing,
            }
        ),
        SessionManagementError::SessionNotOpen {
            lifecycle: SessionLifecycleState::Closing
        }
    ));
    assert!(matches!(
        mapped(
            SESSION_REVISION_CONFLICT,
            SessionManagementErrorData::RevisionConflict {
                expected_view_revision: 3,
                current_view_revision: 4,
                current: v2_cursor(4),
            }
        ),
        SessionManagementError::RevisionConflict {
            expected_view_revision: 3,
            current_view_revision: 4,
            current,
        } if current == v2_cursor(4)
    ));
    assert!(matches!(
        mapped(SESSION_CURSOR_REJECTED, SessionManagementErrorData::ListCursorInvalid),
        SessionManagementError::ListCursorInvalid
    ));
    assert!(matches!(
        mapped(SESSION_CURSOR_REJECTED, SessionManagementErrorData::ListCursorExpired),
        SessionManagementError::ListCursorExpired
    ));
    assert!(matches!(
        mapped(SESSION_CURSOR_REJECTED, SessionManagementErrorData::HistoryCursorInvalid),
        SessionManagementError::HistoryCursorInvalid
    ));
    assert!(matches!(
        mapped(
            SESSION_CURSOR_REJECTED,
            SessionManagementErrorData::HistoryStreamReset {
                requested: anchor("old", 2),
                current: anchor("current", 0),
            }
        ),
        SessionManagementError::HistoryStreamReset { requested, current }
            if requested == anchor("old", 2) && current == anchor("current", 0)
    ));
    assert!(matches!(
        mapped(
            SESSION_HISTORY_GAP,
            SessionManagementErrorData::HistoryGap {
                requested: anchor("current", 1),
                floor: anchor("current", 2),
                current_end: anchor("current", 4),
            }
        ),
        SessionManagementError::HistoryGap {
            requested,
            floor,
            current_end,
        } if requested == anchor("current", 1)
            && floor == anchor("current", 2)
            && current_end == anchor("current", 4)
    ));
    assert!(matches!(
        mapped(
            SESSION_MANAGEMENT_STATE,
            SessionManagementErrorData::TombstoneExpired {
                thread_id: "session".into(),
            }
        ),
        SessionManagementError::TombstoneExpired { thread_id } if thread_id == "session"
    ));
    assert!(matches!(
        mapped(
            SESSION_MANAGEMENT_STATE,
            SessionManagementErrorData::ResourceLimit {
                resource: "tombstones".into(),
                actual: 5,
                limit: 4,
                item_index: Some(3),
            }
        ),
        SessionManagementError::ResourceLimit {
            resource,
            actual: 5,
            limit: 4,
            item_index: Some(3),
        } if resource == "tombstones"
    ));
    assert!(matches!(
        mapped(
            STORE_FAILED,
            SessionManagementErrorData::StorageFailure {
                outcome_unknown: true,
            }
        ),
        SessionManagementError::StorageFailure {
            outcome_unknown: true
        }
    ));

    assert!(matches!(
        remote(SESSION_MANAGEMENT_STATE, DecodedErrorData::Missing),
        SessionManagementError::InvalidProjection { .. }
    ));
    assert!(matches!(
        remote(SESSION_MANAGEMENT_STATE, DecodedErrorData::Malformed("future_kind".into())),
        SessionManagementError::InvalidProjection { .. }
    ));
    assert!(matches!(
        mapped(SESSION_REVISION_CONFLICT, SessionManagementErrorData::Unavailable),
        SessionManagementError::InvalidProjection { .. }
    ));
}

#[test]
fn errors_without_fitting_data_say_so() {
    let text = |error: SessionManagementError| error.message();
    assert_eq!(
        text(remote(-32050, DecodedErrorData::Missing)),
        "Invalid Session management projection: Session management RPC -32050 omitted typed error data"
    );
    assert_eq!(
        text(remote(-1, DecodedErrorData::Typed(SessionManagementErrorData::Unavailable))),
        "Invalid Session management projection: Session error data does not match JSON-RPC code -1"
    );
    assert_eq!(
        text(remote(-1, DecodedErrorData::Malformed("m".into()))),
        "Invalid Session management projection: Malformed Session error data: m"
    );
    assert_eq!(
        text(remote(-1, DecodedErrorData::Invalid("i".into()))),
        "Invalid Session management projection: Invalid Session error data: i"
    );
}

#[test]
fn inflight_management_request_reports_connection_loss_as_channel_closed() {
    let mut client = ClientState::new();
    let catalog = peer(&["session_catalog.v1"]);
    assert!(check_management_request(&catalog, "session_catalog.v1", "cursor", Ok(())).is_ok());
    let access = SessionRequestAccess::Unscoped;
    let id = client.begin_request(access).unwrap();
    client.enlist_request(id, access, 41).unwrap();
    let ended = client.disconnect("fixture EOF").unwrap();
    assert_eq!(ended.replies, vec![(id.to_string(), 41)]);
    assert!(client.pending.is_empty() && client.closed);
    let answer: Result<u64, RequestError<DecodedErrorData>> =
        Err(RequestError::Sdk(ended.error()));
    let result = client.conclude_request(id, access, "session.list", RequestEnd::Answered(answer));
    assert!(matches!(
        map_request_error(result.unwrap_err(), &CODES),
        SessionManagementError::Sdk(SdkError::ChannelClosed(message)) if message == "fixture EOF"
    ));
}

#[test]
fn management_errors_show_what_went_wrong() {
    assert_eq!(
        SessionManagementError::SessionNotOpen { lifecycle: SessionLifecycleState::Closed }.message(),
        "Session is not open (Closed)"
    );
    assert_eq!(
        SessionManagementError::RevisionConflict {
            expected_view_revision: 3,
            current_view_revision: 4,
            current: v2_cursor(4),
        }
        .message(),
        "Session view revision conflict: expected 3, current 4"
    );
    assert_eq!(
        SessionManagementError::ResourceLimit {
            resource: "tombstones".into(),
            actual: 5,
            limit: 4,
            item_index: None,
        }
        .message(),
        "Session resource limit exceeded for tombstones: 5 > 4"
    );
    assert_eq!(
        SessionManagementError::StorageFailure { outcome_unknown: true }.message(),
        "Session storage operation failed (outcome_unknown=true)"
    );
    assert_eq!(SessionManagementError::ListCursorExpired.message(), "Session list cursor has expired");
    assert_eq!(
        SessionManagementError::InvalidOptions { field: "limit".into(), message: "m".into() }.message(),
        "Invalid Session management option limit: m"
    );
}

#[test]
fn management_options_stay_within_the_bounds() {
    assert_eq!(SessionListOptions::default().limit(), 64);
    assert!(SessionListOptions::new(65, &LIMITS).is_err());
    assert!(SessionListOptions::new(0, &LIMITS).is_err());
    let listed = SessionListOptions::new(64, &LIMITS)
        .unwrap()
        .with_cursor(SessionListCursor { token: "t".into() });
    assert_eq!(listed.cursor().unwrap().token, "t");
    assert_eq!(SessionHistoryOptions::default().limit(), 128);
    assert!(SessionHistoryOptions::new(129, &LIMITS).is_err());
    assert_eq!(SessionManagementWatchOptions::default().history_limit(), 256);
    assert!(SessionManagementWatchOptions::new(257, SubscriptionOptions::default(), &LIMITS).is_err());
    assert_eq!(checked_limit(5, 5, "limit").unwrap(), 5);
    assert!(matches!(
        checked_limit(6, 5, "limit"),
        Err(SessionManagementError::InvalidOptions { field, .. }) if field == "limit"
    ));
}

#[test]
fn history_goes_on_from_an_anchor_or_a_cursor_but_not_both() {
    let anchor = || SessionHistoryAnchor { thread_id: "s".into(), stream_id: "x".into(), index: 1 };
    let cursor = || SessionHistoryPageCursor { token: "t".into() };
    let anchored = SessionHistoryOptions::default().before(anchor(), Ok(())).unwrap();
    assert_eq!(anchored.anchor().unwrap().index, 1);
    assert!(anchored.continue_from(cursor(), Ok(())).is_err());
    let paged = SessionHistoryOptions::default().continue_from(cursor(), Ok(())).unwrap();
    assert_eq!(paged.cursor().unwrap().token, "t");
    assert!(paged.before(anchor(), Ok(())).is_err());
    assert!(SessionHistoryOptions::default().before(anchor(), Err("bad".into())).is_err());
}

#[test]
fn every_missing_capability_fails_before_a_business_request() {
    assert!(matches!(
        check_management_request(&peer(&[]), "session_catalog.v1", "cursor", Err("x".into())),
        Err(SessionManagementError::UnsupportedCapability { capability })
            if capability == "session_catalog.v1"
    ));
    assert!(matches!(
        check_metadata_request(&peer(&[]), "cas", None, Ok(())),
        Err(SessionManagementError::UnsupportedCapability { .. })
    ));
    assert!(matches!(
        check_metadata_request(&peer(&["cas"]), "cas", None, Ok(())),
        Err(SessionManagementError::SessionUnavailable)
    ));
    assert!(check_metadata_request(&peer(&["cas"]), "cas", Some(SessionLifecycleState::Open), Ok(())).is_ok());
}

#[test]
fn invalid_list_cursor_is_rejected_before_a_business_request() {
    assert!(matches!(
        check_management_request(&peer(&["c"]), "c", "cursor", Err("bad token".into())),
        Err(SessionManagementError::InvalidOptions { field, message })
            if field == "cursor" && message == "bad token"
    ));
    assert!(matches!(
        check_management_result(Err("odd".into())),
        Err(SessionManagementError::InvalidProjection { message }) if message == "odd"
    ));
    assert_eq!(SessionViewHandle::session_view("s".into(), Ok(())).unwrap().thread_id(), "s");
    assert!(SessionViewHandle::session_view("".into(), Err("empty".into())).is_err());
}

#[test]
fn managed_snapshots_and_cursors_are_checked() {
    assert!(check_managed_snapshot(Ok(()), "s", 5, "s", 5).is_ok());
    assert!(check_managed_snapshot(Ok(()), "t", 5, "s", 5).is_err());
    assert!(check_managed_snapshot(Ok(()), "s", 6, "s", 5).is_err());
    let at = v2_cursor(1);
    assert!(check_managed_resume(&peer(&["r"]), "r", Ok(()), &at, "session").is_ok());
    assert!(matches!(
        check_managed_resume(&peer(&["r"]), "r", Ok(()), &at, "other"),
        Err(SessionManagementError::InvalidOptions { message, .. })
            if message == "V2 Session cursor belongs to another thread"
    ));
}

#[test]
fn a_session_that_closed_meanwhile_is_reported_by_its_state() {
    let closed = || SessionManagementError::Sdk(SdkError::SessionClosed("s".into()));
    assert!(matches!(
        metadata_failure(closed(), Some(SessionLifecycleState::Closing)),
        SessionManagementError::SessionNotOpen { lifecycle: SessionLifecycleState::Closing }
    ));
    assert!(matches!(metadata_failure(closed(), None), SessionManagementError::SessionUnavailable));
    assert!(matches!(
        metadata_failure(SessionManagementError::ListCursorInvalid, None),
        SessionManagementError::ListCursorInvalid
    ));
    assert!(check_writable(Some(SessionLifecycleState::Closed)).is_err());
    assert_eq!(
        management_fault(Fault::Gap("Evicted".into())).message(),
        "Invalid Session management projection: V2 Session replay requires a fresh snapshot (Evicted)"
    );
}
