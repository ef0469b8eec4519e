//! The session catalog, stored history, metadata and the managed event stream.

use vstd::prelude::*;

use crate::errors::{ErrorView, SdkError};
use crate::protocol::{ErrorCodes, InitializeResult, ProtocolLimits};
use crate::requests::{RemoteError, RequestError};
use crate::session_views::SubscriptionOptions;
use crate::stream::{Cursor, CursorView, Fault, FaultView};
use crate::text::{decimal, digits, join2, join3, join4, same_text, signed_text, unsigned_text};

verus! {

/// How far a session has come.
#[derive(Clone, Copy, Debug, PartialEq, Eq, Structural)]
pub enum SessionLifecycleState {
    Open,
    Closing,
    Closed,
}

/// A position in the stored history of a session.
#[derive(Clone, Debug, PartialEq, Eq)]
pub struct SessionHistoryAnchor {
    pub thread_id: String,
    pub stream_id: String,
    pub index: u64,
}

/// Where a listing of sessions goes on.
#[derive(Clone, Debug, PartialEq, Eq)]
pub struct SessionListCursor {
    pub token: String,
}

/// Where a listing of history goes on.
#[derive(Clone, Debug, PartialEq, Eq)]
pub struct SessionHistoryPageCursor {
    pub token: String,
}

/// What can go wrong with session management.
#[allow(inconsistent_fields)]
#[derive(Debug)]
pub enum SessionManagementError {
    Sdk(SdkError),
    UnsupportedCapability { capability: String },
    InvalidOptions { field: String, message: String },
    SessionUnavailable,
    SessionNotOpen { lifecycle: SessionLifecycleState },
    RevisionConflict { expected_view_revision: u64, current_view_revision: u64, current: Cursor },
    ListCursorInvalid,
    ListCursorExpired,
    HistoryCursorInvalid,
    HistoryStreamReset { requested: SessionHistoryAnchor, current: SessionHistoryAnchor },
    HistoryGap {
        requested: SessionHistoryAnchor,
        floor: SessionHistoryAnchor,
        current_end: SessionHistoryAnchor,
    },
    TombstoneExpired { thread_id: String },
    ResourceLimit { resource: String, actual: u64, limit: u64, item_index: Option<u64> },
    StorageFailure { outcome_unknown: bool },
    InvalidProjection { message: String },
}

/// A [`SessionManagementError`] by its texts.
pub enum ManagementErrorView {
    Sdk(ErrorView),
    UnsupportedCapability(Seq<char>),
    InvalidOptions { field: Seq<char>, message: Seq<char> },
    SessionUnavailable,
    SessionNotOpen(SessionLifecycleState),
    RevisionConflict { expected: u64, found: u64, cursor: CursorView },
    ListCursorInvalid,
    ListCursorExpired,
    HistoryCursorInvalid,
    HistoryStreamReset { requested: SessionHistoryAnchor, current: SessionHistoryAnchor },
    HistoryGap {
        requested: SessionHistoryAnchor,
        floor: SessionHistoryAnchor,
        current_end: SessionHistoryAnchor,
    },
    TombstoneExpired(Seq<char>),
    ResourceLimit { resource: Seq<char>, actual: u64, limit: u64, item_index: Option<u64> },
    StorageFailure(bool),
    InvalidProjection(Seq<char>),
}

impl View for SessionManagementError {
    type V = ManagementErrorView;

    open spec fn view(&self) -> ManagementErrorView {
        match *self {
            SessionManagementError::Sdk(error) => ManagementErrorView::Sdk(error@),
            SessionManagementError::UnsupportedCapability { capability } =>
                ManagementErrorView::UnsupportedCapability(capability@),
            SessionManagementError::InvalidOptions { field, message } =>
                ManagementErrorView::InvalidOptions { field: field@, message: message@ },
            SessionManagementError::SessionUnavailable => ManagementErrorView::SessionUnavailable,
            SessionManagementError::SessionNotOpen { lifecycle } =>
                ManagementErrorView::SessionNotOpen(lifecycle),
            SessionManagementError::RevisionConflict {
                expected_view_revision,
                current_view_revision,
                current,
            } => ManagementErrorView::RevisionConflict {
                expected: expected_view_revision,
                found: current_view_revision,
                cursor: current@,
            },
            SessionManagementError::ListCursorInvalid => ManagementErrorView::ListCursorInvalid,
            SessionManagementError::ListCursorExpired => ManagementErrorView::ListCursorExpired,
            SessionManagementError::HistoryCursorInvalid =>
                ManagementErrorView::HistoryCursorInvalid,
            SessionManagementError::HistoryStreamReset { requested, current } =>
                ManagementErrorView::HistoryStreamReset { requested, current },
            SessionManagementError::HistoryGap { requested, floor, current_end } =>
                ManagementErrorView::HistoryGap { requested, floor, current_end },
            SessionManagementError::TombstoneExpired { thread_id } =>
                ManagementErrorView::TombstoneExpired(thread_id@),
            SessionManagementError::ResourceLimit { resource, actual, limit, item_index } =>
                ManagementErrorView::ResourceLimit {
                    resource: resource@,
                    actual,
                    limit,
                    item_index,
                },
            SessionManagementError::StorageFailure { outcome_unknown } =>
                ManagementErrorView::StorageFailure(outcome_unknown),
            SessionManagementError::InvalidProjection { message } =>
                ManagementErrorView::InvalidProjection(message@),
        }
    }
}

/// A result that says nothing but whether and how it failed.
pub open spec fn management_outcome(result: Result<(), SessionManagementError>) -> Result<
    (),
    ManagementErrorView,
> {
    match result {
        Ok(()) => Ok(()),
        Err(error) => Err(error@),
    }
}

/// The refusal of the option `field`.
pub open spec fn option_refusal(field: Seq<char>, message: Seq<char>) -> ManagementErrorView {
    ManagementErrorView::InvalidOptions { field, message }
}

/// Refuses the option `field`.
pub fn invalid_option(field: &str, message: String) -> (error: SessionManagementError)
    ensures
        error@ == option_refusal(field@, message@),
{
    SessionManagementError::InvalidOptions { field: field.to_owned(), message }
}

/// Reports an answer of the daemon that makes no sense.
pub fn invalid_projection(message: String) -> (error: SessionManagementError)
    ensures
        error@ == ManagementErrorView::InvalidProjection(message@),
{
    SessionManagementError::InvalidProjection { message }
}

/// The bound of a limit, in words.
pub open spec fn bound_text(maximum: u32) -> Seq<char> {
    "must be between 1 and "@ + digits(maximum as nat)
}

/// Whether `value` lies between one and `maximum`.
pub fn checked_limit(value: u32, maximum: u32, field: &str) -> (result: Result<
    u32,
    SessionManagementError,
>)
    ensures
        match result {
            Ok(limit) => limit == value && 1 <= value <= maximum,
            Err(error) => {
                &&& !(1 <= value <= maximum)
                &&& error@ == option_refusal(field@, bound_text(maximum))
            },
        },
{
    if value == 0 || value > maximum {
        return Err(
            invalid_option(
                field,
                join2("must be between 1 and ", unsigned_text(maximum as u64).as_str()),
            ),
        );
    }
    Ok(value)
}

/// How sessions are listed.
#[derive(Debug, PartialEq, Eq)]
pub struct SessionListOptions {
    cursor: Option<SessionListCursor>,
    limit: u32,
}

impl SessionListOptions {
    #[verifier::type_invariant]
    spec fn sized(self) -> bool {
        1 <= self.limit
    }

    /// How many sessions are listed at once.
    pub closed spec fn page(self) -> u32 {
        self.limit
    }

    /// Where the listing goes on.
    pub closed spec fn position(self) -> Option<SessionListCursor> {
        self.cursor
    }

    /// Options that list from the start.
    pub fn new(limit: u32, limits: &ProtocolLimits) -> (result: Result<
        Self,
        SessionManagementError,
    >)
        ensures
            match result {
                Ok(options) => {
                    &&& 1 <= limit <= limits.list_page
                    &&& options.page() == limit
                    &&& options.position() is None
                },
                Err(error) => {
                    &&& !(1 <= limit <= limits.list_page)
                    &&& error@ == option_refusal("limit"@, bound_text(limits.list_page))
                },
            },
    {
        match checked_limit(limit, limits.list_page, "limit") {
            Ok(limit) => Ok(SessionListOptions { cursor: None, limit }),
            Err(error) => Err(error),
        }
    }

    /// The same options, going on at `cursor`.
    pub fn with_cursor(self, cursor: SessionListCursor) -> (options: Self)
        ensures
            options.page() == self.page(),
            options.position() == Some(cursor),
    {
        proof {
            use_type_invariant(&self);
        }
        SessionListOptions { cursor: Some(cursor), limit: self.limit }
    }

    /// How many sessions are listed at once.
    pub fn limit(&self) -> (limit: u32)
        ensures
            limit == self.page(),
            1 <= limit,
    {
        proof {
            use_type_invariant(self);
        }
        self.limit
    }

    /// Where the listing goes on.
    pub fn cursor(&self) -> (cursor: Option<&SessionListCursor>)
        ensures
            match cursor {
                Some(cursor) => self.position() == Some(*cursor),
                None => self.position() is None,
            },
    {
        self.cursor.as_ref()
    }
}

impl Default for SessionListOptions {
    fn default() -> (options: Self)
        ensures
            options.page() == 64,
            options.position() is None,
    {
        SessionListOptions { cursor: None, limit: 64 }
    }
}

/// How stored history is listed: from an anchor backwards, or on from a page.
#[derive(Debug, PartialEq, Eq)]
pub struct SessionHistoryOptions {
    before: Option<SessionHistoryAnchor>,
    cursor: Option<SessionHistoryPageCursor>,
    limit: u32,
}

impl SessionHistoryOptions {
    #[verifier::type_invariant]
    spec fn consistent(self) -> bool {
        &&& 1 <= self.limit
        &&& !(self.before is Some && self.cursor is Some)
    }

    /// How many items are listed at once.
    pub closed spec fn page(self) -> u32 {
        self.limit
    }

    /// The anchor that the listing ends before.
    pub closed spec fn start(self) -> Option<SessionHistoryAnchor> {
        self.before
    }

    /// The page that the listing goes on from.
    pub closed spec fn position(self) -> Option<SessionHistoryPageCursor> {
        self.cursor
    }

    /// Options that list from the end.
    pub fn new(limit: u32, limits: &ProtocolLimits) -> (result: Result<
        Self,
        SessionManagementError,
    >)
        ensures
            match result {
                Ok(options) => {
                    &&& 1 <= limit <= limits.history_page
                    &&& options.page() == limit
                    &&& options.start() is None
                    &&& options.position() is None
                },
                Err(error) => {
                    &&& !(1 <= limit <= limits.history_page)
                    &&& error@ == option_refusal("limit"@, bound_text(limits.history_page))
                },
            },
    {
        match checked_limit(limit, limits.history_page, "limit") {
            Ok(limit) => Ok(SessionHistoryOptions { before: None, cursor: None, limit }),
            Err(error) => Err(error),
        }
    }

    /// The same options, ending before `anchor`. Options that go on from a page take
    /// no anchor. `valid` says whether the anchor is well formed.
    pub fn before(self, anchor: SessionHistoryAnchor, valid: Result<(), String>) -> (result: Result<
        Self,
        SessionManagementError,
    >)
        ensures
            match result {
                Ok(options) => {
                    &&& self.position() is None
                    &&& valid is Ok
                    &&& options.start() == Some(anchor)
                    &&& options.position() is None
                    &&& options.page() == self.page()
                },
                Err(error) => if self.position() is Some {
                    error@ == option_refusal(
                        "before"@,
                        "history anchor and page cursor are mutually exclusive"@,
                    )
                } else {
                    valid is Err && error@ == option_refusal("before"@, valid->Err_0@)
                },
            },
    {
        proof {
            use_type_invariant(&self);
        }
        if self.cursor.is_some() {
            return Err(
                invalid_option(
                    "before",
                    "history anchor and page cursor are mutually exclusive".to_owned(),
                ),
            );
        }
        match valid {
            Err(message) => Err(invalid_option("before", message)),
            Ok(()) => Ok(
                SessionHistoryOptions { before: Some(anchor), cursor: None, limit: self.limit },
            ),
        }
    }

    /// The same options, going on from `cursor`. Options with an anchor take no page
    /// cursor. `valid` says whether the cursor is well formed.
    pub fn continue_from(self, cursor: SessionHistoryPageCursor, valid: Result<(), String>) -> (result:
        Result<Self, SessionManagementError>)
        ensures
            match result {
                Ok(options) => {
                    &&& self.start() is None
                    &&& valid is Ok
                    &&& options.position() == Some(cursor)
                    &&& options.start() is None
                    &&& options.page() == self.page()
                },
                Err(error) => if self.start() is Some {
                    error@ == option_refusal(
                        "cursor"@,
                        "history page cursor and anchor are mutually exclusive"@,
                    )
                } else {
                    valid is Err && error@ == option_refusal("cursor"@, valid->Err_0@)
                },
            },
    {
        proof {
            use_type_invariant(&self);
        }
        if self.before.is_some() {
            return Err(
                invalid_option(
                    "cursor",
                    "history page cursor and anchor are mutually exclusive".to_owned(),
                ),
            );
        }
        match valid {
            Err(message) => Err(invalid_option("cursor", message)),
            Ok(()) => Ok(
                SessionHistoryOptions { before: None, cursor: Some(cursor), limit: self.limit },
            ),
        }
    }

    /// How many items are listed at once.
    pub fn limit(&self) -> (limit: u32)
        ensures
            limit == self.page(),
            1 <= limit,
    {
        proof {
            use_type_invariant(self);
        }
        self.limit
    }

    /// The anchor that the listing ends before. Where there is one, there is no page
    /// cursor.
    pub fn anchor(&self) -> (anchor: Option<&SessionHistoryAnchor>)
        ensures
            match anchor {
                Some(anchor) => self.start() == Some(*anchor) && self.position() is None,
                None => self.start() is None,
            },
    {
        proof {
            use_type_invariant(self);
        }
        self.before.as_ref()
    }

    /// The page that the listing goes on from. Where there is one, there is no
    /// anchor.
    pub fn cursor(&self) -> (cursor: Option<&SessionHistoryPageCursor>)
        ensures
            match cursor {
                Some(cursor) => self.position() == Some(*cursor) && self.start() is None,
                None => self.position() is None,
            },
    {
        proof {
            use_type_invariant(self);
        }
        self.cursor.as_ref()
    }
}

impl Default for SessionHistoryOptions {
    fn default() -> (options: Self)
        ensures
            options.page() == 128,
            options.start() is None,
            options.position() is None,
    {
        SessionHistoryOptions { before: None, cursor: None, limit: 128 }
    }
}

/// How much history a managed watch starts with, and how it goes on.
#[derive(Clone, Copy, Debug, PartialEq, Eq, Structural)]
pub struct SessionManagementWatchOptions {
    history_limit: u32,
    subscription: SubscriptionOptions,
}

impl SessionManagementWatchOptions {
    #[verifier::type_invariant]
    spec fn sized(self) -> bool {
        1 <= self.history_limit
    }

    /// How much history the snapshot holds.
    pub closed spec fn history(self) -> u32 {
        self.history_limit
    }

    /// How the watch goes on behind the snapshot.
    pub closed spec fn follow_up(self) -> SubscriptionOptions {
        self.subscription
    }

    /// Options within the bounds; others are refused.
    pub fn new(
        history_limit: u32,
        subscription: SubscriptionOptions,
        limits: &ProtocolLimits,
    ) -> (result: Result<Self, SessionManagementError>)
        ensures
            match result {
                Ok(options) => {
                    &&& 1 <= history_limit <= limits.history_window
                    &&& options.history() == history_limit
                    &&& options.follow_up() == subscription
                },
                Err(error) => {
                    &&& !(1 <= history_limit <= limits.history_window)
                    &&& error@ == option_refusal(
                        "history_limit"@,
                        bound_text(limits.history_window),
                    )
                },
            },
    {
        match checked_limit(history_limit, limits.history_window, "history_limit") {
            Ok(history_limit) => Ok(
                SessionManagementWatchOptions { history_limit, subscription },
            ),
            Err(error) => Err(error),
        }
    }

    /// How much history the snapshot holds.
    pub fn history_limit(&self) -> (limit: u32)
        ensures
            limit == self.history(),
            1 <= limit,
    {
        proof {
            use_type_invariant(*self);
        }
        self.history_limit
    }

    /// How the watch goes on behind the snapshot.
    pub fn subscription(&self) -> (subscription: &SubscriptionOptions)
        ensures
            *subscription == self.follow_up(),
    {
        &self.subscription
    }
}

impl Default for SessionManagementWatchOptions {
    fn default() -> (options: Self)
        ensures
            options.history() == 256,
            options.follow_up().capacity() == 64,
            options.follow_up().page() == 128,
    {
        SessionManagementWatchOptions {
            history_limit: 256,
            subscription: SubscriptionOptions::default(),
        }
    }
}

/// What the daemon attaches to an error of session management.
#[allow(inconsistent_fields)]
#[derive(Debug)]
pub enum SessionManagementErrorData {
    Unavailable,
    SessionNotOpen { lifecycle: SessionLifecycleState },
    RevisionConflict { expected_view_revision: u64, current_view_revision: u64, current: Cursor },
    ListCursorInvalid,
    ListCursorExpired,
    HistoryCursorInvalid,
    HistoryStreamReset { requested: SessionHistoryAnchor, current: SessionHistoryAnchor },
    HistoryGap {
        requested: SessionHistoryAnchor,
        floor: SessionHistoryAnchor,
        current_end: SessionHistoryAnchor,
    },
    TombstoneExpired { thread_id: String },
    ResourceLimit { resource: String, actual: u64, limit: u64, item_index: Option<u64> },
    StorageFailure { outcome_unknown: bool },
}

/// The attachment of an error, as far as it could be decoded.
#[derive(Debug)]
pub enum DecodedErrorData {
    Missing,
    Malformed(String),
    Invalid(String),
    Typed(SessionManagementErrorData),
}

/// The code that an attachment of this kind comes with.
pub open spec fn code_of(data: SessionManagementErrorData, codes: ErrorCodes) -> i64 {
    match data {
        SessionManagementErrorData::Unavailable
        | SessionManagementErrorData::SessionNotOpen { .. }
        | SessionManagementErrorData::TombstoneExpired { .. }
        | SessionManagementErrorData::ResourceLimit { .. } => codes.session_management_state,
        SessionManagementErrorData::RevisionConflict { .. } => codes.session_revision_conflict,
        SessionManagementErrorData::ListCursorInvalid
        | SessionManagementErrorData::ListCursorExpired
        | SessionManagementErrorData::HistoryCursorInvalid
        | SessionManagementErrorData::HistoryStreamReset { .. } => codes.session_cursor_rejected,
        SessionManagementErrorData::HistoryGap { .. } => codes.session_history_gap,
        SessionManagementErrorData::StorageFailure { .. } => codes.store_failed,
    }
}

/// The error that an attachment describes.
pub open spec fn described(data: SessionManagementErrorData) -> ManagementErrorView {
    match data {
        SessionManagementErrorData::Unavailable => ManagementErrorView::SessionUnavailable,
        SessionManagementErrorData::SessionNotOpen { lifecycle } =>
            ManagementErrorView::SessionNotOpen(lifecycle),
        SessionManagementErrorData::RevisionConflict {
            expected_view_revision,
            current_view_revision,
            current,
        } => ManagementErrorView::RevisionConflict {
            expected: expected_view_revision,
            found: current_view_revision,
            cursor: current@,
        },
        SessionManagementErrorData::ListCursorInvalid => ManagementErrorView::ListCursorInvalid,
        SessionManagementErrorData::ListCursorExpired => ManagementErrorView::ListCursorExpired,
        SessionManagementErrorData::HistoryCursorInvalid =>
            ManagementErrorView::HistoryCursorInvalid,
        SessionManagementErrorData::HistoryStreamReset { requested, current } =>
            ManagementErrorView::HistoryStreamReset { requested, current },
        SessionManagementErrorData::HistoryGap { requested, floor, current_end } =>
            ManagementErrorView::HistoryGap { requested, floor, current_end },
        SessionManagementErrorData::TombstoneExpired { thread_id } =>
            ManagementErrorView::TombstoneExpired(thread_id@),
        SessionManagementErrorData::ResourceLimit { resource, actual, limit, item_index } =>
            ManagementErrorView::ResourceLimit { resource: resource@, actual, limit, item_index },
        SessionManagementErrorData::StorageFailure { outcome_unknown } =>
            ManagementErrorView::StorageFailure(outcome_unknown),
    }
}

/// The error of session management that a failed request stands for.
pub open spec fn management_error(
    error: RequestError<DecodedErrorData>,
    codes: ErrorCodes,
) -> ManagementErrorView {
    match error {
        RequestError::Sdk(error) => ManagementErrorView::Sdk(error@),
        RequestError::Remote(remote) => match remote.data {
            DecodedErrorData::Missing => ManagementErrorView::InvalidProjection(
                "Session management RPC "@ + decimal(remote.code as int)
                    + " omitted typed error data"@,
            ),
            DecodedErrorData::Malformed(message) => ManagementErrorView::InvalidProjection(
                "Malformed Session error data: "@ + message@,
            ),
            DecodedErrorData::Invalid(message) => ManagementErrorView::InvalidProjection(
                "Invalid Session error data: "@ + message@,
            ),
            DecodedErrorData::Typed(data) => if remote.code == code_of(data, codes) {
                described(data)
            } else {
                ManagementErrorView::InvalidProjection(
                    "Session error data does not match JSON-RPC code "@ + decimal(
                        remote.code as int,
                    ),
                )
            },
        },
    }
}

fn expected_code(data: &SessionManagementErrorData, codes: &ErrorCodes) -> (code: i64)
    ensures
        code == code_of(*data, *codes),
{
    match data {
        SessionManagementErrorData::Unavailable
        | SessionManagementErrorData::SessionNotOpen { .. }
        | SessionManagementErrorData::TombstoneExpired { .. }
        | SessionManagementErrorData::ResourceLimit { .. } => codes.session_management_state,
        SessionManagementErrorData::RevisionConflict { .. } => codes.session_revision_conflict,
        SessionManagementErrorData::ListCursorInvalid
        | SessionManagementErrorData::ListCursorExpired
        | SessionManagementErrorData::HistoryCursorInvalid
        | SessionManagementErrorData::HistoryStreamReset { .. } => codes.session_cursor_rejected,
        SessionManagementErrorData::HistoryGap { .. } => codes.session_history_gap,
        SessionManagementErrorData::StorageFailure { .. } => codes.store_failed,
    }
}

fn described_error(data: SessionManagementErrorData) -> (error: SessionManagementError)
    ensures
        error@ == described(data),
{
    match data {
        SessionManagementErrorData::Unavailable => SessionManagementError::SessionUnavailable,
        SessionManagementErrorData::SessionNotOpen { lifecycle } =>
            SessionManagementError::SessionNotOpen { lifecycle },
        SessionManagementErrorData::RevisionConflict {
            expected_view_revision,
            current_view_revision,
            current,
        } => SessionManagementError::RevisionConflict {
            expected_view_revision,
            current_view_revision,
            current,
        },
        SessionManagementErrorData::ListCursorInvalid => SessionManagementError::ListCursorInvalid,
        SessionManagementErrorData::ListCursorExpired => SessionManagementError::ListCursorExpired,
        SessionManagementErrorData::HistoryCursorInvalid =>
            SessionManagementError::HistoryCursorInvalid,
        SessionManagementErrorData::HistoryStreamReset { requested, current } =>
            SessionManagementError::HistoryStreamReset { requested, current },
        SessionManagementErrorData::HistoryGap { requested, floor, current_end } =>
            SessionManagementError::HistoryGap { requested, floor, current_end },
        SessionManagementErrorData::TombstoneExpired { thread_id } =>
            SessionManagementError::TombstoneExpired { thread_id },
        SessionManagementErrorData::ResourceLimit { resource, actual, limit, item_index } =>
            SessionManagementError::ResourceLimit { resource, actual, limit, item_index },
        SessionManagementErrorData::StorageFailure { outcome_unknown } =>
            SessionManagementError::StorageFailure { outcome_unknown },
    }
}

fn map_remote_error(remote: RemoteError<DecodedErrorData>, codes: &ErrorCodes) -> (mapped:
    SessionManagementError)
    ensures
        mapped@ == management_error(RequestError::Remote(remote), *codes),
{
    match remote.data {
        DecodedErrorData::Missing => invalid_projection(
            join3(
                "Session management RPC ",
                signed_text(remote.code).as_str(),
                " omitted typed error data",
            ),
        ),
        DecodedErrorData::Malformed(message) => invalid_projection(
            join2("Malformed Session error data: ", message.as_str()),
        ),
        DecodedErrorData::Invalid(message) => invalid_projection(
            join2("Invalid Session error data: ", message.as_str()),
        ),
        DecodedErrorData::Typed(data) => {
            if remote.code == expected_code(&data, codes) {
                described_error(data)
            } else {
                invalid_projection(
                    join2(
                        "Session error data does not match JSON-RPC code ",
                        signed_text(remote.code).as_str(),
                    ),
                )
            }
        },
    }
}

/// Turns a failed request into an error of session management. An answer of the
/// daemon counts only with an attachment that fits its code; the daemon's message is
/// never read.
pub fn map_request_error(error: RequestError<DecodedErrorData>, codes: &ErrorCodes) -> (mapped:
    SessionManagementError)
    ensures
        mapped@ == management_error(error, *codes),
{
    match error {
        RequestError::Sdk(error) => SessionManagementError::Sdk(error),
        RequestError::Remote(remote) => map_remote_error(remote, codes),
    }
}

/// The text of the daemon's message has no influence on the error that is reported.
pub proof fn diagnostic_text_is_ignored(
    left: RemoteError<DecodedErrorData>,
    right: RemoteError<DecodedErrorData>,
    codes: ErrorCodes,
)
    requires
        left.code == right.code,
        left.data == right.data,
    ensures
        management_error(RequestError::Remote(left), codes) == management_error(
            RequestError::Remote(right),
            codes,
        ),
{
}

/// Whether the daemon offers what the operation needs.
pub fn require_management_capability(initialized: &InitializeResult, capability: &str) -> (result:
    Result<(), SessionManagementError>)
    ensures
        management_outcome(result) == if initialized.offers(capability@) {
            Ok(())
        } else {
            Err(ManagementErrorView::UnsupportedCapability(capability@))
        },
{
    if initialized.advertises(capability) {
        Ok(())
    } else {
        Err(SessionManagementError::UnsupportedCapability { capability: capability.to_owned() })
    }
}

/// What the check of a managed snapshot says.
pub open spec fn managed_snapshot_verdict(
    valid: Result<(), String>,
    snapshot_thread: Seq<char>,
    snapshot_capacity: u32,
    thread: Seq<char>,
    history_limit: u32,
) -> Result<(), ManagementErrorView> {
    match valid {
        Err(message) => Err(ManagementErrorView::InvalidProjection(message@)),
        Ok(()) => if snapshot_thread != thread || snapshot_capacity != history_limit {
            Err(
                ManagementErrorView::InvalidProjection(
                    "Daemon returned a V2 snapshot for another Session or history capacity"@,
                ),
            )
        } else {
            Ok(())
        },
    }
}

/// Whether the daemon's snapshot is the one that was asked for. `valid` says whether
/// the snapshot is consistent in itself.
pub fn check_managed_snapshot(
    valid: Result<(), String>,
    snapshot_thread: &str,
    snapshot_capacity: u32,
    thread_id: &str,
    history_limit: u32,
) -> (result: Result<(), SessionManagementError>)
    ensures
        management_outcome(result) == managed_snapshot_verdict(
            valid,
            snapshot_thread@,
            snapshot_capacity,
            thread_id@,
            history_limit,
        ),
{
    if let Err(message) = valid {
        return Err(invalid_projection(message));
    }
    if !same_text(snapshot_thread, thread_id) || snapshot_capacity != history_limit {
        return Err(
            invalid_projection(
                "Daemon returned a V2 snapshot for another Session or history capacity".to_owned(),
            ),
        );
    }
    Ok(())
}

/// What the check of a cursor to continue from says.
pub open spec fn managed_resume_verdict(
    initialized: InitializeResult,
    capability: Seq<char>,
    valid: Result<(), String>,
    cursor: CursorView,
    thread: Seq<char>,
) -> Result<(), ManagementErrorView> {
    if !initialized.offers(capability) {
        Err(ManagementErrorView::UnsupportedCapability(capability))
    } else {
        match valid {
            Err(message) => Err(option_refusal("cursor"@, message@)),
            Ok(()) => if cursor.thread != thread {
                Err(
                    option_refusal(
                        "cursor"@,
                        "V2 Session cursor belongs to another thread"@,
                    ),
                )
            } else {
                Ok(())
            },
        }
    }
}

/// Whether a managed subscription may continue behind `cursor`.
pub fn check_managed_resume(
    initialized: &InitializeResult,
    capability: &str,
    valid: Result<(), String>,
    cursor: &Cursor,
    thread_id: &str,
) -> (result: Result<(), SessionManagementError>)
    ensures
        management_outcome(result) == managed_resume_verdict(
            *initialized,
            capability@,
            valid,
            cursor@,
            thread_id@,
        ),
{
    if let Err(error) = require_management_capability(initialized, capability) {
        return Err(error);
    }
    if let Err(message) = valid {
        return Err(invalid_option("cursor", message));
    }
    if !same_text(cursor.thread_id.as_str(), thread_id) {
        return Err(
            invalid_option("cursor", "V2 Session cursor belongs to another thread".to_owned()),
        );
    }
    Ok(())
}

/// The error for a gap in a managed stream, from the daemon's reason for it.
pub open spec fn managed_gap(reason: Seq<char>) -> ManagementErrorView {
    ManagementErrorView::InvalidProjection(
        "V2 Session replay requires a fresh snapshot ("@ + reason + ")"@,
    )
}

/// Turns a gap in a managed stream into an error.
pub fn replay_gap_error(reason: &str) -> (error: SessionManagementError)
    ensures
        error@ == managed_gap(reason@),
{
    invalid_projection(join3("V2 Session replay requires a fresh snapshot (", reason, ")"))
}

/// What ends a managed subscription, as its subscriber sees it.
pub open spec fn managed_fault_error(
    fault: FaultView<String, SessionManagementError>,
) -> ManagementErrorView {
    match fault {
        FaultView::Gap(reason) => managed_gap(reason@),
        FaultView::Projection(message) => ManagementErrorView::InvalidProjection(message),
        FaultView::Source(error) => error@,
    }
}

/// Turns the end of a managed subscription into its subscriber's error.
pub fn management_fault(fault: Fault<String, SessionManagementError>) -> (error:
    SessionManagementError)
    ensures
        error@ == managed_fault_error(fault@),
{
    match fault {
        Fault::Gap(reason) => replay_gap_error(reason.as_str()),
        Fault::Projection(message) => SessionManagementError::InvalidProjection { message },
        Fault::Source(error) => error,
    }
}

/// The error for a session that takes no change, from what is known of it.
pub open spec fn not_open(lifecycle: Option<SessionLifecycleState>) -> ManagementErrorView {
    match lifecycle {
        Some(SessionLifecycleState::Open) | None => ManagementErrorView::SessionUnavailable,
        Some(lifecycle) => ManagementErrorView::SessionNotOpen(lifecycle),
    }
}

/// Whether a session takes a change, from what is known of it.
pub fn check_writable(lifecycle: Option<SessionLifecycleState>) -> (result: Result<
    (),
    SessionManagementError,
>)
    ensures
        management_outcome(result) == if lifecycle == Some(SessionLifecycleState::Open) {
            Ok(())
        } else {
            Err(not_open(lifecycle))
        },
{
    match lifecycle {
        Some(SessionLifecycleState::Open) => Ok(()),
        Some(lifecycle) => Err(SessionManagementError::SessionNotOpen { lifecycle }),
        None => Err(SessionManagementError::SessionUnavailable),
    }
}

/// The failure of a change of metadata. A session that closed meanwhile is reported
/// by how far its close has come.
pub fn metadata_failure(
    error: SessionManagementError,
    lifecycle: Option<SessionLifecycleState>,
) -> (mapped: SessionManagementError)
    ensures
        mapped@ == match error@ {
            ManagementErrorView::Sdk(ErrorView::SessionClosed(_)) => not_open(lifecycle),
            _ => error@,
        },
{
    match error {
        SessionManagementError::Sdk(SdkError::SessionClosed(_)) => match lifecycle {
            Some(SessionLifecycleState::Open) | None => SessionManagementError::SessionUnavailable,
            Some(lifecycle) => SessionManagementError::SessionNotOpen { lifecycle },
        },
        error => error,
    }
}

/// Whether a request may be made: the daemon has to offer `capability`, and the request
/// has to be well formed, or its option `field` is to blame.
pub fn check_management_request(
    initialized: &InitializeResult,
    capability: &str,
    field: &str,
    valid: Result<(), String>,
) -> (result: Result<(), SessionManagementError>)
    ensures
        management_outcome(result) == if !initialized.offers(capability@) {
            Err(ManagementErrorView::UnsupportedCapability(capability@))
        } else {
            match valid {
                Ok(()) => Ok(()),
                Err(message) => Err(option_refusal(field@, message@)),
            }
        },
{
    if let Err(error) = require_management_capability(initialized, capability) {
        return Err(error);
    }
    match valid {
        Ok(()) => Ok(()),
        Err(message) => Err(invalid_option(field, message)),
    }
}

/// Whether a change of metadata may be asked for: the daemon has to offer `capability`,
/// the session has to be open, and the request has to be well formed.
pub fn check_metadata_request(
    initialized: &InitializeResult,
    capability: &str,
    lifecycle: Option<SessionLifecycleState>,
    valid: Result<(), String>,
) -> (result: Result<(), SessionManagementError>)
    ensures
        management_outcome(result) == if !initialized.offers(capability@) {
            Err(ManagementErrorView::UnsupportedCapability(capability@))
        } else if lifecycle != Some(SessionLifecycleState::Open) {
            Err(not_open(lifecycle))
        } else {
            match valid {
                Ok(()) => Ok(()),
                Err(message) => Err(option_refusal("metadata"@, message@)),
            }
        },
{
    if let Err(error) = require_management_capability(initialized, capability) {
        return Err(error);
    }
    if let Err(error) = check_writable(lifecycle) {
        return Err(error);
    }
    match valid {
        Ok(()) => Ok(()),
        Err(message) => Err(invalid_option("metadata", message)),
    }
}

/// Whether the daemon's answer fits the request.
pub fn check_management_result(valid: Result<(), String>) -> (result: Result<
    (),
    SessionManagementError,
>)
    ensures
        management_outcome(result) == match valid {
            Ok(()) => Ok(()),
            Err(message) => Err(ManagementErrorView::InvalidProjection(message@)),
        },
{
    match valid {
        Ok(()) => Ok(()),
        Err(message) => Err(invalid_projection(message)),
    }
}

/// A handle on the view of a session that may be closed.
#[derive(Clone, Debug)]
pub struct SessionViewHandle {
    thread_id: String,
}

impl SessionViewHandle {
    /// The session that is looked at.
    pub closed spec fn session(self) -> Seq<char> {
        self.thread_id@
    }

    /// A handle on the view of a session. `valid` says whether its name is well formed.
    pub fn session_view(thread_id: String, valid: Result<(), String>) -> (result: Result<
        Self,
        SessionManagementError,
    >)
        ensures
            match (result, valid) {
                (Ok(handle), Ok(())) => handle.session() == thread_id@,
                (Err(error), Err(message)) => error@ == option_refusal("thread_id"@, message@),
                _ => false,
            },
    {
        match valid {
            Ok(()) => Ok(SessionViewHandle { thread_id }),
            Err(message) => Err(invalid_option("thread_id", message)),
        }
    }

    /// The session that is looked at.
    pub fn thread_id(&self) -> (thread_id: &str)
        ensures
            thread_id@ == self.session(),
    {
        self.thread_id.as_str()
    }
}

/// The word for how far a session has come.
pub open spec fn lifecycle_word(lifecycle: SessionLifecycleState) -> Seq<char> {
    match lifecycle {
        SessionLifecycleState::Open => "Open"@,
        SessionLifecycleState::Closing => "Closing"@,
        SessionLifecycleState::Closed => "Closed"@,
    }
}

/// The message that an error shows to people.
pub open spec fn management_error_text(error: ManagementErrorView) -> Seq<char> {
    match error {
        ManagementErrorView::Sdk(error) => crate::errors::error_text(error),
        ManagementErrorView::UnsupportedCapability(capability) =>
            "Daemon does not advertise required capability "@ + capability,
        ManagementErrorView::InvalidOptions { field, message } =>
            "Invalid Session management option "@ + field + ": "@ + message,
        ManagementErrorView::SessionUnavailable => "Session is unavailable"@,
        ManagementErrorView::SessionNotOpen(lifecycle) => "Session is not open ("@
            + lifecycle_word(lifecycle) + ")"@,
        ManagementErrorView::RevisionConflict { expected, found, .. } =>
            "Session view revision conflict: expected "@ + digits(expected as nat)
                + ", current "@ + digits(found as nat),
        ManagementErrorView::ListCursorInvalid => "Session list cursor is invalid"@,
        ManagementErrorView::ListCursorExpired => "Session list cursor has expired"@,
        ManagementErrorView::HistoryCursorInvalid => "Session history cursor is invalid"@,
        ManagementErrorView::HistoryStreamReset { .. } =>
            "Session history belongs to an earlier attachment"@,
        ManagementErrorView::HistoryGap { .. } =>
            "Requested Session history is no longer retained"@,
        ManagementErrorView::TombstoneExpired(session) => "Closed Session tombstone expired: "@
            + session,
        ManagementErrorView::ResourceLimit { resource, actual, limit, .. } =>
            "Session resource limit exceeded for "@ + resource + ": "@ + digits(actual as nat)
                + " > "@ + digits(limit as nat),
        ManagementErrorView::StorageFailure(unknown) => if unknown {
            "Session storage operation failed (outcome_unknown=true)"@
        } else {
            "Session storage operation failed (outcome_unknown=false)"@
        },
        ManagementErrorView::InvalidProjection(message) =>
            "Invalid Session management projection: "@ + message,
    }
}

impl SessionManagementError {
    /// The message of this error.
    pub fn message(&self) -> (text: String)
        ensures
            text@ == management_error_text(self@),
    {
        match self {
            SessionManagementError::Sdk(error) => error.message(),
            SessionManagementError::UnsupportedCapability { capability } => join2(
                "Daemon does not advertise required capability ",
                capability.as_str(),
            ),
            SessionManagementError::InvalidOptions { field, message } => join4(
                "Invalid Session management option ",
                field.as_str(),
                ": ",
                message.as_str(),
            ),
            SessionManagementError::SessionUnavailable => "Session is unavailable".to_owned(),
            SessionManagementError::SessionNotOpen { lifecycle } => {
                let word = match lifecycle {
                    SessionLifecycleState::Open => "Open",
                    SessionLifecycleState::Closing => "Closing",
                    SessionLifecycleState::Closed => "Closed",
                };
                join3("Session is not open (", word, ")")
            },
            SessionManagementError::RevisionConflict {
                expected_view_revision,
                current_view_revision,
                ..
            } => join4(
                "Session view revision conflict: expected ",
                unsigned_text(*expected_view_revision).as_str(),
                ", current ",
                unsigned_text(*current_view_revision).as_str(),
            ),
            SessionManagementError::ListCursorInvalid => "Session list cursor is invalid".to_owned(),
            SessionManagementError::ListCursorExpired =>
                "Session list cursor has expired".to_owned(),
            SessionManagementError::HistoryCursorInvalid =>
                "Session history cursor is invalid".to_owned(),
            SessionManagementError::HistoryStreamReset { .. } =>
                "Session history belongs to an earlier attachment".to_owned(),
            SessionManagementError::HistoryGap { .. } =>
                "Requested Session history is no longer retained".to_owned(),
            SessionManagementError::TombstoneExpired { thread_id } => join2(
                "Closed Session tombstone expired: ",
                thread_id.as_str(),
            ),
            SessionManagementError::ResourceLimit { resource, actual, limit, .. } => {
                let mut text = join4(
                    "Session resource limit exceeded for ",
                    resource.as_str(),
                    ": ",
                    unsigned_text(*actual).as_str(),
                );
                text.append(" > ");
                text.append(unsigned_text(*limit).as_str());
                text
            },
            SessionManagementError::StorageFailure { outcome_unknown } => if *outcome_unknown {
                "Session storage operation failed (outcome_unknown=true)".to_owned()
            } else {
                "Session storage operation failed (outcome_unknown=false)".to_owned()
            },
            SessionManagementError::InvalidProjection { message } => join2(
                "Invalid Session management projection: ",
                message.as_str(),
            ),
        }
    }
}

/// What the daemon attached to an error is reported in full, by its kind, where the code
/// belongs to that kind; with another code it is no attachment of the error.
pub proof fn attachments_count_with_their_code(
    code: i64,
    message: String,
    data: SessionManagementErrorData,
    codes: ErrorCodes,
)
    ensures
        ({
            let reported = management_error(
                RequestError::Remote(
                    RemoteError { code, message, data: DecodedErrorData::Typed(data) },
                ),
                codes,
            );
            match data {
                SessionManagementErrorData::Unavailable => if code
                    == codes.session_management_state {
                    reported is SessionUnavailable
                } else {
                    reported is InvalidProjection
                },
                SessionManagementErrorData::SessionNotOpen { lifecycle } => if code
                    == codes.session_management_state {
                    reported == ManagementErrorView::SessionNotOpen(lifecycle)
                } else {
                    reported is InvalidProjection
                },
                SessionManagementErrorData::TombstoneExpired { thread_id } => if code
                    == codes.session_management_state {
                    reported == ManagementErrorView::TombstoneExpired(thread_id@)
                } else {
                    reported is InvalidProjection
                },
                SessionManagementErrorData::ResourceLimit {
                    resource,
                    actual,
                    limit,
                    item_index,
                } => if code == codes.session_management_state {
                    reported == (ManagementErrorView::ResourceLimit {
                        resource: resource@,
                        actual,
                        limit,
                        item_index,
                    })
                } else {
                    reported is InvalidProjection
                },
                SessionManagementErrorData::RevisionConflict {
                    expected_view_revision,
                    current_view_revision,
                    current,
                } => if code == codes.session_revision_conflict {
                    reported == (ManagementErrorView::RevisionConflict {
                        expected: expected_view_revision,
                        found: current_view_revision,
                        cursor: current@,
                    })
                } else {
                    reported is InvalidProjection
                },
                SessionManagementErrorData::ListCursorInvalid => if code
                    == codes.session_cursor_rejected {
                    reported is ListCursorInvalid
                } else {
                    reported is InvalidProjection
                },
                SessionManagementErrorData::ListCursorExpired => if code
                    == codes.session_cursor_rejected {
                    reported is ListCursorExpired
                } else {
                    reported is InvalidProjection
                },
                SessionManagementErrorData::HistoryCursorInvalid => if code
                    == codes.session_cursor_rejected {
                    reported is HistoryCursorInvalid
                } else {
                    reported is InvalidProjection
                },
                SessionManagementErrorData::HistoryStreamReset { requested, current } => if code
                    == codes.session_cursor_rejected {
                    reported == (ManagementErrorView::HistoryStreamReset { requested, current })
                } else {
                    reported is InvalidProjection
                },
                SessionManagementErrorData::HistoryGap { requested, floor, current_end } => if code
                    == codes.session_history_gap {
                    reported == (ManagementErrorView::HistoryGap {
                        requested,
                        floor,
                        current_end,
                    })
                } else {
                    reported is InvalidProjection
                },
                SessionManagementErrorData::StorageFailure { outcome_unknown } => if code
                    == codes.store_failed {
                    reported == ManagementErrorView::StorageFailure(outcome_unknown)
                } else {
                    reported is InvalidProjection
                },
            }
        }),
{
}

/// An error on this side is passed on as it is. An error of the daemon without an attachment
/// that could be read makes no sense, and the complaint tells what was wrong with it.
pub proof fn missing_attachments_make_no_sense(
    error: SdkError,
    code: i64,
    message: String,
    detail: String,
    codes: ErrorCodes,
)
    ensures
        management_error(RequestError::Sdk(error), codes) == ManagementErrorView::Sdk(error@),
        management_error(
            RequestError::Remote(RemoteError { code, message, data: DecodedErrorData::Missing }),
            codes,
        ) is InvalidProjection,
        management_error(
            RequestError::Remote(
                RemoteError { code, message, data: DecodedErrorData::Malformed(detail) },
            ),
            codes,
        ) matches ManagementErrorView::InvalidProjection(text) && detail@.is_suffix_of(text),
        management_error(
            RequestError::Remote(
                RemoteError { code, message, data: DecodedErrorData::Invalid(detail) },
            ),
            codes,
        ) matches ManagementErrorView::InvalidProjection(text) && detail@.is_suffix_of(text),
{
}

/// A managed snapshot is taken exactly where it is consistent, of the session that was asked
/// for and of the size that was asked for.
pub proof fn only_the_managed_snapshot_asked_for_is_taken(
    valid: Result<(), String>,
    snapshot_thread: Seq<char>,
    snapshot_capacity: u32,
    thread: Seq<char>,
    history_limit: u32,
)
    ensures
        ({
            let verdict = managed_snapshot_verdict(
                valid,
                snapshot_thread,
                snapshot_capacity,
                thread,
                history_limit,
            );
            &&& verdict is Ok <==> valid is Ok && snapshot_thread == thread && snapshot_capacity
                == history_limit
            &&& verdict matches Err(error) ==> error is InvalidProjection
            &&& valid matches Err(message) ==> verdict == Err::<(), ManagementErrorView>(
                ManagementErrorView::InvalidProjection(message@),
            )
        }),
{
}

/// A managed subscription continues exactly where the daemon has it and the cursor is well
/// formed and of the same session; the option to blame is the cursor.
pub proof fn only_own_managed_cursors_are_continued(
    initialized: InitializeResult,
    capability: Seq<char>,
    valid: Result<(), String>,
    cursor: CursorView,
    thread: Seq<char>,
)
    ensures
        ({
            let verdict = managed_resume_verdict(initialized, capability, valid, cursor, thread);
            let offered = initialized.offers(capability);
            &&& verdict is Ok <==> offered && valid is Ok && cursor.thread == thread
            &&& !offered ==> verdict == Err::<(), ManagementErrorView>(
                ManagementErrorView::UnsupportedCapability(capability),
            )
            &&& offered && verdict is Err ==> (verdict->Err_0
                matches ManagementErrorView::InvalidOptions { field, .. } && field == "cursor"@)
            &&& offered ==> (valid matches Err(reason) ==> (verdict->Err_0
                matches ManagementErrorView::InvalidOptions { message, .. } && message
                == reason@))
        }),
{
}

/// A session that is closing or closed is reported as such; one of which no more is known
/// than that it took no change is not available.
pub proof fn refused_changes_tell_the_state(lifecycle: Option<SessionLifecycleState>)
    ensures
        not_open(Some(SessionLifecycleState::Closing)) == ManagementErrorView::SessionNotOpen(
            SessionLifecycleState::Closing,
        ),
        not_open(Some(SessionLifecycleState::Closed)) == ManagementErrorView::SessionNotOpen(
            SessionLifecycleState::Closed,
        ),
        not_open(Some(SessionLifecycleState::Open)) is SessionUnavailable,
        not_open(None) is SessionUnavailable,
{
}

/// A managed subscription ends with the complaint or the failure that ended it, and a gap is
/// a complaint that holds the daemon's reason.
pub proof fn managed_ends_are_told_as_they_are(
    reason: String,
    message: Seq<char>,
    error: SessionManagementError,
)
    ensures
        managed_fault_error(FaultView::Projection(message))
            == ManagementErrorView::InvalidProjection(message),
        managed_fault_error(FaultView::Source(error)) == error@,
        managed_fault_error(FaultView::Gap(reason)) matches ManagementErrorView::InvalidProjection(
            text,
        ) && (reason@ + ")"@).is_suffix_of(text),
        managed_gap(reason@) matches ManagementErrorView::InvalidProjection(text) && (reason@
            + ")"@).is_suffix_of(text),
{
}

/// A refused option is named with its message, the bound of a limit ends with its maximum,
/// and a result is told as it is.
pub proof fn refused_options_are_named(
    field: Seq<char>,
    message: Seq<char>,
    maximum: u32,
    result: Result<(), SessionManagementError>,
)
    ensures
        option_refusal(field, message) == (ManagementErrorView::InvalidOptions { field, message }),
        digits(maximum as nat).is_suffix_of(bound_text(maximum)),
        management_outcome(result) is Ok <==> result is Ok,
        result matches Err(error) ==> management_outcome(result) == Err::<
            (),
            ManagementErrorView,
        >(error@),
{
}

/// The message of an error of session management tells its particulars.
pub proof fn management_messages_tell_their_particulars(
    field: Seq<char>,
    detail: Seq<char>,
    error: ErrorView,
    expected: u64,
    found: u64,
    cursor: CursorView,
    item_index: Option<u64>,
)
    ensures
        management_error_text(ManagementErrorView::Sdk(error)) == crate::errors::error_text(error),
        detail.is_suffix_of(
            management_error_text(ManagementErrorView::UnsupportedCapability(detail)),
        ),
        (field + ": "@ + detail).is_suffix_of(
            management_error_text(
                ManagementErrorView::InvalidOptions { field, message: detail },
            ),
        ),
        (digits(expected as nat) + ", current "@ + digits(found as nat)).is_suffix_of(
            management_error_text(
                ManagementErrorView::RevisionConflict { expected, found, cursor },
            ),
        ),
        detail.is_suffix_of(management_error_text(ManagementErrorView::TombstoneExpired(detail))),
        (detail + ": "@ + digits(found as nat) + " > "@ + digits(expected as nat)).is_suffix_of(
            management_error_text(
                ManagementErrorView::ResourceLimit {
                    resource: detail,
                    actual: found,
                    limit: expected,
                    item_index,
                },
            ),
        ),
        detail.is_suffix_of(management_error_text(ManagementErrorView::InvalidProjection(detail))),
{
}

/// How far a session has come is told by its own word, whether or not the outcome of a
/// storage failure is known is told by its own sentence.
pub proof fn states_have_their_own_words()
    ensures
        lifecycle_word(SessionLifecycleState::Open) == "Open"@,
        lifecycle_word(SessionLifecycleState::Closing) == "Closing"@,
        lifecycle_word(SessionLifecycleState::Closed) == "Closed"@,
        management_error_text(ManagementErrorView::StorageFailure(true)) != management_error_text(
            ManagementErrorView::StorageFailure(false),
        ),
{
    reveal_strlit("Session storage operation failed (outcome_unknown=true)");
    reveal_strlit("Session storage operation failed (outcome_unknown=false)");
    assert("Session storage operation failed (outcome_unknown=true)"@.len()
        != "Session storage operation failed (outcome_unknown=false)"@.len());
}

/// A bad cursor is told apart from an expired one, and a cursor of a list from one of
/// history.
pub proof fn cursors_are_told_apart()
    ensures
        "Session list cursor is invalid"@ == management_error_text(
            ManagementErrorView::ListCursorInvalid,
        ),
        "Session list cursor has expired"@ == management_error_text(
            ManagementErrorView::ListCursorExpired,
        ),
        "Session history cursor is invalid"@ == management_error_text(
            ManagementErrorView::HistoryCursorInvalid,
        ),
{
}

} // verus!
