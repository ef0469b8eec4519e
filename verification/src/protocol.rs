//! Facts about the daemon's protocol that the client relies on.

use vstd::prelude::*;

use crate::text::{contains_text, text_list};

verus! {

/// JSON-RPC: the method does not exist.
pub const METHOD_NOT_FOUND: i64 = -32601;

/// JSON-RPC: the parameters are invalid.
pub const INVALID_PARAMS: i64 = -32602;

/// JSON-RPC: the peer failed.
pub const INTERNAL_ERROR: i64 = -32603;

/// A request came before the connection was initialized.
pub const PROTOCOL_NOT_INITIALIZED: i64 = -32010;

/// The daemon no longer holds the run.
pub const RUN_EXPIRED: i64 = -32030;

/// The session may not do more.
pub const SESSION_LIMIT_EXCEEDED: i64 = -32031;

/// Error codes that the protocol version in use assigns.
#[derive(Clone, Copy, Debug, PartialEq, Eq, Structural)]
pub struct ErrorCodes {
    pub session_management_state: i64,
    pub session_revision_conflict: i64,
    pub session_cursor_rejected: i64,
    pub session_history_gap: i64,
    pub store_failed: i64,
    pub recovery_unavailable: i64,
    pub recovery_rejected: i64,
}

/// Page and window sizes that the protocol version in use admits.
#[derive(Clone, Copy, Debug, PartialEq, Eq, Structural)]
pub struct ProtocolLimits {
    pub list_page: u32,
    pub history_page: u32,
    pub history_window: u32,
    pub replay_page: u32,
}

impl ProtocolLimits {
    /// Every default of the client is admitted.
    pub open spec fn admit_defaults(self) -> bool {
        &&& self.list_page >= 64
        &&& self.history_page >= 128
        &&& self.history_window >= 256
        &&& self.replay_page >= 128
    }
}

/// Who answers on the other side.
#[derive(Clone, Debug, PartialEq, Eq)]
pub struct PeerInfo {
    pub name: String,
    pub version: String,
}

/// What the daemon said when the connection was initialized.
#[derive(Clone, Debug, PartialEq, Eq)]
pub struct InitializeResult {
    pub server: PeerInfo,
    pub protocol_version: u32,
    pub capabilities: Vec<String>,
}

impl InitializeResult {
    /// The daemon advertises `capability`.
    pub open spec fn offers(self, capability: Seq<char>) -> bool {
        text_list(self.capabilities@).contains(capability)
    }

    /// Whether the daemon advertises `capability`.
    pub fn advertises(&self, capability: &str) -> (found: bool)
        ensures
            found == self.offers(capability@),
    {
        contains_text(&self.capabilities, capability)
    }
}

/// The daemon wants a tool executed.
pub const METHOD_TOOL_EXECUTE_HOST: &'static str = "tool.execute_host";

/// The daemon no longer wants a tool executed.
pub const METHOD_TOOL_CANCEL_HOST: &'static str = "tool.cancel_host";

/// The daemon wants a context built.
pub const METHOD_CONTEXT_BUILD_HOST: &'static str = "context.build_host";

/// The daemon no longer wants a context built.
pub const METHOD_CONTEXT_CANCEL_HOST: &'static str = "context.cancel_host";

/// An event of a run.
pub const METHOD_TURN_EVENT: &'static str = "turn.event";

/// An event of a session's view.
pub const METHOD_SESSION_EVENT: &'static str = "session.event";

/// An event of a session's managed view.
pub const METHOD_SESSION_EVENT_V2: &'static str = "session.event.v2";

/// An event of a session's interactions.
pub const METHOD_SESSION_INTERACTION_EVENT: &'static str = "session.interaction_event";

/// The capability of generic interactions.
pub const CAPABILITY_INTERACTIONS: &'static str = "interactions.v1";

/// The capability of session recovery.
pub const CAPABILITY_SESSION_RECOVERY: &'static str = "session_recovery.v1";

/// The capability of session limits.
pub const CAPABILITY_SESSION_LIMITS: &'static str = "session_limits.v1";

/// A daemon advertises a capability exactly where its list holds that very text.
pub proof fn capabilities_are_listed(initialized: InitializeResult, capability: Seq<char>)
    ensures
        initialized.offers(capability) <==> exists|i: int|
            0 <= i < initialized.capabilities@.len() && (#[trigger] initialized.capabilities@[i])@
                == capability,
{
    let listed = text_list(initialized.capabilities@);
    if listed.contains(capability) {
        let i = choose|i: int| 0 <= i < listed.len() && listed[i] == capability;
        assert(initialized.capabilities@[i]@ == capability);
    }
    if exists|i: int|
        0 <= i < initialized.capabilities@.len() && (#[trigger] initialized.capabilities@[i])@
            == capability {
        let i = choose|i: int|
            0 <= i < initialized.capabilities@.len() && (#[trigger] initialized.capabilities@[i])@
                == capability;
        assert(listed[i] == capability);
    }
}

/// The defaults are admitted exactly where every one of them is within its limit.
pub proof fn defaults_fit_their_limits(limits: ProtocolLimits)
    ensures
        limits.admit_defaults() <==> 64 <= limits.list_page && 128 <= limits.history_page && 256
            <= limits.history_window && 128 <= limits.replay_page,
{
}

/// The codes are those that JSON-RPC and the daemon assign.
pub proof fn codes_are_the_assigned_ones()
    ensures
        METHOD_NOT_FOUND == -32601,
        INVALID_PARAMS == -32602,
        INTERNAL_ERROR == -32603,
        PROTOCOL_NOT_INITIALIZED == -32010,
        RUN_EXPIRED == -32030,
        SESSION_LIMIT_EXCEEDED == -32031,
{
}

} // verus!
