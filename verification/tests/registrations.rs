use whale_sdk::agent::ToolDescription;
use whale_sdk::client::ClientState;
use whale_sdk::contexts::{Dispatch, HostParams, ToolExecution};
use whale_sdk::errors::SdkError;
use whale_sdk::requests::{plain_request_error, RemoteError, RequestError};
use whale_sdk::sessions::{close_result, Close, CloseReply, CloseStep};

fn client() -> ClientState {
    let mut client = ClientState::new();
    client.ensure_session_open("session", 1).unwrap();
    client.tools.insert(("session".into(), "lookup".into()), 10);
    client.tool_bindings.insert(("session".into(), "old-version".into()), 10);
    client
}

fn described(name: &str) -> ToolDescription {
    ToolDescription {
        name: name.into(),
        description: "a tool".into(),
        parameters: serde_json::from_str(r#"{"type":"object"}"#).unwrap(),
        supports_parallel: false,
        require_approval: true,
    }
}

fn tool(client: &ClientState) -> Option<u64> {
    client
        .tools
        .get(&("session".to_string(), "lookup".to_string()))
        .map(|tool| *tool.value())
}

fn bind(client: &mut ClientState, handle: u64) -> (String, Option<u64>) {
    let registration = client.begin_registration("session", &described("lookup"), 1, 77).unwrap();
    let old = client
        .bind_tool("session", "lookup", &registration.definition.binding_id, handle, 1)
        .unwrap();
    (registration.definition.binding_id, old)
}

#[test]
fn dropped_registration_waiter_still_commits_an_accepted_binding() {
    let mut client = client();
    let (binding, old) = bind(&mut client, 20);
    assert_eq!(old, Some(10));
    let (result, ended) = client.settle_registration("session", "lookup", &binding, old, Ok(()));
    assert!(result.is_ok() && ended.is_none());
    assert_eq!(tool(&client), Some(20));
    assert!(client.tool_bindings.contains_key(&("session".to_string(), "old-version".to_string())));
    assert!(client.tool_bindings.contains_key(&("session".to_string(), binding)));
}

#[test]
fn dropped_registration_waiter_rolls_back_a_rejected_binding() {
    let mut client = client();
    let (binding, old) = bind(&mut client, 20);
    let error = SdkError::Rpc { code: -32602, message: "Rejected registration".into() };
    let (result, ended) = client.settle_registration("session", "lookup", &binding, old, Err(error));
    assert!(matches!(result, Err(SdkError::Rpc { code: -32602, .. })) && ended.is_none());
    assert_eq!(tool(&client), Some(10));
    assert_eq!(client.tool_bindings.len(), 1);
}

#[test]
fn later_rejection_keeps_the_last_acknowledged_tool() {
    let mut client = client();
    let (first, old) = bind(&mut client, 20);
    client.settle_registration("session", "lookup", &first, old, Ok(())).0.unwrap();
    let (second, old) = bind(&mut client, 30);
    assert_eq!(old, Some(20));
    let error = SdkError::Rpc { code: -32602, message: "no".into() };
    client.settle_registration("session", "lookup", &second, old, Err(error)).0.unwrap_err();
    assert_eq!(tool(&client), Some(20));
}

#[test]
fn a_refused_first_registration_leaves_no_tool() {
    let mut client = ClientState::new();
    client.ensure_session_open("session", 1).unwrap();
    let (binding, old) = bind(&mut client, 20);
    assert_eq!(old, None);
    let error = SdkError::Rpc { code: -1, message: "no".into() };
    client.settle_registration("session", "lookup", &binding, old, Err(error)).0.unwrap_err();
    assert!(client.tools.is_empty() && client.tool_bindings.is_empty());
}

#[test]
fn ambiguous_registration_reply_closes_the_connection() {
    let mut client = client();
    let (binding, old) = bind(&mut client, 20);
    let malformed = SdkError::Json("missing field `registered_count`".into());
    let (result, ended) =
        client.settle_registration("session", "lookup", &binding, old, Err(malformed));
    assert!(matches!(result, Err(SdkError::Json(_))));
    assert_eq!(ended.unwrap().message, "Tool registration outcome is unknown");
    assert!(client.closed && tool(&client).is_none());
    assert!(client.tools.is_empty() && client.tool_bindings.is_empty());
    assert!(client.begin_registration("session", &described("lookup"), 1, 77).is_err());
}

#[test]
fn a_registration_that_times_out_closes_the_connection() {
    let mut client = client();
    let (binding, old) = bind(&mut client, 20);
    let error = SdkError::RequestTimeout("session.register_tools".into());
    let (result, ended) =
        client.settle_registration("session", "lookup", &binding, old, Err(error));
    assert!(matches!(result, Err(SdkError::RequestTimeout(_))));
    assert!(ended.is_some() && client.closed && client.tool_bindings.is_empty());
}

#[test]
fn a_limit_that_is_exceeded_refuses_a_registration() {
    for code in [-32031, -32030, -32602, -32603] {
        let mut client = client();
        let (binding, old) = bind(&mut client, 20);
        let answer = RemoteError { code, message: "quota".into(), data: () };
        let error = plain_request_error(RequestError::Remote(answer));
        let (result, ended) =
            client.settle_registration("session", "lookup", &binding, old, Err(error));
        match (code, result) {
            (-32031, Err(SdkError::LimitExceeded(text))) => assert_eq!(text, "quota"),
            (-32030, Err(SdkError::RunExpired(text))) => assert_eq!(text, "quota"),
            (_, Err(SdkError::Rpc { code: seen, .. })) => assert_eq!(seen, code),
            other => panic!("{other:?}"),
        }
        assert!(ended.is_none() && !client.closed);
        assert_eq!(tool(&client), Some(10));
        assert_eq!(client.tools.len(), 1);
        assert_eq!(client.tool_bindings.len(), 1);
        assert!(client
            .tool_bindings
            .contains_key(&("session".to_string(), "old-version".to_string())));
    }
}

#[test]
fn close_bypasses_pending_registration_and_late_reply_cannot_restore_bindings() {
    let mut client = client();
    let (binding, old) = bind(&mut client, 20);
    let id = client.sessions.get("session").unwrap().id;
    client.close_session("session").unwrap();
    client.release_routes("session", id);
    client.release_bindings("session", id);
    client.disconnect("gone");
    let (result, _) = client.settle_registration("session", "lookup", &binding, old, Ok(()));
    assert!(matches!(result, Err(SdkError::SessionClosed(session)) if session == "session"));
    assert!(client.tools.is_empty());
    let closed = SdkError::SessionClosed("session".into());
    let (result, ended) = client.settle_registration("session", "lookup", &binding, old, Err(closed));
    assert!(matches!(result, Err(SdkError::SessionClosed(_))) && ended.is_none());
    assert!(client.tools.is_empty() && client.tool_bindings.is_empty());
}

#[test]
fn accepted_registration_during_rejected_close_stays_registered() {
    let mut client = client();
    let (binding, old) = bind(&mut client, 20);
    let (claim, attempt) = match client.close_session("session") {
        Ok(Close::Ask { claim, attempt }) => (claim, attempt),
        other => panic!("{other:?}"),
    };
    let (result, ended) = client.settle_registration("session", "lookup", &binding, old, Ok(()));
    assert!(result.is_ok() && ended.is_none());
    let rejected = SdkError::Rpc { code: -32601, message: "unsupported".into() };
    match client.settle_close(&claim, attempt, CloseReply::Failed(rejected)) {
        CloseStep::Reopen(failure) => {
            assert!(matches!(failure.sdk(), SdkError::Rpc { code: -32601, .. }));
            assert!(close_result(&Some(Err(failure)), true).is_err());
        }
        other => panic!("{other:?}"),
    }
    assert!(client.tool_bindings.contains_key(&("session".to_string(), binding)));
    assert_eq!(tool(&client), Some(20));
    assert!(!client.closed);
}

#[test]
fn registrations_of_one_name_share_a_lock_and_have_their_own_version() {
    let mut client = client();
    let first = client.begin_registration("session", &described("lookup"), 1, 77).unwrap();
    let second = client.begin_registration("session", &described("lookup"), 1, 78).unwrap();
    let other = client.begin_registration("session", &described("other"), 1, 79).unwrap();
    assert_eq!((first.lock, second.lock, other.lock), (77, 77, 79));
    assert_ne!(first.definition.binding_id, second.definition.binding_id);
    assert!(other.definition.is_host_tool);
    assert_eq!(other.definition.tool.name, "other");
    assert_eq!(other.definition.tool.parameters, described("other").parameters);
    assert_eq!(client.tools.len(), 1);
}

#[test]
fn a_closed_session_takes_no_registration() {
    let mut client = client();
    client.close_session("session").unwrap();
    assert!(matches!(
        client.begin_registration("session", &described("lookup"), 1, 77),
        Err(SdkError::SessionClosed(_))
    ));
    assert!(client.bind_tool("session", "lookup", "v", 20, 1).is_err());
    assert_eq!(tool(&client), Some(10));
}

#[test]
fn same_tool_registrations_wait_for_prior_acknowledgement() {
    let mut client = client();
    let (rejected, old) = bind(&mut client, 20);
    let waiting = client.begin_registration("session", &described("lookup"), 1, 78).unwrap();
    assert_eq!(waiting.lock, 77);
    assert_eq!(tool(&client), Some(20));
    let error = SdkError::Rpc { code: -32602, message: "Rejected registration".into() };
    client.settle_registration("session", "lookup", &rejected, old, Err(error)).0.unwrap_err();
    let old = client.bind_tool("session", "lookup", &waiting.definition.binding_id, 30, 1).unwrap();
    assert_eq!(old, Some(10));
    client.settle_registration("session", "lookup", &waiting.definition.binding_id, old, Ok(())).0.unwrap();
    assert_eq!(tool(&client), Some(30));
}

#[test]
fn aborting_a_waiter_behind_registration_sends_no_rpc() {
    let mut client = client();
    let (accepted, old) = bind(&mut client, 20);
    client.begin_registration("session", &described("lookup"), 1, 78).unwrap();
    client.settle_registration("session", "lookup", &accepted, old, Ok(())).0.unwrap();
    assert_eq!(tool(&client), Some(20));
    assert_eq!(client.tool_bindings.len(), 2);
}

#[test]
fn registering_during_a_turn_keeps_that_turn_on_its_original_handler() {
    let mut client = client();
    let (binding, _) = bind(&mut client, 20);
    assert_eq!(tool(&client), Some(20));
    let execute = |client: &mut ClientState, call: &str, binding: &str| {
        let execution = ToolExecution {
            call_id: call.into(),
            name: "lookup".into(),
            thread_id: Some("session".into()),
            binding_id: Some(binding.into()),
            context: None,
        };
        match client.dispatch_request(call, "tool.execute_host", &HostParams::Tool(execution), 5) {
            Dispatch::RunTool { tool: Some(tool), .. } => tool,
            other => panic!("{other:?}"),
        }
    };
    assert_eq!(execute(&mut client, "call-0", "old-version"), 10);
    assert_eq!(execute(&mut client, "call-1", &binding), 20);
}
