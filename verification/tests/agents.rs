use whale_sdk::agent::{
    check_inspection, Agent, AgentDefinition, BoundTool, DeclaredTool, PackManifest,
    SessionBindKind, SessionCreationKind, ToolDescription,
};
use whale_sdk::client::ClientState;
use whale_sdk::errors::SdkError;
use whale_sdk::protocol::{ErrorCodes, InitializeResult, PeerInfo};
use whale_sdk::recovery::{
    conclude_acknowledgement, conclude_forget, definitive_rejection, require_persistent,
    require_recovery, validate_snapshot, RecoveryKey, RecoverySnapshot,
};
use whale_sdk::session_build::{
    refused_opening, rollback_error, settle_attachment, CreationStep, PersistentReply,
    SessionBuild, UnclaimedStep,
};
use whale_sdk::tool_packs::{
    bind_pack, validate_bound_pack_tools, PackBindFailure, PackClosing, PackOutcome,
};

const CODES: ErrorCodes = ErrorCodes {
    session_management_state: -32050,
    session_revision_conflict: -32051,
    session_cursor_rejected: -32052,
    session_history_gap: -32053,
    store_failed: -32041,
    recovery_unavailable: -32042,
    recovery_rejected: -32043,
};

fn definition(tool_names: &[&str]) -> AgentDefinition {
    AgentDefinition {
        name: "business".into(),
        model: "test-model".into(),
        option_model: None,
        tool_names: tool_names.iter().map(|name| name.to_string()).collect(),
        provider_ref: None,
        limited: false,
        host_context: false,
        max_steps: 10,
        timeout_ms: None,
    }
}

fn schema(text: &str) -> serde_json::Value {
    serde_json::from_str(text).unwrap()
}

fn described(name: &str) -> ToolDescription {
    ToolDescription {
        name: name.into(),
        description: "does it".into(),
        parameters: schema(r#"{"type":"object","properties":{}}"#),
        supports_parallel: true,
        require_approval: false,
    }
}

fn bound(name: &str, handler: u64) -> BoundTool {
    BoundTool { tool: described(name), handler }
}

fn declared(name: &str) -> DeclaredTool {
    DeclaredTool { tool: described(name), schema: Ok(()) }
}

fn manifest(id: &str, names: &[&str]) -> PackManifest {
    PackManifest { id: id.into(), tools: names.iter().map(|name| declared(name)).collect() }
}

fn peer(capabilities: &[&str]) -> InitializeResult {
    InitializeResult {
        server: PeerInfo { name: "d".into(), version: "1".into() },
        protocol_version: 1,
        capabilities: capabilities.iter().map(|capability| capability.to_string()).collect(),
    }
}

fn refusal(result: Result<Agent, SdkError>) -> String {
    match result {
        Err(SdkError::InvalidConfiguration(text)) => text,
        other => panic!("{other:?}"),
    }
}

fn plain_agent() -> Agent {
    Agent::agent(definition(&[]), Ok(()), Vec::new()).unwrap()
}

#[test]
fn an_agent_binds_exactly_its_tools() {
    let agent = Agent::agent_with_tool_packs(
        definition(&["b", "a", "c"]),
        Ok(()),
        vec![bound("a", 1)],
        vec![Some(manifest("p", &["b", "c"]))],
    )
    .unwrap();
    assert_eq!(agent.tools.len(), 1);
    assert_eq!(agent.pack_tool_names(), vec!["b".to_string(), "c".to_string()]);
    assert!(!agent.interactions_enabled());
    assert_eq!(agent.definition().name, "business");
    for names in [vec![], vec!["a", "b"]] {
        assert_eq!(
            refusal(Agent::agent(definition(&names), Ok(()), vec![bound("a", 1)])),
            "Host tool bindings must exactly match AgentDefinition.tool_names"
        );
    }
}

#[test]
fn duplicate_and_malformed_configuration_is_refused() {
    let with = |packs: Vec<Option<PackManifest>>| {
        refusal(Agent::agent_with_tool_packs(definition(&["a"]), Ok(()), vec![bound("a", 1)], packs))
    };
    assert_eq!(
        refusal(Agent::agent(definition(&["a"]), Err("bad name".into()), Vec::new())),
        "bad name"
    );
    assert_eq!(
        refusal(Agent::agent(definition(&["a"]), Ok(()), vec![bound("a", 1), bound("a", 2)])),
        "Duplicate host tool binding: a"
    );
    assert_eq!(
        with(vec![None]),
        "ToolPack manifest panicked while Agent configuration was captured"
    );
    assert_eq!(with(vec![Some(manifest(" p", &["b"]))]), "ToolPack IDs must be trimmed and nonempty");
    assert_eq!(with(vec![Some(manifest("", &["b"]))]), "ToolPack IDs must be trimmed and nonempty");
    assert_eq!(
        with(vec![Some(manifest("p", &["b"])), Some(manifest("p", &["c"]))]),
        "Duplicate ToolPack ID: p"
    );
    assert_eq!(with(vec![Some(manifest("p", &[]))]), "ToolPack p must declare at least one tool");
    assert_eq!(
        with(vec![Some(manifest("p", &["b "]))]),
        "ToolPack p tool names must be trimmed and nonempty"
    );
    assert_eq!(with(vec![Some(manifest("p", &["a"]))]), "Duplicate tool binding: a");
    let mut silent = manifest("p", &["b"]);
    silent.tools[0].tool.description = " \t".into();
    assert_eq!(with(vec![Some(silent)]), "ToolPack p tool b must have a nonempty description");
    let mut odd = manifest("p", &["b"]);
    odd.tools[0].schema = Err("not an object".into());
    assert_eq!(
        with(vec![Some(odd)]),
        "ToolPack p tool b has an invalid parameter schema: not an object"
    );
}

fn bind_with_schemas(frozen: serde_json::Value, bound: serde_json::Value) -> Result<(), String> {
    let mut plan = manifest("p", &["a"]);
    plan.tools[0].tool.parameters = frozen;
    let tool = ToolDescription { parameters: bound, ..described("a") };
    validate_bound_pack_tools(&plan, vec![Some(BoundTool { tool, handler: 1 })])
        .map(|_| ())
        .map_err(|error| error.message())
}

#[test]
fn schemas_are_compared_as_the_values_that_they_are() {
    let refused =
        Err("Invalid configuration: ToolPack p handler metadata does not match its frozen manifest".to_string());
    let limit = |maximum: f64| {
        let mut object = serde_json::Map::new();
        object.insert("maximum".into(), serde_json::Value::from(maximum));
        serde_json::Value::Object(object)
    };
    assert_eq!(bind_with_schemas(limit(0.5), limit(0.5)), Ok(()));
    assert_eq!(bind_with_schemas(limit(31.245270191439438), limit(31.245270191439438)), Ok(()));
    assert_eq!(bind_with_schemas(limit(31.245270191439438), limit(31.24527019143944)), refused);
    assert_eq!(
        bind_with_schemas(schema(r#"{"a":1,"b":[true]}"#), schema(r#" { "b": [ true ], "a": 1 } "#)),
        Ok(())
    );
    assert_eq!(bind_with_schemas(schema(r#"{"a":1}"#), schema(r#"{"a":2}"#)), refused);
    assert_eq!(bind_with_schemas(schema("1"), schema("1.0")), refused);
    let nested = |depth: usize| {
        (0..depth).fold(serde_json::Value::Null, |inner, _| serde_json::Value::Array(vec![inner]))
    };
    assert_eq!(bind_with_schemas(nested(200), nested(200)), Ok(()));
    assert_eq!(bind_with_schemas(nested(200), nested(201)), refused);
}

#[test]
fn bound_packs_match_their_frozen_manifest() {
    let plan = manifest("p", &["a", "b"]);
    let mut reordered = described("a");
    reordered.parameters = schema(r#"{ "properties": {}, "type": "object" }"#);
    let tools = validate_bound_pack_tools(
        &plan,
        vec![Some(bound("b", 2)), Some(BoundTool { tool: reordered, handler: 1 })],
    )
    .unwrap();
    assert_eq!(tools.iter().map(|tool| tool.handler).collect::<Vec<_>>(), vec![1, 2]);
    assert_eq!(tools[0].tool.parameters, described("a").parameters);
    let text = |handlers: Vec<Option<BoundTool>>| {
        validate_bound_pack_tools(&plan, handlers).unwrap_err().message()
    };
    assert_eq!(
        text(vec![Some(bound("a", 1)), None]),
        "Internal SDK error: ToolPack p handler metadata panicked"
    );
    assert_eq!(
        text(vec![Some(bound("a", 1)), Some(bound("a", 2))]),
        "Invalid configuration: ToolPack p returned duplicate handler names"
    );
    assert_eq!(
        text(vec![Some(bound("a", 1))]),
        "Invalid configuration: ToolPack p handlers do not match its frozen manifest"
    );
    assert_eq!(
        text(vec![Some(bound("a", 1)), Some(bound("b", 2)), Some(bound("c", 3))]),
        "Invalid configuration: ToolPack p handlers do not match its frozen manifest"
    );
    let mut changed = bound("b", 2);
    changed.tool.require_approval = true;
    assert_eq!(
        text(vec![Some(bound("a", 1)), Some(changed)]),
        "Invalid configuration: ToolPack p handler metadata does not match its frozen manifest"
    );
}

#[test]
fn failed_pack_binds_choose_rollback_or_fence() {
    let plan = manifest("p", &["a"]);
    let resolve = |outcome: PackOutcome, waiter: bool| {
        let (rollback, error) = bind_pack(&plan, outcome, waiter).unwrap_err().resolve();
        (rollback, error.message())
    };
    assert_eq!(
        resolve(PackOutcome::Closed, false),
        (false, "Communication channel closed: Client is closed".into())
    );
    assert_eq!(
        resolve(PackOutcome::Interrupted, false),
        (false, "Communication channel closed: Client closed during ToolPack bind".into())
    );
    assert_eq!(
        resolve(PackOutcome::Failed("disk".into()), false),
        (true, "Internal SDK error: ToolPack p bind failed: disk".into())
    );
    assert_eq!(
        resolve(PackOutcome::Panicked, false),
        (true, "Internal SDK error: ToolPack p bind panicked".into())
    );
    assert_eq!(
        resolve(PackOutcome::Bound(Err("tools panicked".into())), false),
        (true, "Internal SDK error: tools panicked".into())
    );
    assert_eq!(
        resolve(PackOutcome::Bound(Ok(vec![Some(bound("a", 1))])), true),
        (true, "Communication channel closed: Session creation waiter dropped".into())
    );
    let tools = bind_pack(&plan, PackOutcome::Bound(Ok(vec![Some(bound("a", 1))])), false).unwrap();
    assert_eq!(tools[0].handler, 1);
    assert!(matches!(
        bind_pack(&plan, PackOutcome::Bound(Ok(Vec::new())), true),
        Err(PackBindFailure::Rollback(_))
    ));
}

#[test]
fn missing_capability_rejects_opt_in_before_any_business_rpc() {
    let agent = plain_agent().with_interactions_enabled();
    assert!(agent.interactions_enabled());
    assert!(matches!(
        agent.check_creation(&peer(&[])),
        Err(SdkError::ProtocolCompatibility(text)) if text == "Daemon does not advertise interactions.v1"
    ));
    assert!(agent.check_creation(&peer(&["interactions.v1"])).is_ok());
}

#[test]
fn missing_limits_capability_rejects_all_entrypoints_before_any_binding_or_rpc() {
    let mut agent = plain_agent();
    agent.definition.limited = true;
    let expected = "Protocol compatibility error: Daemon does not advertise session_limits.v1";
    assert_eq!(agent.check_creation(&peer(&[])).unwrap_err().message(), expected);
    assert_eq!(
        agent
            .check_persistence(Ok(()), &peer(&["session_recovery.v1"]))
            .unwrap_err()
            .message(),
        expected
    );
    assert!(agent.check_creation(&peer(&["session_limits.v1"])).is_ok());
}

#[test]
fn a_host_context_needs_a_policy() {
    let mut agent = plain_agent();
    agent.definition.host_context = true;
    assert_eq!(
        agent.check_creation(&peer(&[])).unwrap_err().message(),
        "Invalid configuration: Host context policy requires a callback binding"
    );
    let agent = plain_agent().with_context_policy(4);
    assert!(agent.definition.host_context);
    assert!(agent.check_creation(&peer(&[])).is_ok());
}

#[test]
fn preflight_uses_the_effective_default_model() {
    let mut agent = plain_agent();
    assert_eq!(agent.inspected_model(), None);
    agent.definition.provider_ref = Some("local".into());
    assert_eq!(agent.inspected_model().as_deref(), Some("test-model"));
    agent.definition.option_model = Some("override".into());
    assert_eq!(agent.inspected_model().as_deref(), Some("override"));
}

#[test]
fn malformed_or_wrong_inspection_never_starts_a_session() {
    let local = Some("local".to_string());
    assert!(check_inspection("m", &local, "m", &local).is_ok());
    for (model, reference) in [("x", local.clone()), ("m", None)] {
        assert!(matches!(
            check_inspection("m", &local, model, &reference),
            Err(SdkError::InvalidConfiguration(text))
                if text == "Provider inspection returned a different model or provider reference"
        ));
    }
}

#[test]
fn live_sessions_have_fresh_identities() {
    let first = SessionCreationKind::Ephemeral.live_session_id();
    assert!(first.starts_with("th_"));
    assert_eq!(first.len(), 39);
    assert_ne!(first, SessionCreationKind::Ephemeral.live_session_id());
    let attach = SessionCreationKind::PersistentAttach { recovery_id: "k".into(), expected_revision: 3 };
    let id = attach.live_session_id();
    assert_eq!(id.len(), 36);
    let bytes = id.as_bytes();
    for (i, byte) in bytes.iter().enumerate() {
        match i {
            8 | 13 | 18 | 23 => assert_eq!(*byte, b'-'),
            14 => assert_eq!(*byte, b'4'),
            19 => assert!(b"89ab".contains(byte)),
            _ => assert!(byte.is_ascii_digit() || (b'a'..=b'f').contains(byte)),
        }
    }
    assert!(matches!(
        attach.bind_kind(),
        SessionBindKind::PersistentAttach { recovery_id } if recovery_id == "k"
    ));
    assert!(matches!(SessionCreationKind::Ephemeral.bind_kind(), SessionBindKind::Ephemeral));
}

#[test]
fn a_session_is_told_its_agent() {
    let metadata = plain_agent().metadata();
    assert_eq!(metadata.len(), 1);
    assert_eq!(metadata["agent_name"], serde_json::Value::String("business".into()));
}

fn key(recovery_id: &str, secret: &str) -> RecoveryKey {
    RecoveryKey { recovery_id: recovery_id.into(), secret: secret.into() }
}

fn begin(client: &mut ClientState, packs: Option<(u64, Vec<String>)>) -> SessionBuild {
    client.begin_build(&SessionCreationKind::Ephemeral, 5, packs).unwrap()
}

#[test]
fn staged_callbacks_are_inactive_until_persistent_ack_and_defaults_survive() {
    let mut client = ClientState::new();
    let mut build = begin(&mut client, Some((8, vec!["b".into()])));
    let session = build.thread_id.clone();
    let tools = vec![bound("a", 1), bound("b", 2)];
    let told = client.stage_session(&mut build, Some(3), &tools);
    let versions: Vec<String> = told.iter().map(|tool| tool.binding_id.clone()).collect();
    assert_eq!(versions.len(), 2);
    assert_eq!((told[0].tool.name.as_str(), told[1].tool.name.as_str()), ("a", "b"));
    assert_ne!(versions[0], versions[1]);
    assert!(client.check_existing_session_open(&session).is_err());
    assert_eq!(client.tools.get(&(session.clone(), "b".to_string())).map(|tool| *tool.value()), Some(2));
    assert_eq!(
        client.tool_bindings.get(&(session.clone(), versions[0].clone())).map(|tool| *tool.value()),
        Some(1)
    );
    client.open_session(&mut build, true).unwrap();
    assert!(client.check_existing_session_open(&session).is_ok());
    assert!(client.interactions_enabled(&session));
    assert!(client.ensure_dynamic_tool_name_available(&session, "b").is_err());
    assert!(client.ensure_dynamic_tool_name_available(&session, "a").is_ok());
    assert!(client.commit_build(&mut build).is_err());
    assert_eq!(client.settle_unclaimed(&session, true), UnclaimedStep::ClosePacks(8));
    assert_eq!(client.settle_unclaimed(&session, true), UnclaimedStep::Done);
    assert_eq!(client.settle_unclaimed(&session, false), UnclaimedStep::CloseClient);
}

#[test]
fn a_build_that_is_taken_down_removes_exactly_its_routes() {
    let mut client = ClientState::new();
    client.ensure_session_open("other", 1).unwrap();
    client.tools.insert(("other".into(), "a".into()), 50);
    let mut build = begin(&mut client, None);
    let session = build.thread_id.clone();
    client.stage_session(&mut build, Some(3), &vec![bound("a", 1), bound("b", 2)]);
    client.tools.insert((session.clone(), "b".into()), 99);
    client.remove_exact_routes(&build);
    assert!(client.sessions.contains_key(&session));
    assert_eq!(client.reject_prepared_session(&build.thread_id, build.id), Some(5));
    assert!(!client.sessions.contains_key(&session));
    assert!(client.context_policies.is_empty() && client.tool_bindings.is_empty());
    assert!(!client.tools.contains_key(&(session.clone(), "a".to_string())));
    assert!(client.tools.contains_key(&(session, "b".to_string())));
    assert!(client.tools.contains_key(&("other".to_string(), "a".to_string())));
}

#[test]
fn a_refused_opening_leaves_the_build_alone() {
    let mut client = ClientState::new();
    let mut build = begin(&mut client, Some((8, vec!["b".into()])));
    client.stage_session(&mut build, Some(3), &vec![bound("b", 2)]);
    client.disconnect("gone");
    assert!(client.commit_build(&mut build).is_err());
    assert!(client.open_session(&mut build, true).is_err());
    assert_eq!(build.packs, Some((8, vec!["b".to_string()])));
    assert_eq!(build.staged_names, vec![("b".to_string(), 2)]);
    assert_eq!((build.staged_versions.len(), build.context_binding), (1, Some(3)));
    let error = || SdkError::SessionClosed("s".into());
    assert!(matches!(
        refused_opening(true, error()),
        CreationStep::Abandon(SdkError::SessionClosed(session)) if session == "s"
    ));
    assert!(matches!(
        refused_opening(false, error()),
        CreationStep::Rollback { error: SdkError::SessionClosed(_), close: false }
    ));
}

#[test]
fn agent_captures_tool_metadata_for_every_later_session() {
    let captured = ToolDescription {
        name: "lookup".into(),
        description: "business lookup".into(),
        parameters: schema(r#"{"type":"object","description":"captured"}"#),
        supports_parallel: false,
        require_approval: true,
    };
    let tool = BoundTool { tool: captured.clone(), handler: 4 };
    let agent = Agent::agent(definition(&["lookup"]), Ok(()), vec![tool]).unwrap();
    let mut client = ClientState::new();
    for _ in 0..2 {
        let mut build = begin(&mut client, None);
        let told = agent.stage(&mut client, &mut build, &Vec::new());
        assert_eq!(told.len(), 1);
        assert_eq!(told[0].tool.parameters, captured.parameters);
        assert_eq!(told[0].tool.description, "business lookup");
        assert!(told[0].tool.require_approval && !told[0].tool.supports_parallel);
        assert!(told[0].is_host_tool);
        let session = build.thread_id.clone();
        let named = (session.clone(), "lookup".to_string());
        let versioned = (session, told[0].binding_id.clone());
        assert_eq!(client.tools.get(&named).map(|tool| *tool.value()), Some(4));
        assert_eq!(client.tool_bindings.get(&versioned).map(|tool| *tool.value()), Some(4));
    }
}

#[test]
fn a_session_binds_its_agents_tools_before_those_of_its_packs() {
    let agent = Agent::agent_with_tool_packs(
        definition(&["a", "b", "c"]),
        Ok(()),
        vec![bound("a", 1)],
        vec![Some(manifest("p", &["b", "c"]))],
    )
    .unwrap()
    .with_context_policy(3);
    let mut client = ClientState::new();
    let mut build = begin(&mut client, None);
    let handlers = vec![Some(bound("c", 6)), Some(bound("b", 5))];
    let bound_tools =
        bind_pack(&agent.packs[0], PackOutcome::Bound(Ok(handlers)), false).unwrap();
    let told = agent.stage(&mut client, &mut build, &bound_tools);
    let names: Vec<&str> = told.iter().map(|tool| tool.tool.name.as_str()).collect();
    assert_eq!(names, vec!["a", "b", "c"]);
    let handles: Vec<u64> = build.staged_versions.iter().map(|staged| staged.1).collect();
    assert_eq!(handles, vec![1, 5, 6]);
    assert_eq!(build.context_binding, Some(3));
}

#[test]
fn packs_are_closed_in_reverse_whether_or_not_others_fail() {
    let mut closing = PackClosing::begin(3);
    let mut order = Vec::new();
    while let Some(pack) = closing.next() {
        order.push(pack);
        closing.closed(if pack == 1 { Some("b: x".into()) } else { None });
    }
    assert_eq!(order, vec![2, 1, 0]);
    assert_eq!(closing.failures, vec!["b: x".to_string()]);
}

#[test]
fn answers_to_a_creation_choose_what_follows() {
    let mut client = ClientState::new();
    let build = begin(&mut client, None);
    let own = build.thread_id.clone();
    assert!(matches!(client.settle_creation(&build, Ok(own)), CreationStep::Commit));
    match client.settle_creation(&build, Ok("another".into())) {
        CreationStep::Rollback { error, close } => {
            assert!(close);
            assert_eq!(
                error.message(),
                "Internal SDK error: Daemon returned a different session identity"
            );
        }
        other => panic!("{other:?}"),
    }
    let step = |client: &ClientState, error: SdkError| client.settle_creation(&build, Err(error));
    let rpc = || SdkError::Rpc { code: -1, message: "no".into() };
    assert!(matches!(step(&client, rpc()), CreationStep::Rollback { close: false, .. }));
    assert!(matches!(
        step(&client, SdkError::LimitExceeded("n".into())),
        CreationStep::Rollback { close: false, .. }
    ));
    assert!(matches!(
        step(&client, SdkError::RequestTimeout("m".into())),
        CreationStep::Rollback { close: true, .. }
    ));
    client.disconnect("gone");
    assert!(matches!(step(&client, rpc()), CreationStep::Leave(_)));
}

#[test]
fn explicit_recovery_rejection_rolls_back_but_uncertain_reply_fails_closed() {
    let mut client = ClientState::new();
    let build = begin(&mut client, None);
    let step = |error: SdkError| settle_attachment(&build, &key("r", "s"), Err(error), &CODES);
    let rpc = |code| SdkError::Rpc { code, message: "m".into() };
    for code in [-32601, -32602, -32042, -32043] {
        assert!(matches!(step(rpc(code)), CreationStep::Rollback { close: false, .. }));
        assert!(definitive_rejection(&rpc(code), &CODES));
    }
    assert!(matches!(step(rpc(-32603)), CreationStep::Abandon(_)));
    assert!(matches!(step(SdkError::RequestTimeout("m".into())), CreationStep::Abandon(_)));
}

#[test]
fn wrong_persistent_identity_and_invalid_epoch_fail_closed() {
    let mut client = ClientState::new();
    let build = begin(&mut client, None);
    let reply = |thread: &str, key_id: &str, secret: &str, epoch: u64| {
        let answer = PersistentReply { thread_id: thread.into(), key: key(key_id, secret), epoch };
        settle_attachment(&build, &key("r", "s"), Ok(answer), &CODES)
    };
    assert!(matches!(reply(&build.thread_id, "r", "s", 1), CreationStep::Commit));
    for wrong in [
        reply("x", "r", "s", 1),
        reply(&build.thread_id, "q", "s", 1),
        reply(&build.thread_id, "r", "t", 1),
        reply(&build.thread_id, "r", "s", 0),
    ] {
        match wrong {
            CreationStep::Abandon(error) => assert_eq!(
                error.message(),
                "Internal SDK error: Persistent session response identity or epoch mismatch"
            ),
            other => panic!("{other:?}"),
        }
    }
    assert_eq!(client.abandon_build(&build), Some(5));
    assert!(client.check_existing_session_open(&build.thread_id).is_err());
    assert_eq!(client.abandon_build(&build), None);
}

#[test]
fn rollback_failures_are_added_to_the_error() {
    let primary = || SdkError::Internal("first".into());
    assert_eq!(rollback_error(primary(), &Vec::new()).message(), "Internal SDK error: first");
    assert_eq!(
        rollback_error(primary(), &vec!["a".into(), "b".into()]).message(),
        "Internal SDK error: Internal SDK error: first; ToolPack rollback failures: a; b"
    );
}

#[test]
fn a_closed_client_builds_no_session() {
    let mut client = ClientState::new();
    client.disconnect("gone");
    assert!(matches!(
        client.begin_build(&SessionCreationKind::Ephemeral, 5, None),
        Err(SdkError::SessionClosed(session)) if session.starts_with("th_")
    ));
}

#[test]
fn recovery_requires_optional_capability_before_any_mutation() {
    assert!(matches!(
        require_recovery(Ok(()), &peer(&[])),
        Err(SdkError::ProtocolCompatibility(text))
            if text == "Daemon does not advertise session_recovery.v1"
    ));
    assert!(matches!(
        require_recovery(Err("bad key".into()), &peer(&[])),
        Err(SdkError::InvalidConfiguration(_))
    ));
    assert!(require_recovery(Ok(()), &peer(&["session_recovery.v1"])).is_ok());
    assert!(matches!(
        require_persistent(&None),
        Err(SdkError::InvalidConfiguration(text)) if text == "Session is not persistent"
    ));
    assert_eq!(require_persistent(&Some("k".into())).unwrap(), "k");
}

#[test]
fn recovery_snapshots_are_those_of_the_record() {
    let snapshot = |id: &str, revision: u64, epoch: u64| RecoverySnapshot {
        recovery_id: id.into(),
        revision,
        epoch,
        handle: 3,
    };
    assert!(validate_snapshot(&snapshot("k", 1, 1), "k").is_ok());
    for wrong in [snapshot("x", 1, 1), snapshot("k", 0, 1), snapshot("k", 1, 0)] {
        let (result, close) = conclude_acknowledgement(Ok(wrong), "k", &CODES);
        assert!(close);
        assert_eq!(
            result.unwrap_err().message(),
            "Internal SDK error: Recovery snapshot identity or revision mismatch"
        );
    }
    let (result, close) = conclude_acknowledgement(Ok(snapshot("k", 2, 1)), "k", &CODES);
    assert!(!close && result.unwrap().handle == 3);
    let (_, close) = conclude_acknowledgement(Err(SdkError::SessionClosed("s".into())), "k", &CODES);
    assert!(!close);
    let (_, close) = conclude_acknowledgement(Err(SdkError::Internal("x".into())), "k", &CODES);
    assert!(close);
}

#[test]
fn abandoned_forget_waiter_preserves_request_and_wrong_result_fails_closed() {
    let (result, close) = conclude_forget(Ok(("k".into(), true)), "k", &CODES);
    assert!(result.unwrap() && !close);
    let (result, close) = conclude_forget(Ok(("x".into(), true)), "k", &CODES);
    assert!(close);
    assert_eq!(result.unwrap_err().message(), "Internal SDK error: Recovery forget identity mismatch");
    let rejected = SdkError::Rpc { code: -32043, message: "m".into() };
    assert!(!conclude_forget(Err(rejected), "k", &CODES).1);
    assert!(conclude_forget(Err(SdkError::RequestTimeout("m".into())), "k", &CODES).1);
}

#[test]
fn a_known_outcome_keeps_the_connection() {
    let rpc = |code: i64| SdkError::Rpc { code, message: "m".into() };
    for code in [-32601, -32602, -32042, -32043] {
        assert!(!conclude_forget(Err(rpc(code)), "k", &CODES).1);
        assert!(!conclude_acknowledgement(Err(rpc(code)), "k", &CODES).1);
    }
    for code in [-32603, -32041, -32050] {
        assert!(conclude_forget(Err(rpc(code)), "k", &CODES).1);
        assert!(conclude_acknowledgement(Err(rpc(code)), "k", &CODES).1);
    }
    let lost = || SdkError::ChannelClosed("gone".into());
    assert!(conclude_forget(Err(lost()), "k", &CODES).1);
    assert!(conclude_acknowledgement(Err(lost()), "k", &CODES).1);
    assert!(!conclude_forget(Ok(("k".into(), false)), "k", &CODES).1);
}

#[test]
fn acknowledgements_need_an_open_session() {
    let mut client = ClientState::new();
    let durable = peer(&["session_recovery.v1"]);
    assert!(client.check_acknowledgement("s", Err("ids".into()), Ok(()), &durable, 1).is_err());
    assert!(client.check_acknowledgement("s", Ok(()), Ok(()), &peer(&[]), 1).is_err());
    assert!(client.check_acknowledgement("s", Ok(()), Ok(()), &durable, 1).is_ok());
    client.close_session("s").unwrap();
    assert!(matches!(
        client.check_acknowledgement("s", Ok(()), Ok(()), &durable, 1),
        Err(SdkError::SessionClosed(_))
    ));
}
