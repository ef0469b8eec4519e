//! Agents: what a session is configured with, and which host tools it binds.

use vstd::prelude::*;

use crate::errors::{outcome, ErrorView, SdkError};
use crate::identity::{fresh_identifier, is_identifier};
use crate::json::{
    copy_value, equal_values, insert_member, json_equal, json_string, members, new_object,
    no_members, string_value,
};
use crate::protocol::{
    InitializeResult, CAPABILITY_INTERACTIONS, CAPABILITY_SESSION_LIMITS,
};
use crate::tables::opt_text;
use crate::text::{
    blank, contains_text, is_blank, is_trimmed, join2, join3, join4, same_members,
    same_optional_text, same_text, same_texts, text_list, trimmed,
};

verus! {

/// What an agent is.
#[derive(Clone, Debug)]
pub struct AgentDefinition {
    pub name: String,
    pub model: String,
    /// The model that the default options select instead.
    pub option_model: Option<String>,
    /// The tools that the agent has, by name.
    pub tool_names: Vec<String>,
    pub provider_ref: Option<String>,
    /// The sessions have limits.
    pub limited: bool,
    /// The host builds the model's context.
    pub host_context: bool,
    pub max_steps: usize,
    pub timeout_ms: Option<u64>,
}

/// A tool as it is described to the daemon. `parameters` is the schema of its arguments.
#[derive(Debug)]
pub struct ToolDescription {
    pub name: String,
    pub description: String,
    pub parameters: serde_json::Value,
    pub supports_parallel: bool,
    pub require_approval: bool,
}

impl ToolDescription {
    /// The same tool, described the same way.
    pub open spec fn matches(self, other: ToolDescription) -> bool {
        &&& self.name@ == other.name@
        &&& self.description@ == other.description@
        &&& json_equal(self.parameters, other.parameters)
        &&& self.supports_parallel == other.supports_parallel
        &&& self.require_approval == other.require_approval
    }

    pub(crate) fn is_described_as(&self, other: &ToolDescription) -> (same: bool)
        ensures
            same == self.matches(*other),
    {
        same_text(self.name.as_str(), other.name.as_str()) && same_text(
            self.description.as_str(),
            other.description.as_str(),
        ) && equal_values(&self.parameters, &other.parameters)
            && self.supports_parallel == other.supports_parallel && self.require_approval
            == other.require_approval
    }
}

/// A tool that a pack declares. `schema` says whether its parameters are a schema.
#[derive(Debug)]
pub struct DeclaredTool {
    pub tool: ToolDescription,
    pub schema: Result<(), String>,
}

/// The same description, by its texts and its schema.
pub open spec fn same_description(left: ToolDescription, right: ToolDescription) -> bool {
    &&& left.name@ == right.name@
    &&& left.description@ == right.description@
    &&& left.parameters == right.parameters
    &&& left.supports_parallel == right.supports_parallel
    &&& left.require_approval == right.require_approval
}

impl Clone for ToolDescription {
    fn clone(&self) -> (copy: Self)
        ensures
            same_description(copy, *self),
    {
        ToolDescription {
            name: self.name.clone(),
            description: self.description.clone(),
            parameters: copy_value(&self.parameters),
            supports_parallel: self.supports_parallel,
            require_approval: self.require_approval,
        }
    }
}

impl Clone for DeclaredTool {
    fn clone(&self) -> (copy: Self)
        ensures
            same_description(copy.tool, self.tool),
            match (copy.schema, self.schema) {
                (Ok(()), Ok(())) => true,
                (Err(copied), Err(refusal)) => copied@ == refusal@,
                _ => false,
            },
    {
        DeclaredTool {
            tool: self.tool.clone(),
            schema: match &self.schema {
                Ok(()) => Ok(()),
                Err(refusal) => Err(refusal.clone()),
            },
        }
    }
}

/// What a pack of tools declares, before it is bound to a session.
#[derive(Clone, Debug)]
pub struct PackManifest {
    pub id: String,
    pub tools: Vec<DeclaredTool>,
}

/// A tool of the host. `handler` stands for the host's object.
#[derive(Clone, Debug)]
pub struct BoundTool {
    pub tool: ToolDescription,
    pub handler: u64,
}

/// A tool as the daemon is told of it, under the version that calls will name.
#[derive(Debug)]
pub struct ToolRegistration {
    pub binding_id: String,
    pub tool: ToolDescription,
    pub is_host_tool: bool,
}

impl ToolRegistration {
    /// It tells the daemon of exactly this tool of the host, under this version.
    pub open spec fn registers(self, tool: ToolDescription, version: Seq<char>) -> bool {
        &&& self.binding_id@ == version
        &&& same_description(self.tool, tool)
        &&& self.is_host_tool
    }
}

impl ToolDescription {
    /// What the daemon is told of the tool.
    pub fn registration(&self, version: String) -> (registration: ToolRegistration)
        ensures
            registration.registers(*self, version@),
    {
        ToolRegistration { binding_id: version, tool: self.clone(), is_host_tool: true }
    }
}

/// An agent with everything that its sessions bind.
#[derive(Clone, Debug)]
pub struct Agent {
    pub definition: AgentDefinition,
    pub tools: Vec<BoundTool>,
    pub packs: Vec<PackManifest>,
    pub context_policy: Option<u64>,
    pub interactions_enabled: bool,
}

/// A configuration that is refused with a message.
pub open spec fn refused(message: Seq<char>) -> ErrorView {
    ErrorView::InvalidConfiguration(message)
}

/// The names of tools of the host.
pub open spec fn tool_names(tools: Seq<BoundTool>) -> Seq<Seq<char>> {
    tools.map_values(|tool: BoundTool| tool.tool.name@)
}

/// The names when each of `tools` is bound, or the first name that is bound twice.
pub open spec fn host_names(names: Seq<Seq<char>>, tools: Seq<Seq<char>>) -> Result<
    Seq<Seq<char>>,
    ErrorView,
>
    decreases tools.len(),
{
    if tools.len() == 0 {
        Ok(names)
    } else if names.contains(tools[0]) {
        Err(refused("Duplicate host tool binding: "@ + tools[0]))
    } else {
        host_names(names.push(tools[0]), tools.skip(1))
    }
}

/// Whether a pack may declare a tool beside the names that are bound already.
pub open spec fn declared_verdict(pack: Seq<char>, declared: DeclaredTool, names: Seq<Seq<char>>) -> Result<
    (),
    ErrorView,
> {
    let name = declared.tool.name@;
    if !is_trimmed(name) {
        Err(refused("ToolPack "@ + pack + " tool names must be trimmed and nonempty"@))
    } else if is_blank(declared.tool.description@) {
        Err(
            refused(
                "ToolPack "@ + pack + " tool "@ + name + " must have a nonempty description"@,
            ),
        )
    } else if declared.schema is Err {
        Err(
            refused(
                "ToolPack "@ + pack + " tool "@ + name + " has an invalid parameter schema: "@
                    + declared.schema->Err_0@,
            ),
        )
    } else if names.contains(name) {
        Err(refused("Duplicate tool binding: "@ + name))
    } else {
        Ok(())
    }
}

/// The names when each of a pack's tools is bound, or why the first one cannot be.
pub open spec fn declared_names(pack: Seq<char>, tools: Seq<DeclaredTool>, names: Seq<Seq<char>>) -> Result<
    Seq<Seq<char>>,
    ErrorView,
>
    decreases tools.len(),
{
    if tools.len() == 0 {
        Ok(names)
    } else {
        match declared_verdict(pack, tools[0], names) {
            Err(error) => Err(error),
            Ok(()) => declared_names(pack, tools.skip(1), names.push(tools[0].tool.name@)),
        }
    }
}

/// The names when a pack's tools are bound, or why they cannot be.
pub open spec fn pack_names(
    pack: Option<PackManifest>,
    packs: Seq<Seq<char>>,
    names: Seq<Seq<char>>,
) -> Result<Seq<Seq<char>>, ErrorView> {
    match pack {
        None => Err(
            refused("ToolPack manifest panicked while Agent configuration was captured"@),
        ),
        Some(manifest) => if !is_trimmed(manifest.id@) {
            Err(refused("ToolPack IDs must be trimmed and nonempty"@))
        } else if packs.contains(manifest.id@) {
            Err(refused("Duplicate ToolPack ID: "@ + manifest.id@))
        } else if manifest.tools@.len() == 0 {
            Err(refused("ToolPack "@ + manifest.id@ + " must declare at least one tool"@))
        } else {
            declared_names(manifest.id@, manifest.tools@, names)
        },
    }
}

/// The names when the tools of all packs are bound, or why they cannot be.
pub open spec fn all_pack_names(
    manifests: Seq<Option<PackManifest>>,
    packs: Seq<Seq<char>>,
    names: Seq<Seq<char>>,
) -> Result<Seq<Seq<char>>, ErrorView>
    decreases manifests.len(),
{
    if manifests.len() == 0 {
        Ok(names)
    } else {
        match pack_names(manifests[0], packs, names) {
            Err(error) => Err(error),
            Ok(more) => all_pack_names(
                manifests.skip(1),
                packs.push(manifests[0]->0.id@),
                more,
            ),
        }
    }
}

/// Whether an agent can be configured this way: its definition is valid, no name is
/// bound twice, and exactly the names of the definition are bound.
pub open spec fn agent_verdict(
    valid: Result<(), String>,
    expected: Seq<Seq<char>>,
    tools: Seq<Seq<char>>,
    manifests: Seq<Option<PackManifest>>,
) -> Result<(), ErrorView> {
    match valid {
        Err(reason) => Err(refused(reason@)),
        Ok(()) => match host_names(Seq::empty(), tools) {
            Err(error) => Err(error),
            Ok(names) => match all_pack_names(manifests, Seq::empty(), names) {
                Err(error) => Err(error),
                Ok(all) => if same_members(all, expected) {
                    Ok(())
                } else {
                    Err(
                        refused(
                            "Host tool bindings must exactly match AgentDefinition.tool_names"@,
                        ),
                    )
                },
            },
        },
    }
}

/// The agent holds exactly these tools and packs, and its definition expects their names.
pub open spec fn captured_as(
    agent: Agent,
    expected: Seq<Seq<char>>,
    tools: Seq<BoundTool>,
    manifests: Seq<Option<PackManifest>>,
) -> bool {
    &&& agent_verdict(Ok(()), expected, tool_names(tools), manifests) is Ok
    &&& agent.tools@ == tools
    &&& agent.packs@ == read_manifests(manifests)
}

fn invalid(message: String) -> (error: SdkError)
    ensures
        error@ == refused(message@),
{
    SdkError::InvalidConfiguration(message)
}

proof fn lemma_push_name(names: Seq<String>, name: String)
    ensures
        text_list(names.push(name)) == text_list(names).push(name@),
{
    assert(text_list(names.push(name)) =~= text_list(names).push(name@));
}

fn bind_host_names(tools: &Vec<BoundTool>) -> (result: Result<Vec<String>, SdkError>)
    ensures
        match result {
            Ok(names) => host_names(Seq::empty(), tool_names(tools@)) == Ok::<
                Seq<Seq<char>>,
                ErrorView,
            >(text_list(names@)),
            Err(error) => host_names(Seq::empty(), tool_names(tools@)) == Err::<
                Seq<Seq<char>>,
                ErrorView,
            >(error@),
        },
{
    let ghost all = tool_names(tools@);
    let mut names: Vec<String> = Vec::new();
    let mut i: usize = 0;
    assert(text_list(names@) =~= Seq::empty());
    assert(all.skip(0) =~= all);
    while i < tools.len()
        invariant
            i <= tools.len(),
            all == tool_names(tools@),
            host_names(Seq::empty(), all) == host_names(text_list(names@), all.skip(i as int)),
        decreases tools.len() - i,
    {
        let name = &tools[i].tool.name;
        assert(all.skip(i as int)[0] == name@);
        assert(all.skip(i as int).skip(1) =~= all.skip(i + 1));
        if contains_text(&names, name.as_str()) {
            return Err(invalid(join2("Duplicate host tool binding: ", name.as_str())));
        }
        let copy = name.clone();
        proof {
            lemma_push_name(names@, copy);
        }
        names.push(copy);
        i = i + 1;
    }
    Ok(names)
}

fn check_declared(pack: &str, declared: &DeclaredTool, names: &Vec<String>) -> (result: Result<
    (),
    SdkError,
>)
    ensures
        outcome(result) == declared_verdict(pack@, *declared, text_list(names@)),
{
    let name = declared.tool.name.as_str();
    if !trimmed(name) {
        return Err(
            invalid(join3("ToolPack ", pack, " tool names must be trimmed and nonempty")),
        );
    }
    let mut subject = join4("ToolPack ", pack, " tool ", name);
    if blank(declared.tool.description.as_str()) {
        subject.append(" must have a nonempty description");
        return Err(invalid(subject));
    }
    if let Err(reason) = &declared.schema {
        subject.append(" has an invalid parameter schema: ");
        subject.append(reason.as_str());
        return Err(invalid(subject));
    }
    if contains_text(names, name) {
        return Err(invalid(join2("Duplicate tool binding: ", name)));
    }
    Ok(())
}

fn bind_declared(pack: &str, tools: &Vec<DeclaredTool>, names: &mut Vec<String>) -> (result: Result<
    (),
    SdkError,
>)
    ensures
        match result {
            Ok(()) => declared_names(pack@, tools@, text_list(old(names)@)) == Ok::<
                Seq<Seq<char>>,
                ErrorView,
            >(text_list(final(names)@)),
            Err(error) => declared_names(pack@, tools@, text_list(old(names)@)) == Err::<
                Seq<Seq<char>>,
                ErrorView,
            >(error@),
        },
{
    let ghost start = text_list(names@);
    let mut i: usize = 0;
    assert(tools@.skip(0) =~= tools@);
    while i < tools.len()
        invariant
            i <= tools.len(),
            start == text_list(old(names)@),
            declared_names(pack@, tools@, start) == declared_names(
                pack@,
                tools@.skip(i as int),
                text_list(names@),
            ),
        decreases tools.len() - i,
    {
        let declared = &tools[i];
        assert(tools@.skip(i as int)[0] == *declared);
        assert(tools@.skip(i as int).skip(1) =~= tools@.skip(i + 1));
        if let Err(error) = check_declared(pack, declared, names) {
            return Err(error);
        }
        let copy = declared.tool.name.clone();
        proof {
            lemma_push_name(names@, copy);
        }
        names.push(copy);
        i = i + 1;
    }
    Ok(())
}

fn bind_pack_names(pack: &Option<PackManifest>, packs: &mut Vec<String>, names: &mut Vec<String>) -> (result:
    Result<(), SdkError>)
    ensures
        match result {
            Ok(()) => {
                &&& pack is Some
                &&& pack_names(*pack, text_list(old(packs)@), text_list(old(names)@)) == Ok::<
                    Seq<Seq<char>>,
                    ErrorView,
                >(text_list(final(names)@))
                &&& text_list(final(packs)@) == text_list(old(packs)@).push(pack->0.id@)
            },
            Err(error) => pack_names(*pack, text_list(old(packs)@), text_list(old(names)@))
                == Err::<Seq<Seq<char>>, ErrorView>(error@),
        },
{
    let manifest = match pack {
        Some(manifest) => manifest,
        None => return Err(
            invalid(
                "ToolPack manifest panicked while Agent configuration was captured".to_owned(),
            ),
        ),
    };
    let id = manifest.id.as_str();
    if !trimmed(id) {
        return Err(invalid("ToolPack IDs must be trimmed and nonempty".to_owned()));
    }
    if contains_text(packs, id) {
        return Err(invalid(join2("Duplicate ToolPack ID: ", id)));
    }
    if manifest.tools.len() == 0 {
        return Err(invalid(join3("ToolPack ", id, " must declare at least one tool")));
    }
    if let Err(error) = bind_declared(id, &manifest.tools, names) {
        return Err(error);
    }
    let copy = manifest.id.clone();
    proof {
        lemma_push_name(packs@, copy);
    }
    packs.push(copy);
    Ok(())
}

fn bind_all_packs(manifests: &Vec<Option<PackManifest>>, names: &mut Vec<String>) -> (result: Result<
    (),
    SdkError,
>)
    ensures
        match result {
            Ok(()) => {
                &&& all_pack_names(manifests@, Seq::empty(), text_list(old(names)@)) == Ok::<
                    Seq<Seq<char>>,
                    ErrorView,
                >(text_list(final(names)@))
                &&& forall|i: int| 0 <= i < manifests@.len() ==> (#[trigger] manifests@[i]) is Some
            },
            Err(error) => all_pack_names(manifests@, Seq::empty(), text_list(old(names)@))
                == Err::<Seq<Seq<char>>, ErrorView>(error@),
        },
{
    let ghost start = text_list(names@);
    let mut packs: Vec<String> = Vec::new();
    let mut i: usize = 0;
    assert(text_list(packs@) =~= Seq::empty());
    assert(manifests@.skip(0) =~= manifests@);
    while i < manifests.len()
        invariant
            i <= manifests.len(),
            start == text_list(old(names)@),
            all_pack_names(manifests@, Seq::empty(), start) == all_pack_names(
                manifests@.skip(i as int),
                text_list(packs@),
                text_list(names@),
            ),
            forall|j: int| 0 <= j < i ==> (#[trigger] manifests@[j]) is Some,
        decreases manifests.len() - i,
    {
        assert(manifests@.skip(i as int)[0] == manifests@[i as int]);
        assert(manifests@.skip(i as int).skip(1) =~= manifests@.skip(i + 1));
        if let Err(error) = bind_pack_names(&manifests[i], &mut packs, names) {
            return Err(error);
        }
        i = i + 1;
    }
    Ok(())
}

/// The manifests of packs that could be read.
pub open spec fn read_manifests(manifests: Seq<Option<PackManifest>>) -> Seq<PackManifest> {
    manifests.map_values(|manifest: Option<PackManifest>| manifest->0)
}

fn take_manifests(manifests: Vec<Option<PackManifest>>) -> (packs: Vec<PackManifest>)
    requires
        forall|i: int| 0 <= i < manifests@.len() ==> (#[trigger] manifests@[i]) is Some,
    ensures
        packs@ == read_manifests(manifests@),
{
    let ghost all = manifests@;
    let mut rest = manifests;
    let mut packs: Vec<PackManifest> = Vec::new();
    while rest.len() > 0
        invariant
            forall|i: int| 0 <= i < all.len() ==> (#[trigger] all[i]) is Some,
            rest@.len() + packs@.len() == all.len(),
            rest@ == all.skip(packs@.len() as int),
            packs@ == read_manifests(all.take(packs@.len() as int)),
        decreases rest@.len(),
    {
        let ghost done = packs@.len() as int;
        let manifest = rest.remove(0);
        assert(manifest == all[done]);
        assert(rest@ =~= all.skip(done + 1));
        if let Some(manifest) = manifest {
            packs.push(manifest);
        }
        assert(packs@ =~= read_manifests(all.take(done + 1)));
    }
    assert(all.take(packs@.len() as int) =~= all);
    packs
}

impl Agent {
    /// Captures a configuration and the exact tools of the host, without starting a
    /// session. `valid` says whether the definition is; a pack whose manifest could not
    /// be read is `None`.
    pub fn agent_with_tool_packs(
        definition: AgentDefinition,
        valid: Result<(), String>,
        tools: Vec<BoundTool>,
        packs: Vec<Option<PackManifest>>,
    ) -> (result: Result<Agent, SdkError>)
        ensures
            match result {
                Ok(agent) => {
                    &&& agent_verdict(
                        valid,
                        text_list(definition.tool_names@),
                        tool_names(tools@),
                        packs@,
                    ) is Ok
                    &&& agent.definition == definition
                    &&& agent.tools == tools
                    &&& agent.packs@ == read_manifests(packs@)
                    &&& captured_as(
                        agent,
                        text_list(definition.tool_names@),
                        tools@,
                        packs@,
                    )
                    &&& agent.context_policy is None
                    &&& !agent.interactions_enabled
                },
                Err(error) => agent_verdict(
                    valid,
                    text_list(definition.tool_names@),
                    tool_names(tools@),
                    packs@,
                ) == Err::<(), ErrorView>(error@),
            },
    {
        if let Err(reason) = valid {
            return Err(invalid(reason));
        }
        let mut names = match bind_host_names(&tools) {
            Ok(names) => names,
            Err(error) => return Err(error),
        };
        if let Err(error) = bind_all_packs(&packs, &mut names) {
            return Err(error);
        }
        if !same_texts(&names, &definition.tool_names) {
            return Err(
                invalid(
                    "Host tool bindings must exactly match AgentDefinition.tool_names".to_owned(),
                ),
            );
        }
        let packs = take_manifests(packs);
        Ok(Agent { definition, tools, packs, context_policy: None, interactions_enabled: false })
    }

    /// Captures a configuration without packs.
    pub fn agent(definition: AgentDefinition, valid: Result<(), String>, tools: Vec<BoundTool>) -> (result:
        Result<Agent, SdkError>)
        ensures
            match result {
                Ok(agent) => {
                    &&& agent_verdict(
                        valid,
                        text_list(definition.tool_names@),
                        tool_names(tools@),
                        Seq::empty(),
                    ) is Ok
                    &&& agent.definition == definition
                    &&& agent.tools == tools
                    &&& agent.packs@.len() == 0
                    &&& captured_as(
                        agent,
                        text_list(definition.tool_names@),
                        tools@,
                        Seq::empty(),
                    )
                    &&& agent.context_policy is None
                    &&& !agent.interactions_enabled
                },
                Err(error) => agent_verdict(
                    valid,
                    text_list(definition.tool_names@),
                    tool_names(tools@),
                    Seq::empty(),
                ) == Err::<(), ErrorView>(error@),
            },
    {
        let packs: Vec<Option<PackManifest>> = Vec::new();
        assert(packs@ =~= Seq::empty());
        Agent::agent_with_tool_packs(definition, valid, tools, packs)
    }

    /// Lets the sessions of this agent use interactions.
    pub fn with_interactions_enabled(self) -> (agent: Agent)
        ensures
            agent == (Agent { interactions_enabled: true, ..self }),
    {
        let mut agent = self;
        agent.interactions_enabled = true;
        agent
    }

    /// Whether the sessions of this agent use interactions.
    pub fn interactions_enabled(&self) -> (enabled: bool)
        ensures
            enabled == self.interactions_enabled,
    {
        self.interactions_enabled
    }

    /// Lets the host build the model's context with `policy`.
    pub fn with_context_policy(self, policy: u64) -> (agent: Agent)
        ensures
            agent == (Agent {
                definition: AgentDefinition { host_context: true, ..self.definition },
                context_policy: Some(policy),
                ..self
            }),
    {
        let mut agent = self;
        agent.definition.host_context = true;
        agent.context_policy = Some(policy);
        agent
    }

    /// What the agent is.
    pub fn definition(&self) -> (definition: &AgentDefinition)
        ensures
            *definition == self.definition,
    {
        &self.definition
    }

    /// The model that the agent selects.
    pub open spec fn selected_model(self) -> Seq<char> {
        match self.definition.option_model {
            Some(model) => model@,
            None => self.definition.model@,
        }
    }

    /// The model that a provider is inspected for, if one is referred to at all.
    pub fn inspected_model(&self) -> (model: Option<String>)
        ensures
            opt_text(model) == if self.definition.provider_ref is Some {
                Some(self.selected_model())
            } else {
                None
            },
    {
        if self.definition.provider_ref.is_none() {
            return None;
        }
        match &self.definition.option_model {
            Some(model) => Some(model.clone()),
            None => Some(self.definition.model.clone()),
        }
    }

    /// Whether the daemon has the interactions that the agent's sessions use.
    pub fn require_interactions(&self, initialized: &InitializeResult) -> (result: Result<
        (),
        SdkError,
    >)
        ensures
            outcome(result) == interactions_verdict(*self, *initialized),
    {
        if self.interactions_enabled && !initialized.advertises(CAPABILITY_INTERACTIONS) {
            return Err(
                SdkError::ProtocolCompatibility(
                    "Daemon does not advertise interactions.v1".to_owned(),
                ),
            );
        }
        Ok(())
    }

    /// Whether the daemon has the limits that the agent's sessions have.
    pub fn require_limits(&self, initialized: &InitializeResult) -> (result: Result<(), SdkError>)
        ensures
            outcome(result) == limits_verdict(*self, *initialized),
    {
        if self.definition.limited && !initialized.advertises(CAPABILITY_SESSION_LIMITS) {
            return Err(
                SdkError::ProtocolCompatibility(
                    "Daemon does not advertise session_limits.v1".to_owned(),
                ),
            );
        }
        Ok(())
    }

    /// Whether the host has the policy that the agent's sessions need.
    pub fn require_policy(&self) -> (result: Result<(), SdkError>)
        ensures
            outcome(result) == policy_verdict(*self),
    {
        if self.definition.host_context && self.context_policy.is_none() {
            return Err(
                invalid("Host context policy requires a callback binding".to_owned()),
            );
        }
        Ok(())
    }

    /// Whether a session can be created, before anything is asked of the daemon.
    pub fn check_creation(&self, initialized: &InitializeResult) -> (result: Result<(), SdkError>)
        ensures
            outcome(result) == creation_verdict(*self, *initialized),
    {
        if let Err(error) = self.require_interactions(initialized) {
            return Err(error);
        }
        if let Err(error) = self.require_limits(initialized) {
            return Err(error);
        }
        self.require_policy()
    }

    /// The names of the tools that the agent's packs own.
    pub fn pack_tool_names(&self) -> (names: Vec<String>)
        ensures
            text_list(names@) == owned_names(self.packs@),
    {
        let mut names: Vec<String> = Vec::new();
        let mut i: usize = 0;
        assert(text_list(names@) =~= Seq::empty());
        while i < self.packs.len()
            invariant
                i <= self.packs.len(),
                text_list(names@) == owned_names(self.packs@.take(i as int)),
            decreases self.packs.len() - i,
        {
            let ghost next = self.packs@.take(i + 1);
            assert(next.drop_last() =~= self.packs@.take(i as int));
            let ghost before = text_list(names@);
            let tools = &self.packs[i].tools;
            let mut j: usize = 0;
            assert(before + declared_list(tools@.take(0)) =~= before);
            while j < tools.len()
                invariant
                    j <= tools.len(),
                    text_list(names@) == before + declared_list(tools@.take(j as int)),
                decreases tools.len() - j,
            {
                let copy = tools[j].tool.name.clone();
                proof {
                    lemma_push_name(names@, copy);
                    assert(declared_list(tools@.take(j + 1)) =~= declared_list(
                        tools@.take(j as int),
                    ).push(copy@));
                }
                names.push(copy);
                j = j + 1;
            }
            assert(tools@.take(j as int) =~= tools@);
            i = i + 1;
        }
        assert(self.packs@.take(i as int) =~= self.packs@);
        names
    }

    /// What a new session is told of its agent.
    pub fn metadata(&self) -> (metadata: serde_json::Map<String, serde_json::Value>)
        ensures
            members(metadata) == no_members().insert(
                "agent_name"@,
                json_string(self.definition.name@),
            ),
    {
        let mut metadata = new_object();
        insert_member(&mut metadata, "agent_name", string_value(self.definition.name.clone()));
        metadata
    }
}

/// The names of declared tools.
pub open spec fn declared_list(tools: Seq<DeclaredTool>) -> Seq<Seq<char>> {
    tools.map_values(|declared: DeclaredTool| declared.tool.name@)
}

/// The names of the tools of packs, in order.
pub open spec fn owned_names(packs: Seq<PackManifest>) -> Seq<Seq<char>>
    decreases packs.len(),
{
    if packs.len() == 0 {
        Seq::empty()
    } else {
        owned_names(packs.drop_last()) + declared_list(packs.last().tools@)
    }
}

/// Whether the daemon has the interactions that an agent's sessions use.
pub open spec fn interactions_verdict(agent: Agent, initialized: InitializeResult) -> Result<
    (),
    ErrorView,
> {
    if agent.interactions_enabled && !initialized.offers(CAPABILITY_INTERACTIONS@) {
        Err(ErrorView::ProtocolCompatibility("Daemon does not advertise interactions.v1"@))
    } else {
        Ok(())
    }
}

/// Whether the daemon has the limits that an agent's sessions have.
pub open spec fn limits_verdict(agent: Agent, initialized: InitializeResult) -> Result<
    (),
    ErrorView,
> {
    if agent.definition.limited && !initialized.offers(CAPABILITY_SESSION_LIMITS@) {
        Err(ErrorView::ProtocolCompatibility("Daemon does not advertise session_limits.v1"@))
    } else {
        Ok(())
    }
}

/// Whether the host has the policy that an agent's sessions need.
pub open spec fn policy_verdict(agent: Agent) -> Result<(), ErrorView> {
    if agent.definition.host_context && agent.context_policy is None {
        Err(refused("Host context policy requires a callback binding"@))
    } else {
        Ok(())
    }
}

/// Whether a session can be created, before anything is asked of the daemon.
pub open spec fn creation_verdict(agent: Agent, initialized: InitializeResult) -> Result<
    (),
    ErrorView,
> {
    if interactions_verdict(agent, initialized) is Err {
        interactions_verdict(agent, initialized)
    } else if limits_verdict(agent, initialized) is Err {
        limits_verdict(agent, initialized)
    } else {
        policy_verdict(agent)
    }
}

/// Whether the daemon inspected the provider that it was asked about, so that no other
/// one is selected in silence.
pub fn check_inspection(
    model: &str,
    provider_ref: &Option<String>,
    inspected_model: &str,
    inspected_ref: &Option<String>,
) -> (result: Result<(), SdkError>)
    ensures
        outcome(result) == if inspected_model@ == model@ && opt_text(*inspected_ref) == opt_text(
            *provider_ref,
        ) {
            Ok(())
        } else {
            Err(
                refused(
                    "Provider inspection returned a different model or provider reference"@,
                ),
            )
        },
{
    if same_text(inspected_model, model) && same_optional_text(inspected_ref, provider_ref) {
        Ok(())
    } else {
        Err(
            invalid(
                "Provider inspection returned a different model or provider reference".to_owned(),
            ),
        )
    }
}

/// Which session is created.
#[derive(Debug)]
pub enum SessionCreationKind {
    Ephemeral,
    PersistentCreate { recovery_id: String },
    PersistentAttach { recovery_id: String, expected_revision: u64 },
}

/// What packs are told of the session that they are bound to.
#[derive(Clone, Debug, PartialEq, Eq)]
pub enum SessionBindKind {
    Ephemeral,
    PersistentCreate { recovery_id: String },
    PersistentAttach { recovery_id: String },
}

/// The identity of a live session: a fresh one, marked where the session is ephemeral.
pub open spec fn is_live_id(kind: SessionCreationKind, id: Seq<char>) -> bool {
    match kind {
        SessionCreationKind::Ephemeral => {
            &&& id.len() == 39
            &&& id.take(3) == "th_"@
            &&& is_identifier(id.skip(3))
        },
        _ => is_identifier(id),
    }
}

impl SessionCreationKind {
    /// A fresh identity for the live session.
    pub fn live_session_id(&self) -> (id: String)
        ensures
            is_live_id(*self, id@),
    {
        let fresh = fresh_identifier();
        match self {
            SessionCreationKind::Ephemeral => {
                let id = join2("th_", fresh.as_str());
                proof {
                    reveal_strlit("th_");
                    assert(id@.take(3) =~= "th_"@);
                    assert(id@.skip(3) =~= fresh@);
                }
                id
            },
            _ => fresh,
        }
    }

    /// What packs are told of the session.
    pub fn bind_kind(&self) -> (kind: SessionBindKind)
        ensures
            match (*self, kind) {
                (SessionCreationKind::Ephemeral, SessionBindKind::Ephemeral) => true,
                (
                    SessionCreationKind::PersistentCreate { recovery_id },
                    SessionBindKind::PersistentCreate { recovery_id: told },
                ) => told@ == recovery_id@,
                (
                    SessionCreationKind::PersistentAttach { recovery_id, .. },
                    SessionBindKind::PersistentAttach { recovery_id: told },
                ) => told@ == recovery_id@,
                _ => false,
            },
    {
        match self {
            SessionCreationKind::Ephemeral => SessionBindKind::Ephemeral,
            SessionCreationKind::PersistentCreate { recovery_id } =>
                SessionBindKind::PersistentCreate { recovery_id: recovery_id.clone() },
            SessionCreationKind::PersistentAttach { recovery_id, .. } =>
                SessionBindKind::PersistentAttach { recovery_id: recovery_id.clone() },
        }
    }
}

/// The names that packs declare, in order.
pub open spec fn manifest_names(manifests: Seq<Option<PackManifest>>) -> Seq<Seq<char>>
    decreases manifests.len(),
{
    if manifests.len() == 0 {
        Seq::empty()
    } else {
        declared_list(manifests[0]->0.tools@) + manifest_names(manifests.skip(1))
    }
}

pub(crate) proof fn lemma_owned_names(manifests: Seq<Option<PackManifest>>)
    ensures
        owned_names(read_manifests(manifests)) == manifest_names(manifests),
    decreases manifests.len(),
{
    let packs = read_manifests(manifests);
    if manifests.len() == 0 {
        assert(owned_names(packs) =~= manifest_names(manifests));
    } else {
        lemma_owned_names(manifests.skip(1));
        assert(packs.skip(1) =~= read_manifests(manifests.skip(1)));
        lemma_owned_names_first(packs);
    }
}

proof fn lemma_owned_names_first(packs: Seq<PackManifest>)
    requires
        packs.len() > 0,
    ensures
        owned_names(packs) == declared_list(packs[0].tools@) + owned_names(packs.skip(1)),
    decreases packs.len(),
{
    if packs.len() == 1 {
        assert(owned_names(packs.drop_last()) =~= Seq::empty());
        assert(owned_names(packs.skip(1)) =~= Seq::empty());
        assert(owned_names(packs) =~= declared_list(packs[0].tools@) + owned_names(packs.skip(1)));
    } else {
        lemma_owned_names_first(packs.drop_last());
        assert(packs.drop_last().skip(1) =~= packs.skip(1).drop_last());
        assert(owned_names(packs) =~= declared_list(packs[0].tools@) + owned_names(packs.skip(1)));
    }
}

/// A pack whose manifest could be read, with an identity and at least one tool, each of
/// them described in full.
pub open spec fn well_formed(manifest: Option<PackManifest>) -> bool {
    manifest matches Some(pack) && {
        &&& is_trimmed(pack.id@)
        &&& pack.tools@.len() > 0
        &&& forall|k: int| 0 <= k < pack.tools@.len() ==> fully_described(#[trigger] pack.tools@[k])
    }
}

/// A tool with a trimmed name, a description and a schema.
pub open spec fn fully_described(declared: DeclaredTool) -> bool {
    &&& is_trimmed(declared.tool.name@)
    &&& !is_blank(declared.tool.description@)
    &&& declared.schema is Ok
}

/// The identities of packs, in order.
pub open spec fn pack_ids(manifests: Seq<Option<PackManifest>>) -> Seq<Seq<char>> {
    manifests.map_values(|manifest: Option<PackManifest>| manifest->0.id@)
}

/// Every pack is well formed, and no two have the same identity.
pub open spec fn proper_packs(manifests: Seq<Option<PackManifest>>) -> bool {
    &&& forall|i: int| 0 <= i < manifests.len() ==> well_formed(#[trigger] manifests[i])
    &&& pack_ids(manifests).no_duplicates()
}

/// An agent that is captured has proper packs, binds every name once, and exactly the names
/// of its definition.
pub proof fn captured_names_are_exact(
    expected: Seq<Seq<char>>,
    tools: Seq<Seq<char>>,
    manifests: Seq<Option<PackManifest>>,
)
    requires
        agent_verdict(Ok(()), expected, tools, manifests) is Ok,
    ensures
        (tools + manifest_names(manifests)).no_duplicates(),
        same_members(tools + manifest_names(manifests), expected),
        proper_packs(manifests),
{
    lemma_host_names(Seq::empty(), tools);
    assert(Seq::<Seq<char>>::empty() + tools =~= tools);
    lemma_pack_names(manifests, Seq::empty(), tools);
    assert(Seq::<Seq<char>>::empty() + pack_ids(manifests) =~= pack_ids(manifests));
}

/// An agent with proper packs that binds every name once, and exactly the names of its
/// definition, is captured.
pub proof fn exact_names_are_captured(
    expected: Seq<Seq<char>>,
    tools: Seq<Seq<char>>,
    manifests: Seq<Option<PackManifest>>,
)
    requires
        (tools + manifest_names(manifests)).no_duplicates(),
        same_members(tools + manifest_names(manifests), expected),
        proper_packs(manifests),
    ensures
        agent_verdict(Ok(()), expected, tools, manifests) is Ok,
{
    let all = tools + manifest_names(manifests);
    assert(tools.no_duplicates()) by {
        assert(tools =~= all.take(tools.len() as int));
    }
    assert(Seq::<Seq<char>>::empty() + tools =~= tools);
    lemma_host_names_bound(Seq::empty(), tools);
    assert(Seq::<Seq<char>>::empty() + pack_ids(manifests) =~= pack_ids(manifests));
    lemma_pack_names_bound(manifests, Seq::empty(), tools);
}

proof fn lemma_host_names_bound(names: Seq<Seq<char>>, tools: Seq<Seq<char>>)
    requires
        (names + tools).no_duplicates(),
    ensures
        host_names(names, tools) == Ok::<Seq<Seq<char>>, ErrorView>(names + tools),
    decreases tools.len(),
{
    if tools.len() > 0 {
        lemma_not_bound(names, tools);
        assert(names.push(tools[0]) + tools.skip(1) =~= names + tools);
        lemma_host_names_bound(names.push(tools[0]), tools.skip(1));
    } else {
        assert(names + tools =~= names);
    }
}

/// Of names that are all different, the first of the later ones is not among the earlier.
proof fn lemma_not_bound(names: Seq<Seq<char>>, more: Seq<Seq<char>>)
    requires
        (names + more).no_duplicates(),
        more.len() > 0,
    ensures
        !names.contains(more[0]),
{
    let all = names + more;
    if names.contains(more[0]) {
        let i = choose|i: int| 0 <= i < names.len() && names[i] == more[0];
        assert(all[i] == all[names.len() as int]);
    }
}

proof fn lemma_declared_names_bound(
    pack: Seq<char>,
    tools: Seq<DeclaredTool>,
    names: Seq<Seq<char>>,
)
    requires
        (names + declared_list(tools)).no_duplicates(),
        forall|k: int| 0 <= k < tools.len() ==> fully_described(#[trigger] tools[k]),
    ensures
        declared_names(pack, tools, names) == Ok::<Seq<Seq<char>>, ErrorView>(
            names + declared_list(tools),
        ),
    decreases tools.len(),
{
    if tools.len() > 0 {
        let name = tools[0].tool.name@;
        assert(declared_list(tools)[0] == name);
        lemma_not_bound(names, declared_list(tools));
        assert(fully_described(tools[0]));
        assert(names.push(name) + declared_list(tools.skip(1)) =~= names + declared_list(tools));
        lemma_declared_names_bound(pack, tools.skip(1), names.push(name));
    } else {
        assert(names + declared_list(tools) =~= names);
    }
}

proof fn lemma_pack_names_bound(
    manifests: Seq<Option<PackManifest>>,
    packs: Seq<Seq<char>>,
    names: Seq<Seq<char>>,
)
    requires
        (names + manifest_names(manifests)).no_duplicates(),
        (packs + pack_ids(manifests)).no_duplicates(),
        forall|i: int| 0 <= i < manifests.len() ==> well_formed(#[trigger] manifests[i]),
    ensures
        all_pack_names(manifests, packs, names) == Ok::<Seq<Seq<char>>, ErrorView>(
            names + manifest_names(manifests),
        ),
    decreases manifests.len(),
{
    if manifests.len() > 0 {
        assert(well_formed(manifests[0]));
        let manifest = manifests[0]->0;
        let declared = declared_list(manifest.tools@);
        let all = names + manifest_names(manifests);
        assert(pack_ids(manifests)[0] == manifest.id@);
        lemma_not_bound(packs, pack_ids(manifests));
        assert((names + declared).no_duplicates()) by {
            assert(names + declared =~= all.take((names + declared).len() as int));
        }
        lemma_declared_names_bound(manifest.id@, manifest.tools@, names);
        assert((names + declared) + manifest_names(manifests.skip(1)) =~= all);
        assert(packs.push(manifest.id@) + pack_ids(manifests.skip(1)) =~= packs + pack_ids(
            manifests,
        ));
        lemma_pack_names_bound(manifests.skip(1), packs.push(manifest.id@), names + declared);
    } else {
        assert(names + manifest_names(manifests) =~= names);
    }
}

proof fn lemma_host_names(names: Seq<Seq<char>>, tools: Seq<Seq<char>>)
    requires
        host_names(names, tools) is Ok,
        names.no_duplicates(),
    ensures
        host_names(names, tools)->Ok_0 == names + tools,
        (names + tools).no_duplicates(),
    decreases tools.len(),
{
    if tools.len() > 0 {
        lemma_host_names(names.push(tools[0]), tools.skip(1));
        assert(names.push(tools[0]) + tools.skip(1) =~= names + tools);
    } else {
        assert(names + tools =~= names);
    }
}

proof fn lemma_declared_names(pack: Seq<char>, tools: Seq<DeclaredTool>, names: Seq<Seq<char>>)
    requires
        declared_names(pack, tools, names) is Ok,
        names.no_duplicates(),
    ensures
        declared_names(pack, tools, names)->Ok_0 == names + declared_list(tools),
        (names + declared_list(tools)).no_duplicates(),
        forall|k: int| 0 <= k < tools.len() ==> fully_described(#[trigger] tools[k]),
    decreases tools.len(),
{
    if tools.len() > 0 {
        let name = tools[0].tool.name@;
        lemma_declared_names(pack, tools.skip(1), names.push(name));
        assert forall|k: int| 0 <= k < tools.len() implies fully_described(#[trigger] tools[k]) by {
            if k > 0 {
                assert(tools.skip(1)[k - 1] == tools[k]);
            }
        }
        assert(names.push(name) + declared_list(tools.skip(1)) =~= names + declared_list(tools));
    } else {
        assert(names + declared_list(tools) =~= names);
    }
}

proof fn lemma_pack_names(
    manifests: Seq<Option<PackManifest>>,
    packs: Seq<Seq<char>>,
    names: Seq<Seq<char>>,
)
    requires
        all_pack_names(manifests, packs, names) is Ok,
        names.no_duplicates(),
        packs.no_duplicates(),
    ensures
        all_pack_names(manifests, packs, names)->Ok_0 == names + manifest_names(manifests),
        (names + manifest_names(manifests)).no_duplicates(),
        (packs + pack_ids(manifests)).no_duplicates(),
        forall|i: int| 0 <= i < manifests.len() ==> well_formed(#[trigger] manifests[i]),
    decreases manifests.len(),
{
    if manifests.len() > 0 {
        let manifest = manifests[0]->0;
        let declared = declared_list(manifest.tools@);
        lemma_declared_names(manifest.id@, manifest.tools@, names);
        lemma_pack_names(manifests.skip(1), packs.push(manifest.id@), names + declared);
        assert((names + declared) + manifest_names(manifests.skip(1)) =~= names + manifest_names(
            manifests,
        ));
        assert(packs.push(manifest.id@) + pack_ids(manifests.skip(1)) =~= packs + pack_ids(
            manifests,
        ));
        assert forall|i: int| 0 <= i < manifests.len() implies well_formed(
            #[trigger] manifests[i],
        ) by {
            if i > 0 {
                assert(manifests.skip(1)[i - 1] == manifests[i]);
            }
        }
    } else {
        assert(names + manifest_names(manifests) =~= names);
        assert(packs + pack_ids(manifests) =~= packs);
    }
}

/// Two descriptions are the same where every part of them is: name, text, schema, and both
/// marks. One matches another where the schemas are equal as values.
pub proof fn descriptions_are_compared_whole(left: ToolDescription, right: ToolDescription)
    ensures
        left.matches(right) <==> left.name@ == right.name@ && left.description@
            == right.description@ && json_equal(left.parameters, right.parameters)
            && left.supports_parallel == right.supports_parallel && left.require_approval
            == right.require_approval,
        same_description(left, right) <==> left.name@ == right.name@ && left.description@
            == right.description@ && left.parameters == right.parameters
            && left.supports_parallel == right.supports_parallel && left.require_approval
            == right.require_approval,
{
}

/// A registration tells the daemon of the tool in every part, of its version, and that it is
/// one of the host.
pub proof fn registrations_tell_everything(
    registration: ToolRegistration,
    tool: ToolDescription,
    version: Seq<char>,
)
    requires
        registration.registers(tool, version),
    ensures
        registration.binding_id@ == version,
        registration.is_host_tool,
        registration.tool.name@ == tool.name@,
        registration.tool.description@ == tool.description@,
        registration.tool.parameters == tool.parameters,
        registration.tool.supports_parallel == tool.supports_parallel,
        registration.tool.require_approval == tool.require_approval,
{
}

/// A session can be created exactly where the daemon has the interactions and the limits
/// that it uses, and the host has the policy that it needs. The first that is missing is
/// reported, in this order.
pub proof fn sessions_need_what_they_use(agent: Agent, initialized: InitializeResult)
    ensures
        ({
            let interactions = agent.interactions_enabled ==> initialized.offers(
                "interactions.v1"@,
            );
            let limits = agent.definition.limited ==> initialized.offers("session_limits.v1"@);
            let policy = agent.definition.host_context ==> agent.context_policy is Some;
            let verdict = creation_verdict(agent, initialized);
            &&& interactions_verdict(agent, initialized) is Ok <==> interactions
            &&& limits_verdict(agent, initialized) is Ok <==> limits
            &&& policy_verdict(agent) is Ok <==> policy
            &&& !interactions ==> interactions_verdict(agent, initialized)->Err_0
                is ProtocolCompatibility
            &&& !limits ==> limits_verdict(agent, initialized)->Err_0 is ProtocolCompatibility
            &&& !policy ==> policy_verdict(agent)->Err_0 is InvalidConfiguration
            &&& verdict is Ok <==> interactions && limits && policy
            &&& !interactions ==> verdict == interactions_verdict(agent, initialized)
            &&& interactions && !limits ==> verdict == limits_verdict(agent, initialized)
            &&& interactions && limits && !policy ==> verdict == policy_verdict(agent)
        }),
{
}

/// The model of the options comes before the model of the definition.
pub proof fn options_select_the_model(agent: Agent)
    ensures
        agent.definition.option_model matches Some(model) ==> agent.selected_model() == model@,
        agent.definition.option_model is None ==> agent.selected_model()
            == agent.definition.model@,
{
}

/// The names of tools are listed in order, each in its place, and the packs of an agent are
/// those that could be read, each in its place.
pub proof fn names_are_listed_in_order(
    tools: Seq<BoundTool>,
    declared: Seq<DeclaredTool>,
    manifests: Seq<Option<PackManifest>>,
    i: int,
)
    requires
        0 <= i,
    ensures
        tool_names(tools).len() == tools.len(),
        i < tools.len() ==> tool_names(tools)[i] == tools[i].tool.name@,
        declared_list(declared).len() == declared.len(),
        i < declared.len() ==> declared_list(declared)[i] == declared[i].tool.name@,
        read_manifests(manifests).len() == manifests.len(),
        i < manifests.len() ==> (manifests[i] matches Some(manifest) ==> read_manifests(
            manifests,
        )[i] == manifest),
{
}

/// The packs of an agent own exactly the names that one of their tools has.
pub proof fn packs_own_the_names_of_their_tools(packs: Seq<PackManifest>, name: Seq<char>)
    ensures
        owned_names(packs).contains(name) <==> exists|i: int, k: int|
            0 <= i < packs.len() && 0 <= k < packs[i].tools@.len() && (
            #[trigger] packs[i].tools@[k]).tool.name@ == name,
    decreases packs.len(),
{
    if packs.len() > 0 {
        let before = packs.drop_last();
        let last = packs.len() - 1;
        let declared = declared_list(packs.last().tools@);
        let all = owned_names(packs);
        packs_own_the_names_of_their_tools(before, name);
        if all.contains(name) {
            let n = choose|n: int| 0 <= n < all.len() && all[n] == name;
            if n < owned_names(before).len() {
                assert(owned_names(before)[n] == name);
                assert(owned_names(before).contains(name));
                let (i, k) = choose|i: int, k: int|
                    0 <= i < before.len() && 0 <= k < before[i].tools@.len() && (
                    #[trigger] before[i].tools@[k]).tool.name@ == name;
                assert(packs[i].tools@[k].tool.name@ == name);
            } else {
                let k = n - owned_names(before).len();
                assert(declared[k] == name);
                assert(packs[last].tools@[k].tool.name@ == name);
            }
        }
        if exists|i: int, k: int|
            0 <= i < packs.len() && 0 <= k < packs[i].tools@.len() && (
            #[trigger] packs[i].tools@[k]).tool.name@ == name {
            let (i, k) = choose|i: int, k: int|
                0 <= i < packs.len() && 0 <= k < packs[i].tools@.len() && (
                #[trigger] packs[i].tools@[k]).tool.name@ == name;
            if i < last {
                assert(before[i].tools@[k].tool.name@ == name);
                assert(owned_names(before).contains(name));
                let n = choose|n: int|
                    0 <= n < owned_names(before).len() && owned_names(before)[n] == name;
                assert(all[n] == name);
            } else {
                assert(declared[k] == name);
                assert(all[owned_names(before).len() + k] == name);
            }
        }
    }
}

/// A pack may declare a tool exactly where its name is trimmed, it has a description and a
/// schema, and the name is free.
pub proof fn declared_tools_are_complete_and_new(
    pack: Seq<char>,
    declared: DeclaredTool,
    names: Seq<Seq<char>>,
)
    ensures
        ({
            let verdict = declared_verdict(pack, declared, names);
            &&& verdict is Ok <==> is_trimmed(declared.tool.name@) && !is_blank(
                declared.tool.description@,
            ) && declared.schema is Ok && !names.contains(declared.tool.name@)
            &&& verdict matches Err(error) ==> error is InvalidConfiguration
            &&& is_trimmed(declared.tool.name@) && !is_blank(declared.tool.description@) ==> (
            declared.schema matches Err(reason) ==> (verdict matches Err(
                ErrorView::InvalidConfiguration(message),
            ) && reason@.is_suffix_of(message)))
        }),
{
}

/// A pack is taken where it could be read, has a trimmed identity of its own and declares
/// at least one tool, and its tools can be declared; else it is refused.
pub proof fn packs_need_an_identity_and_tools(
    pack: Option<PackManifest>,
    packs: Seq<Seq<char>>,
    names: Seq<Seq<char>>,
)
    ensures
        ({
            let result = pack_names(pack, packs, names);
            match pack {
                None => result matches Err(error) && error is InvalidConfiguration,
                Some(manifest) => if is_trimmed(manifest.id@) && !packs.contains(manifest.id@)
                    && manifest.tools@.len() > 0 {
                    result == declared_names(manifest.id@, manifest.tools@, names)
                } else {
                    result matches Err(error) && error is InvalidConfiguration
                },
            }
        }),
{
}

/// A name that the host binds twice is refused, and the refusal names it.
pub proof fn doubled_name_is_named(names: Seq<Seq<char>>, tools: Seq<Seq<char>>)
    ensures
        host_names(names, tools) matches Err(error) ==> (error
            matches ErrorView::InvalidConfiguration(message) && exists|i: int|
            0 <= i < tools.len() && (names + tools.take(i)).contains(#[trigger] tools[i])
                && tools[i].is_suffix_of(message)),
    decreases tools.len(),
{
    if tools.len() > 0 {
        if names.contains(tools[0]) {
            assert(names + tools.take(0) =~= names);
            assert((names + tools.take(0)).contains(tools[0]));
        } else {
            let more = names.push(tools[0]);
            let rest = tools.skip(1);
            doubled_name_is_named(more, rest);
            if host_names(more, rest) is Err {
                let message = host_names(more, rest)->Err_0->InvalidConfiguration_0;
                let i = choose|i: int|
                    0 <= i < rest.len() && (more + rest.take(i)).contains(#[trigger] rest[i])
                        && rest[i].is_suffix_of(message);
                assert(tools[i + 1] == rest[i]);
                assert(more + rest.take(i) =~= names + tools.take(i + 1));
            }
        }
    }
}

/// An agent whose definition is not valid is refused for that reason, before anything else
/// is looked at. Every refusal of an agent is one of its configuration.
pub proof fn invalid_definition_comes_first(
    valid: Result<(), String>,
    expected: Seq<Seq<char>>,
    tools: Seq<Seq<char>>,
    manifests: Seq<Option<PackManifest>>,
)
    ensures
        valid matches Err(reason) ==> agent_verdict(valid, expected, tools, manifests) == Err::<
            (),
            ErrorView,
        >(ErrorView::InvalidConfiguration(reason@)),
        agent_verdict(valid, expected, tools, manifests) matches Err(error) ==> error
            is InvalidConfiguration,
{
    doubled_name_is_named(Seq::empty(), tools);
    if host_names(Seq::empty(), tools) is Ok {
        lemma_packs_refused(manifests, Seq::empty(), host_names(Seq::empty(), tools)->Ok_0);
    }
}

proof fn lemma_declared_refused(pack: Seq<char>, tools: Seq<DeclaredTool>, names: Seq<Seq<char>>)
    ensures
        declared_names(pack, tools, names) matches Err(error) ==> error is InvalidConfiguration,
    decreases tools.len(),
{
    if tools.len() > 0 {
        lemma_declared_refused(pack, tools.skip(1), names.push(tools[0].tool.name@));
    }
}

proof fn lemma_packs_refused(
    manifests: Seq<Option<PackManifest>>,
    packs: Seq<Seq<char>>,
    names: Seq<Seq<char>>,
)
    ensures
        all_pack_names(manifests, packs, names) matches Err(error) ==> error
            is InvalidConfiguration,
    decreases manifests.len(),
{
    if manifests.len() > 0 {
        if let Some(manifest) = manifests[0] {
            lemma_declared_refused(manifest.id@, manifest.tools@, names);
        }
        if pack_names(manifests[0], packs, names) is Ok {
            lemma_packs_refused(
                manifests.skip(1),
                packs.push(manifests[0]->0.id@),
                pack_names(manifests[0], packs, names)->Ok_0,
            );
        }
    }
}

/// The identity of an ephemeral session has its mark in front of a fresh identity; that of a
/// durable one is a fresh identity.
pub proof fn ephemeral_sessions_are_marked(kind: SessionCreationKind, id: Seq<char>)
    requires
        is_live_id(kind, id),
    ensures
        kind is Ephemeral ==> id.len() == 39 && id[0] == 't' && id[1] == 'h' && id[2] == '_'
            && is_identifier(id.skip(3)),
        !(kind is Ephemeral) ==> is_identifier(id),
{
    if kind is Ephemeral {
        reveal_strlit("th_");
        assert(id.take(3)[0] == id[0]);
        assert(id.take(3)[1] == id[1]);
        assert(id.take(3)[2] == id[2]);
    }
}

/// A captured agent holds exactly the tools of the host that it was given, and the packs that
/// it was given, each in its place.
pub proof fn captured_agent_holds_its_tools(
    agent: Agent,
    expected: Seq<Seq<char>>,
    tools: Seq<BoundTool>,
    manifests: Seq<Option<PackManifest>>,
    i: int,
)
    requires
        captured_as(agent, expected, tools, manifests),
    ensures
        agent.tools@ == tools,
        agent.packs@.len() == manifests.len(),
        0 <= i < manifests.len() ==> (manifests[i] matches Some(manifest) && agent.packs@[i]
            == manifest),
        same_members(tool_names(tools) + manifest_names(manifests), expected),
{
    captured_names_are_exact(expected, tool_names(tools), manifests);
    if 0 <= i < manifests.len() {
        assert(well_formed(manifests[i]));
    }
}

} // verus!
