//! Building a session: its routes are staged before the daemon hears of it, and are
//! either kept as a whole or taken down exactly.

use vstd::prelude::*;

use crate::agent::{
    captured_as, captured_names_are_exact, is_live_id, lemma_owned_names, manifest_names,
    owned_names, same_description, tool_names, Agent, BoundTool, PackManifest,
    SessionCreationKind, ToolRegistration,
};
use crate::client::{ClientState, ClientView};
use crate::contexts::{meant_tool, ToolExecution};
use crate::errors::{error_text, outcome, ErrorView, SdkError};
use crate::identity::{fresh_identifier, is_identifier};
use crate::interactions::interactions_on;
use crate::protocol::ErrorCodes;
use crate::recovery::{definitive_rejection, is_definitive, RecoveryKey};
use crate::registration::tool_bound;
use crate::sessions::{
    acceptance, acceptance_happens_once, acceptance_keeps_the_connection, accepted, prepared,
    record, rejected, SessionLifecycle, SessionPhase,
};
use crate::tables::{
    get_binding, get_handle, insert_binding, insert_handle, remove_binding, remove_handle,
};
use crate::text::{join3, same_text, separated, separated_text};

verus! {

/// A session that is being built. `packs` is the owner of its packs, with the names of
/// their tools.
#[derive(Debug)]
pub struct SessionBuild {
    pub thread_id: String,
    /// The identity of the session's record.
    pub id: u64,
    pub staged_names: Vec<(String, u64)>,
    pub staged_versions: Vec<(String, u64)>,
    pub context_binding: Option<u64>,
    pub packs: Option<(u64, Vec<String>)>,
}

/// The client when tools are staged under versions, in order.
pub open spec fn tools_staged(
    client: ClientView,
    session: Seq<char>,
    tools: Seq<BoundTool>,
    versions: Seq<Seq<char>>,
) -> ClientView
    decreases tools.len(),
{
    if tools.len() == 0 {
        client
    } else {
        tool_bound(
            tools_staged(client, session, tools.drop_last(), versions.drop_last()),
            session,
            tools.last().tool.name@,
            versions.last(),
            tools.last().handler,
        )
    }
}

/// The client when everything that a session binds is staged.
pub open spec fn session_staged(
    client: ClientView,
    session: Seq<char>,
    policy: Option<u64>,
    tools: Seq<BoundTool>,
    versions: Seq<Seq<char>>,
) -> ClientView {
    let bound = match policy {
        Some(policy) => ClientView {
            context_policies: client.context_policies.insert(session, policy),
            ..client
        },
        None => client,
    };
    tools_staged(bound, session, tools, versions)
}

/// The versions under which tools are registered, in order.
pub open spec fn versions_of(registrations: Seq<ToolRegistration>) -> Seq<Seq<char>> {
    registrations.map_values(|registration: ToolRegistration| registration.binding_id@)
}

/// The daemon is told of exactly these tools, in order, each under a version of the right
/// form.
pub open spec fn registered(registrations: Seq<ToolRegistration>, tools: Seq<BoundTool>) -> bool {
    &&& registrations.len() == tools.len()
    &&& forall|i: int|
        0 <= i < tools.len() ==> {
            let registration = #[trigger] registrations[i];
            &&& registration.registers(tools[i].tool, registration.binding_id@)
            &&& is_identifier(registration.binding_id@)
        }
}

/// What a build has staged when it has staged tools under these names or versions.
pub open spec fn staged_under(texts: Seq<Seq<char>>, tools: Seq<BoundTool>) -> Seq<
    (Seq<char>, u64),
> {
    Seq::new(tools.len(), |i: int| (texts[i], tools[i].handler))
}

/// Staged routes by their text.
pub open spec fn staged_views(staged: Seq<(String, u64)>) -> Seq<(Seq<char>, u64)> {
    staged.map_values(|entry: (String, u64)| (entry.0@, entry.1))
}

/// The bindings without those of `session` that were staged and still lead to the same
/// tool.
pub open spec fn unstaged(
    table: Map<(Seq<char>, Seq<char>), u64>,
    session: Seq<char>,
    staged: Seq<(Seq<char>, u64)>,
) -> Map<(Seq<char>, Seq<char>), u64> {
    Map::new(
        |key: (Seq<char>, Seq<char>)|
            table.contains_key(key) && !(key.0 == session && staged.contains(
                (key.1, table[key]),
            )),
        |key: (Seq<char>, Seq<char>)| table[key],
    )
}

/// The policies without the one that was staged, if it is still there.
pub open spec fn policy_unstaged(
    policies: Map<Seq<char>, u64>,
    session: Seq<char>,
    staged: Option<u64>,
) -> Map<Seq<char>, u64> {
    if staged is Some && policies.contains_pair(session, staged->0) {
        policies.remove(session)
    } else {
        policies
    }
}

/// The client without what a build has staged.
pub open spec fn taken_down(client: ClientView, build: SessionBuild) -> ClientView {
    ClientView {
        context_policies: policy_unstaged(
            client.context_policies,
            build.thread_id@,
            build.context_binding,
        ),
        tool_bindings: unstaged(
            client.tool_bindings,
            build.thread_id@,
            staged_views(build.staged_versions@),
        ),
        tools: unstaged(client.tools, build.thread_id@, staged_views(build.staged_names@)),
        ..client
    }
}

/// What follows the daemon's answer to a creation.
#[derive(Debug)]
pub enum CreationStep {
    /// Keep what was built.
    Commit,
    /// Take down what was built; `close` also closes the connection.
    Rollback { error: SdkError, close: bool },
    /// The session counts as closed; close the connection.
    Abandon(SdkError),
    /// The connection is closed already.
    Leave(SdkError),
}

/// What the daemon said of a durable session: its live identity, its key and its epoch.
pub struct PersistentReply {
    pub thread_id: String,
    pub key: RecoveryKey,
    pub epoch: u64,
}

impl ClientState {
    /// Starts to build a session under a fresh identity. `packs` is the owner of the
    /// packs that will be bound to it, with the names of their tools.
    pub fn begin_build(
        &mut self,
        kind: &SessionCreationKind,
        hub: u64,
        packs: Option<(u64, Vec<String>)>,
    ) -> (result: Result<SessionBuild, SdkError>)
        ensures
            match result {
                Ok(build) => {
                    &&& is_live_id(*kind, build.thread_id@)
                    &&& !old(self)@.closed
                    &&& record(old(self)@, build.thread_id@).phase == SessionPhase::Open
                    &&& build.id == record(old(self)@, build.thread_id@).id
                    &&& build.staged_names@.len() == 0
                    &&& build.staged_versions@.len() == 0
                    &&& build.context_binding is None
                    &&& build.packs == packs
                    &&& final(self)@ == prepared(old(self)@, build.thread_id@, hub)
                },
                Err(error) => exists|session: Seq<char>|
                    {
                        &&& #[trigger] is_live_id(*kind, session)
                        &&& old(self)@.closed || record(old(self)@, session).phase
                            != SessionPhase::Open
                        &&& error@ == ErrorView::SessionClosed(session)
                        &&& final(self)@ == crate::sessions::knowing(old(self)@, session)
                    },
            },
    {
        let thread_id = kind.live_session_id();
        match self.prepare_session(thread_id.as_str(), hub) {
            Ok(lifecycle) => Ok(
                SessionBuild {
                    thread_id,
                    id: lifecycle.id,
                    staged_names: Vec::new(),
                    staged_versions: Vec::new(),
                    context_binding: None,
                    packs,
                },
            ),
            Err(error) => {
                assert(is_live_id(*kind, thread_id@));
                Err(error)
            },
        }
    }

    /// Stages the policy that builds the session's contexts.
    pub fn stage_context(&mut self, build: &mut SessionBuild, policy: u64)
        ensures
            *final(build) == (SessionBuild { context_binding: Some(policy), ..*old(build) }),
            final(self)@ == (ClientView {
                context_policies: old(self)@.context_policies.insert(
                    old(build).thread_id@,
                    policy,
                ),
                ..old(self)@
            }),
    {
        insert_handle(&mut self.context_policies, build.thread_id.clone(), policy);
        build.context_binding = Some(policy);
    }

    /// Stages a tool under a fresh version. The result is what the daemon is told of it.
    pub fn stage_tool(&mut self, build: &mut SessionBuild, tool: &BoundTool) -> (registration:
        ToolRegistration)
        ensures
            is_identifier(registration.binding_id@),
            registration.registers(tool.tool, registration.binding_id@),
            final(self)@ == tool_bound(
                old(self)@,
                old(build).thread_id@,
                tool.tool.name@,
                registration.binding_id@,
                tool.handler,
            ),
            staged_views(final(build).staged_names@) == staged_views(
                old(build).staged_names@,
            ).push((tool.tool.name@, tool.handler)),
            staged_views(final(build).staged_versions@) == staged_views(
                old(build).staged_versions@,
            ).push((registration.binding_id@, tool.handler)),
            final(build).thread_id == old(build).thread_id,
            final(build).id == old(build).id,
            final(build).context_binding == old(build).context_binding,
            final(build).packs == old(build).packs,
    {
        let binding = fresh_identifier();
        insert_binding(
            &mut self.tools,
            build.thread_id.as_str(),
            tool.tool.name.as_str(),
            tool.handler,
        );
        insert_binding(
            &mut self.tool_bindings,
            build.thread_id.as_str(),
            binding.as_str(),
            tool.handler,
        );
        build.staged_names.push((tool.tool.name.clone(), tool.handler));
        build.staged_versions.push((binding.clone(), tool.handler));
        proof {
            assert(staged_views(build.staged_names@) =~= staged_views(
                old(build).staged_names@,
            ).push((tool.tool.name@, tool.handler)));
            assert(staged_views(build.staged_versions@) =~= staged_views(
                old(build).staged_versions@,
            ).push((binding@, tool.handler)));
        }
        tool.tool.registration(binding)
    }

    /// Stages everything that a session binds: its policy, and its tools in order. The
    /// result is what the daemon is told of the tools.
    pub fn stage_session(
        &mut self,
        build: &mut SessionBuild,
        policy: Option<u64>,
        tools: &Vec<BoundTool>,
    ) -> (registrations: Vec<ToolRegistration>)
        ensures
            registered(registrations@, tools@),
            final(build).thread_id == old(build).thread_id,
            final(build).id == old(build).id,
            final(build).packs == old(build).packs,
            final(build).context_binding == match policy {
                Some(policy) => Some(policy),
                None => old(build).context_binding,
            },
            staged_views(final(build).staged_names@) == staged_views(old(build).staged_names@)
                + staged_under(tool_names(tools@), tools@),
            staged_views(final(build).staged_versions@) == staged_views(
                old(build).staged_versions@,
            ) + staged_under(versions_of(registrations@), tools@),
            final(self)@ == session_staged(
                old(self)@,
                old(build).thread_id@,
                policy,
                tools@,
                versions_of(registrations@),
            ),
            owns_all(old(self)@, *old(build)) ==> owns_all(final(self)@, *final(build)),
    {
        if let Some(policy) = policy {
            self.stage_context(build, policy);
        }
        let ghost session = build.thread_id@;
        let ghost before = self@;
        let ghost owned = owns_all(self@, *build);
        let mut registrations: Vec<ToolRegistration> = Vec::new();
        let mut i: usize = 0;
        assert(versions_of(registrations@) =~= Seq::empty());
        while i < tools.len()
            invariant
                i <= tools.len(),
                registered(registrations@, tools@.take(i as int)),
                build.thread_id@ == session,
                build.thread_id == old(build).thread_id,
                build.id == old(build).id,
                build.packs == old(build).packs,
                self@ == tools_staged(
                    before,
                    session,
                    tools@.take(i as int),
                    versions_of(registrations@),
                ),
                build.context_binding == match policy {
                    Some(policy) => Some(policy),
                    None => old(build).context_binding,
                },
                staged_views(build.staged_names@) == staged_views(old(build).staged_names@)
                    + staged_under(tool_names(tools@.take(i as int)), tools@.take(i as int)),
                staged_views(build.staged_versions@) == staged_views(old(build).staged_versions@)
                    + staged_under(versions_of(registrations@), tools@.take(i as int)),
                owned ==> owns_all(self@, *build),
            decreases tools.len() - i,
        {
            let ghost earlier = self@;
            let ghost was = *build;
            let ghost known = versions_of(registrations@);
            let registration = self.stage_tool(build, &tools[i]);
            let ghost version = registration.binding_id@;
            proof {
                if owned {
                    staging_keeps_ownership(
                        earlier,
                        was,
                        *build,
                        tools@[i as int].tool.name@,
                        version,
                        tools@[i as int].handler,
                    );
                }
                assert(tools@.take(i + 1).drop_last() =~= tools@.take(i as int));
                assert(known.push(version).drop_last() =~= known);
                let shown = tools@.take(i as int);
                let next = tools@.take(i + 1);
                assert(staged_under(tool_names(next), next) =~= staged_under(
                    tool_names(shown),
                    shown,
                ).push((tools@[i as int].tool.name@, tools@[i as int].handler)));
                assert(staged_under(known.push(version), next) =~= staged_under(
                    known,
                    shown,
                ).push((version, tools@[i as int].handler)));
            }
            registrations.push(registration);
            assert(versions_of(registrations@) =~= known.push(version));
            i = i + 1;
        }
        assert(tools@.take(i as int) =~= tools@);
        registrations
    }

    fn unstage_versions(&mut self, session: &str, staged: &Vec<(String, u64)>)
        ensures
            final(self)@ == (ClientView {
                tool_bindings: unstaged(
                    old(self)@.tool_bindings,
                    session@,
                    staged_views(staged@),
                ),
                ..old(self)@
            }),
    {
        let ghost before = self@;
        let ghost views = staged_views(staged@);
        let mut i: usize = 0;
        assert(unstaged(before.tool_bindings, session@, views.take(0))
            =~= before.tool_bindings);
        while i < staged.len()
            invariant
                i <= staged.len(),
                views == staged_views(staged@),
                self@ == (ClientView {
                    tool_bindings: unstaged(
                        before.tool_bindings,
                        session@,
                        views.take(i as int),
                    ),
                    ..before
                }),
            decreases staged.len() - i,
        {
            let (name, handle) = &staged[i];
            assert(views[i as int] == (name@, *handle));
            if let Some(current) = get_binding(&self.tool_bindings, session, name.as_str()) {
                if current == *handle {
                    remove_binding(&mut self.tool_bindings, session, name.as_str());
                }
            }
            proof {
                lemma_unstage_step(before.tool_bindings, session@, views, i as int);
            }
            i = i + 1;
        }
        assert(views.take(i as int) =~= views);
    }

    fn unstage_names(&mut self, session: &str, staged: &Vec<(String, u64)>)
        ensures
            final(self)@ == (ClientView {
                tools: unstaged(old(self)@.tools, session@, staged_views(staged@)),
                ..old(self)@
            }),
    {
        let ghost before = self@;
        let ghost views = staged_views(staged@);
        let mut i: usize = 0;
        assert(unstaged(before.tools, session@, views.take(0)) =~= before.tools);
        while i < staged.len()
            invariant
                i <= staged.len(),
                views == staged_views(staged@),
                self@ == (ClientView {
                    tools: unstaged(before.tools, session@, views.take(i as int)),
                    ..before
                }),
            decreases staged.len() - i,
        {
            let (name, handle) = &staged[i];
            assert(views[i as int] == (name@, *handle));
            if let Some(current) = get_binding(&self.tools, session, name.as_str()) {
                if current == *handle {
                    remove_binding(&mut self.tools, session, name.as_str());
                }
            }
            proof {
                lemma_unstage_step(before.tools, session@, views, i as int);
            }
            i = i + 1;
        }
        assert(views.take(i as int) =~= views);
    }

    /// Takes down what was built: the first step of a rollback, before its packs are
    /// closed and the session is dropped with [`ClientState::reject_prepared_session`].
    /// Routes that lead elsewhere by now stay.
    pub fn remove_exact_routes(&mut self, build: &SessionBuild)
        ensures
            final(self)@ == taken_down(old(self)@, *build),
    {
        if let Some(policy) = build.context_binding {
            if let Some(current) = get_handle(
                &self.context_policies,
                build.thread_id.as_str(),
            ) {
                if current == policy {
                    remove_handle(&mut self.context_policies, build.thread_id.as_str());
                }
            }
        }
        self.unstage_versions(build.thread_id.as_str(), &build.staged_versions);
        self.unstage_names(build.thread_id.as_str(), &build.staged_names);
    }

    /// Opens the session that was built, with its packs. A build that is refused keeps
    /// everything, its packs too.
    pub fn commit_build(&mut self, build: &mut SessionBuild) -> (result: Result<(), SdkError>)
        ensures
            outcome(result) == acceptance(old(self)@, old(build).thread_id@, old(build).id),
            match result {
                Ok(()) => {
                    &&& final(self)@ == accepted(
                        old(self)@,
                        old(build).thread_id@,
                        old(build).packs,
                    )
                    &&& *final(build) == (SessionBuild { packs: None, ..*old(build) })
                },
                Err(_) => final(self)@ == old(self)@ && *final(build) == *old(build),
            },
    {
        self.accept_prepared_session(build.thread_id.as_str(), build.id, &mut build.packs)
    }

    /// Opens the session that was built and lets it use interactions, where its agent
    /// wants that. A build that is refused keeps everything.
    pub fn open_session(&mut self, build: &mut SessionBuild, interactions: bool) -> (result: Result<
        (),
        SdkError,
    >)
        ensures
            outcome(result) == acceptance(old(self)@, old(build).thread_id@, old(build).id),
            match result {
                Ok(()) => {
                    let opened = accepted(old(self)@, old(build).thread_id@, old(build).packs);
                    &&& final(self)@ == if interactions {
                        interactions_on(opened, old(build).thread_id@)
                    } else {
                        opened
                    }
                    &&& *final(build) == (SessionBuild { packs: None, ..*old(build) })
                },
                Err(_) => final(self)@ == old(self)@ && *final(build) == *old(build),
            },
    {
        let ghost before = self@;
        let ghost packs = build.packs;
        if let Err(error) = self.commit_build(build) {
            return Err(error);
        }
        if interactions {
            proof {
                acceptance_happens_once(before, build.thread_id@, packs, build.id);
                acceptance_keeps_the_connection(before, build.thread_id@, packs, build.id);
            }
            return self.enable_interactions(build.thread_id.as_str());
        }
        Ok(())
    }

    /// What follows the daemon's answer to the creation of an ephemeral session. `reply`
    /// holds the identity that the daemon gave it.
    pub fn settle_creation(&self, build: &SessionBuild, reply: Result<String, SdkError>) -> (step:
        CreationStep)
        ensures
            match reply {
                Ok(thread) => if thread@ == build.thread_id@ {
                    step is Commit
                } else {
                    &&& step is Rollback
                    &&& step->error@ == ErrorView::Internal(
                        "Daemon returned a different session identity"@,
                    )
                    &&& step->close
                },
                Err(error) => if self@.closed {
                    step is Leave && step->Leave_0@ == error@
                } else {
                    &&& step is Rollback
                    &&& step->error@ == error@
                    &&& step->close == !(error@ is Rpc || error@ is LimitExceeded)
                },
            },
    {
        match reply {
            Ok(thread) => {
                if same_text(thread.as_str(), build.thread_id.as_str()) {
                    CreationStep::Commit
                } else {
                    CreationStep::Rollback {
                        error: SdkError::Internal(
                            "Daemon returned a different session identity".to_owned(),
                        ),
                        close: true,
                    }
                }
            },
            Err(error) => {
                if self.closed {
                    return CreationStep::Leave(error);
                }
                let known = match &error {
                    SdkError::Rpc { .. } => true,
                    SdkError::LimitExceeded(_) => true,
                    _ => false,
                };
                CreationStep::Rollback { error, close: !known }
            },
        }
    }

    /// Gives up a durable session of which nobody knows what the daemon did: it counts as
    /// closed from then on, where it was still being prepared. The result names the hub to
    /// end; the connection is to be closed next.
    pub fn abandon_build(&mut self, build: &SessionBuild) -> (hub: Option<u64>)
        ensures
            ({
                let session = build.thread_id@;
                let lifecycle = record(old(self)@, session);
                let known = crate::sessions::knowing(old(self)@, session);
                if !old(self)@.closed && lifecycle.phase == SessionPhase::Preparing {
                    &&& hub == old(self)@.session_event_hubs.get(session)
                    &&& final(self)@ == (ClientView {
                        session_event_hubs: known.session_event_hubs.remove(session),
                        ..crate::sessions::with_record(
                            known,
                            session,
                            SessionLifecycle { phase: SessionPhase::Closed, ..lifecycle },
                        )
                    })
                } else {
                    &&& hub is None
                    &&& final(self)@ == known
                }
            }),
    {
        match self.finish_preparation(build.thread_id.as_str(), false) {
            Ok(hub) => hub,
            Err(_) => None,
        }
    }
}

impl Agent {
    /// Stages everything that a session of the agent binds: its policy, the tools that were
    /// captured with the agent, and `pack_tools`, which its packs have bound. The result is
    /// what the daemon is told of the tools.
    pub fn stage(
        &self,
        client: &mut ClientState,
        build: &mut SessionBuild,
        pack_tools: &Vec<BoundTool>,
    ) -> (registrations: Vec<ToolRegistration>)
        ensures
            registered(registrations@, self.tools@ + pack_tools@),
            final(build).thread_id == old(build).thread_id,
            final(build).id == old(build).id,
            final(build).packs == old(build).packs,
            final(build).context_binding == match self.context_policy {
                Some(policy) => Some(policy),
                None => old(build).context_binding,
            },
            staged_views(final(build).staged_names@) == staged_views(old(build).staged_names@)
                + staged_under(
                tool_names(self.tools@ + pack_tools@),
                self.tools@ + pack_tools@,
            ),
            staged_views(final(build).staged_versions@) == staged_views(
                old(build).staged_versions@,
            ) + staged_under(versions_of(registrations@), self.tools@ + pack_tools@),
            final(client)@ == session_staged(
                old(client)@,
                old(build).thread_id@,
                self.context_policy,
                self.tools@ + pack_tools@,
                versions_of(registrations@),
            ),
            owns_all(old(client)@, *old(build)) ==> owns_all(final(client)@, *final(build)),
    {
        let ghost all = self.tools@ + pack_tools@;
        let ghost session = build.thread_id@;
        let ghost start = match self.context_policy {
            Some(policy) => ClientView {
                context_policies: client@.context_policies.insert(session, policy),
                ..client@
            },
            None => client@,
        };
        let mut registrations = client.stage_session(build, self.context_policy, &self.tools);
        let ghost own = registrations@;
        let mut more = client.stage_session(build, None, pack_tools);
        let ghost bound = more@;
        registrations.append(&mut more);
        proof {
            assert(registrations@ =~= own + bound);
            assert(versions_of(registrations@) =~= versions_of(own) + versions_of(bound));
            lemma_staged_on(
                start,
                session,
                self.tools@,
                versions_of(own),
                pack_tools@,
                versions_of(bound),
            );
            assert(staged_under(tool_names(all), all) =~= staged_under(
                tool_names(self.tools@),
                self.tools@,
            ) + staged_under(tool_names(pack_tools@), pack_tools@));
            assert(staged_under(versions_of(registrations@), all) =~= staged_under(
                versions_of(own),
                self.tools@,
            ) + staged_under(versions_of(bound), pack_tools@));
            assert forall|i: int| 0 <= i < all.len() implies {
                let registration = #[trigger] registrations@[i];
                &&& registration.registers(all[i].tool, registration.binding_id@)
                &&& is_identifier(registration.binding_id@)
            } by {
                if i < own.len() {
                    assert(registrations@[i] == own[i]);
                } else {
                    assert(registrations@[i] == bound[i - own.len()]);
                }
            }
        }
        registrations
    }
}

proof fn lemma_staged_on(
    client: ClientView,
    session: Seq<char>,
    tools: Seq<BoundTool>,
    versions: Seq<Seq<char>>,
    more: Seq<BoundTool>,
    further: Seq<Seq<char>>,
)
    requires
        versions.len() == tools.len(),
        further.len() == more.len(),
    ensures
        tools_staged(tools_staged(client, session, tools, versions), session, more, further)
            == tools_staged(client, session, tools + more, versions + further),
    decreases more.len(),
{
    if more.len() == 0 {
        assert(tools + more =~= tools);
        assert(versions + further =~= versions);
    } else {
        lemma_staged_on(client, session, tools, versions, more.drop_last(), further.drop_last());
        assert((tools + more).drop_last() =~= tools + more.drop_last());
        assert((versions + further).drop_last() =~= versions + further.drop_last());
    }
}

/// What follows the daemon's answer to the creation or attachment of the durable session
/// that `key` names.
pub fn settle_attachment(
    build: &SessionBuild,
    key: &RecoveryKey,
    reply: Result<PersistentReply, SdkError>,
    codes: &ErrorCodes,
) -> (step: CreationStep)
    ensures
        match reply {
            Ok(answer) => if answer.thread_id@ == build.thread_id@ && answer.key.same_as(*key)
                && answer.epoch > 0 {
                step is Commit
            } else {
                step is Abandon && step->Abandon_0@ == ErrorView::Internal(
                    "Persistent session response identity or epoch mismatch"@,
                )
            },
            Err(error) => if is_definitive(error@, *codes) {
                step is Rollback && step->error@ == error@ && !step->close
            } else {
                step is Abandon && step->Abandon_0@ == error@
            },
        },
{
    match reply {
        Ok(answer) => {
            if same_text(answer.thread_id.as_str(), build.thread_id.as_str())
                && answer.key.is_same(key) && answer.epoch > 0 {
                CreationStep::Commit
            } else {
                CreationStep::Abandon(
                    SdkError::Internal(
                        "Persistent session response identity or epoch mismatch".to_owned(),
                    ),
                )
            }
        },
        Err(error) => {
            if definitive_rejection(&error, codes) {
                CreationStep::Rollback { error, close: false }
            } else {
                CreationStep::Abandon(error)
            }
        },
    }
}

/// What follows when a session that the daemon has created cannot be opened here. The
/// daemon keeps a durable one, so it counts as closed; an ephemeral one is taken down.
pub fn refused_opening(durable: bool, error: SdkError) -> (step: CreationStep)
    ensures
        if durable {
            step is Abandon && step->Abandon_0@ == error@
        } else {
            step is Rollback && step->error@ == error@ && !step->close
        },
{
    if durable {
        CreationStep::Abandon(error)
    } else {
        CreationStep::Rollback { error, close: false }
    }
}

/// The error of a session that was taken down. `failures` are the packs that could not be
/// closed.
pub fn rollback_error(primary: SdkError, failures: &Vec<String>) -> (error: SdkError)
    ensures
        error@ == if failures@.len() == 0 {
            primary@
        } else {
            ErrorView::Internal(
                error_text(primary@) + "; ToolPack rollback failures: "@ + separated(
                    failures@,
                    "; "@,
                ),
            )
        },
{
    if failures.len() == 0 {
        primary
    } else {
        SdkError::Internal(
            join3(
                primary.message().as_str(),
                "; ToolPack rollback failures: ",
                separated_text(failures, "; ").as_str(),
            ),
        )
    }
}

/// What becomes of a session that was built, but that nobody claimed.
#[derive(Clone, Copy, Debug, PartialEq, Eq, Structural)]
pub enum UnclaimedStep {
    /// Nothing is left.
    Done,
    /// Close the packs that are left.
    ClosePacks(u64),
    /// Close the connection.
    CloseClient,
}

impl ClientState {
    /// What follows the close of a session that nobody claimed: a close that failed takes
    /// the connection with it.
    pub fn settle_unclaimed(&mut self, session: &str, closed: bool) -> (step: UnclaimedStep)
        ensures
            ({
                let known = old(self)@.sessions.contains_key(session@);
                let lifecycle = old(self)@.sessions[session@];
                if !closed {
                    step == UnclaimedStep::CloseClient && final(self)@ == old(self)@
                } else {
                    &&& step == if known && lifecycle.pack_owner is Some {
                        UnclaimedStep::ClosePacks(lifecycle.pack_owner->0)
                    } else {
                        UnclaimedStep::Done
                    }
                    &&& final(self)@ == if known {
                        crate::sessions::with_record(
                            old(self)@,
                            session@,
                            SessionLifecycle { pack_owner: None, ..lifecycle },
                        )
                    } else {
                        old(self)@
                    }
                }
            }),
    {
        if !closed {
            return UnclaimedStep::CloseClient;
        }
        match self.take_attached_pack_owner(session) {
            Some(owner) => UnclaimedStep::ClosePacks(owner),
            None => UnclaimedStep::Done,
        }
    }
}

proof fn lemma_unstage_step(
    table: Map<(Seq<char>, Seq<char>), u64>,
    session: Seq<char>,
    staged: Seq<(Seq<char>, u64)>,
    n: int,
)
    requires
        0 <= n < staged.len(),
    ensures
        ({
            let before = unstaged(table, session, staged.take(n));
            let after = unstaged(table, session, staged.take(n + 1));
            let key = (session, staged[n].0);
            after == if before.contains_pair(key, staged[n].1) {
                before.remove(key)
            } else {
                before
            }
        }),
{
    let before = unstaged(table, session, staged.take(n));
    let after = unstaged(table, session, staged.take(n + 1));
    let key = (session, staged[n].0);
    let expected = if before.contains_pair(key, staged[n].1) {
        before.remove(key)
    } else {
        before
    };
    let shown = staged.take(n);
    let next = staged.take(n + 1);
    assert forall|entry: (Seq<char>, u64)| #[trigger] next.contains(entry) == (shown.contains(
        entry,
    ) || entry == staged[n]) by {
        if shown.contains(entry) {
            let i = choose|i: int| 0 <= i < shown.len() && shown[i] == entry;
            assert(next[i] == entry);
        }
        if next.contains(entry) {
            let i = choose|i: int| 0 <= i < next.len() && next[i] == entry;
            if i < n {
                assert(shown[i] == entry);
            }
        }
        if entry == staged[n] {
            assert(next[n] == entry);
        }
    }
    assert(after =~= expected);
}

/// Every tool that the session has was staged by the build.
pub open spec fn owns_all(client: ClientView, build: SessionBuild) -> bool {
    &&& forall|name: Seq<char>| #[trigger]
        client.tools.contains_key((build.thread_id@, name)) ==> staged_views(
            build.staged_names@,
        ).contains((name, client.tools[(build.thread_id@, name)]))
    &&& forall|version: Seq<char>| #[trigger]
        client.tool_bindings.contains_key((build.thread_id@, version)) ==> staged_views(
            build.staged_versions@,
        ).contains((version, client.tool_bindings[(build.thread_id@, version)]))
    &&& client.context_policies.contains_key(build.thread_id@) ==> build.context_binding == Some(
        client.context_policies[build.thread_id@],
    )
}

/// A build that is taken down leaves no tool and no policy of its session, and leaves
/// every other session as it is.
pub proof fn rollback_is_exact(client: ClientView, build: SessionBuild, other: Seq<char>, name: Seq<char>)
    requires
        owns_all(client, build),
        other != build.thread_id@,
    ensures
        ({
            let after = rejected(taken_down(client, build), build.thread_id@, build.id);
            &&& !after.tools.contains_key((build.thread_id@, name))
            &&& !after.tool_bindings.contains_key((build.thread_id@, name))
            &&& !after.context_policies.contains_key(build.thread_id@)
            &&& !after.session_event_hubs.contains_key(build.thread_id@)
            &&& after.tools.get((other, name)) == client.tools.get((other, name))
            &&& after.tool_bindings.get((other, name)) == client.tool_bindings.get((other, name))
            &&& after.context_policies.get(other) == client.context_policies.get(other)
            &&& after.sessions.get(other) == client.sessions.get(other)
            &&& after.session_event_hubs.get(other) == client.session_event_hubs.get(other)
        }),
{
}

/// Staging a tool keeps the build the owner of everything that its session has.
pub proof fn staging_keeps_ownership(
    client: ClientView,
    build: SessionBuild,
    after: SessionBuild,
    name: Seq<char>,
    binding: Seq<char>,
    handler: u64,
)
    requires
        owns_all(client, build),
        after.thread_id == build.thread_id,
        after.context_binding == build.context_binding,
        staged_views(after.staged_names@) == staged_views(build.staged_names@).push(
            (name, handler),
        ),
        staged_views(after.staged_versions@) == staged_views(build.staged_versions@).push(
            (binding, handler),
        ),
    ensures
        owns_all(tool_bound(client, build.thread_id@, name, binding, handler), after),
{
    let bound = tool_bound(client, build.thread_id@, name, binding, handler);
    let names = staged_views(build.staged_names@);
    let versions = staged_views(build.staged_versions@);
    assert forall|other: Seq<char>| #[trigger]
        bound.tools.contains_key((build.thread_id@, other)) implies staged_views(
        after.staged_names@,
    ).contains((other, bound.tools[(build.thread_id@, other)])) by {
        if other == name {
            assert(names.push((name, handler))[names.len() as int] == (name, handler));
        } else {
            let entry = (other, client.tools[(build.thread_id@, other)]);
            assert(client.tools.contains_key((build.thread_id@, other)));
            let i = choose|i: int| 0 <= i < names.len() && names[i] == entry;
            assert(names.push((name, handler))[i] == entry);
        }
    }
    assert forall|other: Seq<char>| #[trigger]
        bound.tool_bindings.contains_key((build.thread_id@, other)) implies staged_views(
        after.staged_versions@,
    ).contains((other, bound.tool_bindings[(build.thread_id@, other)])) by {
        if other == binding {
            assert(versions.push((binding, handler))[versions.len() as int] == (
                binding,
                handler,
            ));
        } else {
            let entry = (other, client.tool_bindings[(build.thread_id@, other)]);
            assert(client.tool_bindings.contains_key((build.thread_id@, other)));
            let i = choose|i: int| 0 <= i < versions.len() && versions[i] == entry;
            assert(versions.push((binding, handler))[i] == entry);
        }
    }
}

/// Every tool that is staged for a session is found there by its name and by its version,
/// as long as no two have the same.
pub proof fn staged_tools_are_found(
    client: ClientView,
    session: Seq<char>,
    tools: Seq<BoundTool>,
    versions: Seq<Seq<char>>,
    i: int,
)
    requires
        versions.len() == tools.len(),
        tool_names(tools).no_duplicates(),
        versions.no_duplicates(),
        0 <= i < tools.len(),
    ensures
        ({
            let staged = tools_staged(client, session, tools, versions);
            &&& staged.tools.get((session, tools[i].tool.name@)) == Some(tools[i].handler)
            &&& staged.tool_bindings.get((session, versions[i])) == Some(tools[i].handler)
        }),
    decreases tools.len(),
{
    let names = tool_names(tools);
    if i < tools.len() - 1 {
        assert(tool_names(tools.drop_last()) =~= names.drop_last());
        assert(names[i] != names[tools.len() - 1]);
        assert(versions[i] != versions[tools.len() - 1]);
        staged_tools_are_found(client, session, tools.drop_last(), versions.drop_last(), i);
    }
}

/// Every later session of an agent registers its tools as they were described when the
/// agent was captured, whatever they report by then, and a call of such a tool runs the
/// very tool that was captured. `registrations` are what [`Agent::stage`] tells the daemon.
pub proof fn sessions_register_what_was_captured(
    agent: Agent,
    expected: Seq<Seq<char>>,
    tools: Seq<BoundTool>,
    manifests: Seq<Option<PackManifest>>,
    client: ClientView,
    session: Seq<char>,
    pack_tools: Seq<BoundTool>,
    registrations: Seq<ToolRegistration>,
    execution: ToolExecution,
    i: int,
)
    requires
        captured_as(agent, expected, tools, manifests),
        tool_names(pack_tools) == owned_names(agent.packs@),
        registered(registrations, agent.tools@ + pack_tools),
        versions_of(registrations).no_duplicates(),
        0 <= i < tools.len(),
        execution.session() == Some(session),
        execution.name@ == tools[i].tool.name@,
        execution.binding_id matches Some(version) ==> version@ == registrations[i].binding_id@,
    ensures
        same_description(registrations[i].tool, tools[i].tool),
        registrations[i].is_host_tool,
        meant_tool(
            session_staged(
                client,
                session,
                agent.context_policy,
                agent.tools@ + pack_tools,
                versions_of(registrations),
            ),
            execution,
        ) == Some(tools[i].handler),
{
    let all = agent.tools@ + pack_tools;
    captured_names_are_exact(expected, tool_names(tools), manifests);
    lemma_owned_names(manifests);
    assert(tool_names(all) =~= tool_names(tools) + manifest_names(manifests));
    assert(all[i] == tools[i]);
    assert(versions_of(registrations)[i] == registrations[i].binding_id@);
    let start = match agent.context_policy {
        Some(policy) => ClientView {
            context_policies: client.context_policies.insert(session, policy),
            ..client
        },
        None => client,
    };
    staged_tools_are_found(start, session, all, versions_of(registrations), i);
}

/// A route that leads elsewhere by the time a build is taken down stays.
pub proof fn rollback_spares_replaced_routes(
    client: ClientView,
    build: SessionBuild,
    name: Seq<char>,
    handler: u64,
)
    requires
        client.tools.get((build.thread_id@, name)) == Some(handler),
        !staged_views(build.staged_names@).contains((name, handler)),
    ensures
        taken_down(client, build).tools.get((build.thread_id@, name)) == Some(handler),
{
}

/// To stage tools for a session leaves every other session alone, and changes nothing but
/// tools. A name or a version that is not among the staged ones stays as it was, and of two
/// tools of the same name the later one counts.
pub proof fn staging_touches_only_its_session(
    client: ClientView,
    session: Seq<char>,
    tools: Seq<BoundTool>,
    versions: Seq<Seq<char>>,
    other: Seq<char>,
    name: Seq<char>,
)
    requires
        versions.len() == tools.len(),
    ensures
        ({
            let staged = tools_staged(client, session, tools, versions);
            &&& staged == (ClientView {
                tools: staged.tools,
                tool_bindings: staged.tool_bindings,
                ..client
            })
            &&& other != session ==> staged.tools.get((other, name)) == client.tools.get(
                (other, name),
            )
            &&& other != session ==> staged.tool_bindings.get((other, name))
                == client.tool_bindings.get((other, name))
            &&& tools.len() > 0 ==> staged.tools.get((session, tools.last().tool.name@)) == Some(
                tools.last().handler,
            )
            &&& (forall|i: int| 0 <= i < tools.len() ==> (#[trigger] tools[i]).tool.name@ != name)
                ==> staged.tools.get((session, name)) == client.tools.get((session, name))
            &&& (forall|i: int| 0 <= i < versions.len() ==> #[trigger] versions[i] != name)
                ==> staged.tool_bindings.get((session, name)) == client.tool_bindings.get(
                (session, name),
            )
        }),
    decreases tools.len(),
{
    if tools.len() > 0 {
        staging_touches_only_its_session(
            client,
            session,
            tools.drop_last(),
            versions.drop_last(),
            other,
            name,
        );
        let last = tools.len() - 1;
        if forall|i: int| 0 <= i < tools.len() ==> (#[trigger] tools[i]).tool.name@ != name {
            assert(tools[last].tool.name@ != name);
            assert forall|i: int| 0 <= i < tools.drop_last().len() implies (
            #[trigger] tools.drop_last()[i]).tool.name@ != name by {
                assert(tools[i].tool.name@ != name);
            }
        }
        if forall|i: int| 0 <= i < versions.len() ==> #[trigger] versions[i] != name {
            assert(versions[last] != name);
            assert forall|i: int| 0 <= i < versions.drop_last().len() implies
                #[trigger] versions.drop_last()[i] != name by {
                assert(versions[i] != name);
            }
        }
    }
}

/// A session that is staged has its policy, where it has one, and its tools. The policies of
/// other sessions stay, and nothing else changes.
pub proof fn staged_session_has_its_policy(
    client: ClientView,
    session: Seq<char>,
    policy: Option<u64>,
    tools: Seq<BoundTool>,
    versions: Seq<Seq<char>>,
    other: Seq<char>,
    name: Seq<char>,
)
    requires
        versions.len() == tools.len(),
    ensures
        ({
            let staged = session_staged(client, session, policy, tools, versions);
            &&& policy is Some ==> staged.context_policies.get(session) == policy
            &&& policy is None ==> staged.context_policies == client.context_policies
            &&& other != session ==> staged.context_policies.get(other)
                == client.context_policies.get(other)
            &&& other != session ==> staged.tools.get((other, name)) == client.tools.get(
                (other, name),
            )
            &&& other != session ==> staged.tool_bindings.get((other, name))
                == client.tool_bindings.get((other, name))
            &&& staged == (ClientView {
                tools: staged.tools,
                tool_bindings: staged.tool_bindings,
                context_policies: staged.context_policies,
                ..client
            })
        }),
{
    let bound = match policy {
        Some(policy) => ClientView {
            context_policies: client.context_policies.insert(session, policy),
            ..client
        },
        None => client,
    };
    staging_touches_only_its_session(bound, session, tools, versions, other, name);
}

/// The daemon is told of every tool of a session and of no other, in order: each in every
/// part, as a tool of the host, under a version of its own form.
pub proof fn every_tool_is_registered(
    registrations: Seq<ToolRegistration>,
    tools: Seq<BoundTool>,
    i: int,
)
    requires
        registered(registrations, tools),
        0 <= i < tools.len(),
    ensures
        registrations.len() == tools.len(),
        registrations[i].is_host_tool,
        registrations[i].tool.name@ == tools[i].tool.name@,
        registrations[i].tool.description@ == tools[i].tool.description@,
        registrations[i].tool.parameters == tools[i].tool.parameters,
        registrations[i].tool.supports_parallel == tools[i].tool.supports_parallel,
        registrations[i].tool.require_approval == tools[i].tool.require_approval,
        is_identifier(registrations[i].binding_id@),
        versions_of(registrations).len() == registrations.len(),
        versions_of(registrations)[i] == registrations[i].binding_id@,
{
}

/// What was staged is remembered by its text with the tool that it led to, one by one and in
/// order.
pub proof fn staged_routes_are_remembered(
    staged: Seq<(String, u64)>,
    texts: Seq<Seq<char>>,
    tools: Seq<BoundTool>,
    i: int,
)
    requires
        0 <= i,
    ensures
        staged_views(staged).len() == staged.len(),
        i < staged.len() ==> staged_views(staged)[i] == (staged[i].0@, staged[i].1),
        staged_under(texts, tools).len() == tools.len(),
        i < tools.len() ==> staged_under(texts, tools)[i] == (texts[i], tools[i].handler),
{
}

/// A route of a session goes exactly where it was staged and still leads to the same tool.
/// The routes of other sessions stay.
pub proof fn only_staged_routes_are_taken_down(
    table: Map<(Seq<char>, Seq<char>), u64>,
    session: Seq<char>,
    staged: Seq<(Seq<char>, u64)>,
    owner: Seq<char>,
    name: Seq<char>,
)
    ensures
        ({
            let after = unstaged(table, session, staged);
            let gone = owner == session && table.contains_key((owner, name)) && exists|i: int|
                0 <= i < staged.len() && #[trigger] staged[i] == (name, table[(owner, name)]);
            &&& gone ==> !after.contains_key((owner, name))
            &&& !gone ==> after.get((owner, name)) == table.get((owner, name))
        }),
{
    let entry = (name, table[(owner, name)]);
    if staged.contains(entry) {
        let i = choose|i: int| 0 <= i < staged.len() && staged[i] == entry;
        assert(staged[i] == entry);
    }
}

/// A build that is taken down gives up its policy where it is still the one that was staged,
/// and else spares it. Only tools and policies change.
pub proof fn taking_down_spares_the_rest(client: ClientView, build: SessionBuild, other: Seq<char>)
    ensures
        ({
            let after = taken_down(client, build);
            let session = build.thread_id@;
            let own = build.context_binding is Some && client.context_policies.get(session)
                == build.context_binding;
            &&& own ==> !after.context_policies.contains_key(session)
            &&& !own ==> after.context_policies == client.context_policies
            &&& other != session ==> after.context_policies.get(other)
                == client.context_policies.get(other)
            &&& after.tools == unstaged(
                client.tools,
                session,
                staged_views(build.staged_names@),
            )
            &&& after.tool_bindings == unstaged(
                client.tool_bindings,
                session,
                staged_views(build.staged_versions@),
            )
            &&& after == (ClientView {
                tools: after.tools,
                tool_bindings: after.tool_bindings,
                context_policies: after.context_policies,
                ..client
            })
        }),
{
}

} // verus!
