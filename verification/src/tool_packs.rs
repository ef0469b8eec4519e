//! Packs of tools: whether what a pack binds to a session is what it declared.

use vstd::prelude::*;

use crate::agent::{
    declared_list, same_description, tool_names, BoundTool, DeclaredTool, PackManifest,
};
use crate::errors::{ErrorView, SdkError};
use crate::text::{join3, join4, same_text};

verus! {

/// The first number below `limit` that has the property, where there is one.
pub open spec fn first(limit: int, property: spec_fn(int) -> bool) -> Option<int> {
    if exists|i: int| is_first(limit, property, i) {
        Some(choose|i: int| is_first(limit, property, i))
    } else {
        None
    }
}

/// `i` is the first number below `limit` that has the property.
pub open spec fn is_first(limit: int, property: spec_fn(int) -> bool, i: int) -> bool {
    &&& 0 <= i < limit
    &&& property(i)
    &&& forall|j: int| 0 <= j < i ==> !#[trigger] property(j)
}

proof fn lemma_first(limit: int, property: spec_fn(int) -> bool, i: int)
    requires
        is_first(limit, property, i),
    ensures
        first(limit, property) == Some(i),
{
    let k = choose|k: int| is_first(limit, property, k);
    assert(is_first(limit, property, k));
    if k < i {
        assert(!property(k));
    }
    if i < k {
        assert(!property(i));
    }
}

/// A handler that could be read, under this name. A handler whose description could not be
/// read is `None`.
pub open spec fn handles(handler: Option<BoundTool>, name: Seq<char>) -> bool {
    handler matches Some(bound) && bound.tool.name@ == name
}

/// Handler `i` could not be read, or has the name of one before it.
pub open spec fn unusable(handlers: Seq<Option<BoundTool>>, i: int) -> bool {
    match handlers[i] {
        None => true,
        Some(bound) => exists|j: int|
            0 <= j < i && #[trigger] handles(handlers[j], bound.tool.name@),
    }
}

/// Declared tool `k` has no handler, or has the name of one before it, whose handler that is.
pub open spec fn unhandled(
    declared: Seq<DeclaredTool>,
    handlers: Seq<Option<BoundTool>>,
    k: int,
) -> bool {
    let name = declared[k].tool.name@;
    ||| exists|j: int| 0 <= j < k && #[trigger] declared[j].tool.name@ == name
    ||| forall|i: int| 0 <= i < handlers.len() ==> !#[trigger] handles(handlers[i], name)
}

/// Where the handler of a name is.
pub open spec fn place_of(handlers: Seq<Option<BoundTool>>, name: Seq<char>) -> int {
    choose|i: int| 0 <= i < handlers.len() && #[trigger] handles(handlers[i], name)
}

/// Declared tool `k` has no handler of its own, or one that is described otherwise.
pub open spec fn unmatched(
    declared: Seq<DeclaredTool>,
    handlers: Seq<Option<BoundTool>>,
    k: int,
) -> bool {
    ||| unhandled(declared, handlers, k)
    ||| !handlers[place_of(handlers, declared[k].tool.name@)]->0.tool.matches(declared[k].tool)
}

/// The refusal of handlers that are not those of the manifest.
pub open spec fn other_handlers(pack: Seq<char>) -> ErrorView {
    ErrorView::InvalidConfiguration(
        "ToolPack "@ + pack + " handlers do not match its frozen manifest"@,
    )
}

/// The handlers of a manifest's tools, in the manifest's order, or why the pack's handlers
/// are not those of its manifest: the first unusable handler, else the first tool that has
/// no handler like it, else the handlers that are left over.
pub open spec fn pack_handlers(manifest: PackManifest, handlers: Seq<Option<BoundTool>>) -> Result<
    Seq<u64>,
    ErrorView,
> {
    let pack = manifest.id@;
    let declared = manifest.tools@;
    match first(handlers.len() as int, |i: int| unusable(handlers, i)) {
        Some(i) => Err(
            if handlers[i] is None {
                ErrorView::Internal("ToolPack "@ + pack + " handler metadata panicked"@)
            } else {
                ErrorView::InvalidConfiguration(
                    "ToolPack "@ + pack + " returned duplicate handler names"@,
                )
            },
        ),
        None => match first(declared.len() as int, |k: int| unmatched(declared, handlers, k)) {
            Some(k) => Err(
                if unhandled(declared, handlers, k) {
                    other_handlers(pack)
                } else {
                    ErrorView::InvalidConfiguration(
                        "ToolPack "@ + pack
                            + " handler metadata does not match its frozen manifest"@,
                    )
                },
            ),
            None => if handlers.len() != declared.len() {
                Err(other_handlers(pack))
            } else {
                Ok(
                    Seq::new(
                        declared.len(),
                        |k: int| handlers[place_of(handlers, declared[k].tool.name@)]->0.handler,
                    ),
                )
            },
        },
    }
}

/// `bound` are the declared tools with `handlers`, in order.
pub open spec fn binds(bound: Seq<BoundTool>, declared: Seq<DeclaredTool>, handlers: Seq<u64>) -> bool {
    &&& bound.len() == declared.len()
    &&& handlers.len() == declared.len()
    &&& forall|i: int|
        0 <= i < bound.len() ==> {
            &&& (#[trigger] bound[i]).handler == handlers[i]
            &&& same_description(bound[i].tool, declared[i].tool)
        }
}

/// Where a handler of a name is among the first `limit`, if there is one.
fn find_handler(handlers: &Vec<Option<BoundTool>>, limit: usize, name: &str) -> (found: Option<usize>)
    requires
        limit <= handlers@.len(),
    ensures
        match found {
            Some(i) => i < limit && handles(handlers@[i as int], name@),
            None => forall|i: int| 0 <= i < limit ==> !#[trigger] handles(handlers@[i], name@),
        },
{
    let mut i: usize = 0;
    while i < limit
        invariant
            i <= limit <= handlers@.len(),
            forall|j: int| 0 <= j < i ==> !#[trigger] handles(handlers@[j], name@),
        decreases limit - i,
    {
        if let Some(bound) = &handlers[i] {
            if same_text(bound.tool.name.as_str(), name) {
                return Some(i);
            }
        }
        i = i + 1;
    }
    None
}

fn check_handlers(pack: &str, handlers: &Vec<Option<BoundTool>>) -> (result: Result<(), SdkError>)
    ensures
        match first(handlers@.len() as int, |i: int| unusable(handlers@, i)) {
            None => result is Ok,
            Some(i) => result is Err && result->Err_0@ == if handlers@[i] is None {
                ErrorView::Internal("ToolPack "@ + pack@ + " handler metadata panicked"@)
            } else {
                ErrorView::InvalidConfiguration(
                    "ToolPack "@ + pack@ + " returned duplicate handler names"@,
                )
            },
        },
        result is Ok ==> forall|i: int|
            0 <= i < handlers@.len() ==> !#[trigger] unusable(handlers@, i),
{
    let ghost property = |i: int| unusable(handlers@, i);
    let mut i: usize = 0;
    while i < handlers.len()
        invariant
            i <= handlers.len(),
            property == (|j: int| unusable(handlers@, j)),
            forall|j: int| 0 <= j < i ==> !#[trigger] unusable(handlers@, j),
        decreases handlers.len() - i,
    {
        match &handlers[i] {
            None => {
                proof {
                    lemma_first(handlers@.len() as int, property, i as int);
                }
                return Err(
                    SdkError::Internal(join3("ToolPack ", pack, " handler metadata panicked")),
                );
            },
            Some(bound) => {
                if find_handler(handlers, i, bound.tool.name.as_str()).is_some() {
                    proof {
                        lemma_first(handlers@.len() as int, property, i as int);
                    }
                    return Err(
                        SdkError::InvalidConfiguration(
                            join3("ToolPack ", pack, " returned duplicate handler names"),
                        ),
                    );
                }
            },
        }
        i = i + 1;
    }
    proof {
        assert forall|j: int| !is_first(handlers@.len() as int, property, j) by {
            if 0 <= j < handlers@.len() {
                assert(!unusable(handlers@, j));
            }
        }
    }
    Ok(())
}

/// Whether one of the first `limit` tools has the name.
fn declares(declared: &Vec<DeclaredTool>, limit: usize, name: &str) -> (known: bool)
    requires
        limit <= declared@.len(),
    ensures
        known == exists|j: int| 0 <= j < limit && #[trigger] declared@[j].tool.name@ == name@,
{
    let mut j: usize = 0;
    while j < limit
        invariant
            j <= limit <= declared@.len(),
            forall|i: int| 0 <= i < j ==> #[trigger] declared@[i].tool.name@ != name@,
        decreases limit - j,
    {
        if same_text(declared[j].tool.name.as_str(), name) {
            return true;
        }
        j = j + 1;
    }
    false
}

/// Where nothing is unusable, a name has one handler at most.
proof fn lemma_one_place(handlers: Seq<Option<BoundTool>>, i: int, j: int)
    requires
        forall|k: int| 0 <= k < handlers.len() ==> !#[trigger] unusable(handlers, k),
        0 <= i < handlers.len(),
        0 <= j < handlers.len(),
        handlers[j] is Some,
        handles(handlers[i], handlers[j]->0.tool.name@),
    ensures
        i == j,
{
    assert(!unusable(handlers, i));
    assert(!unusable(handlers, j));
    if j < i {
        assert(handles(handlers[j], handlers[i]->0.tool.name@));
    }
}

/// Whether the handlers that a pack bound are exactly those that it declared; the result
/// are the tools of the manifest with their handlers, in order.
pub fn validate_bound_pack_tools(manifest: &PackManifest, handlers: Vec<Option<BoundTool>>) -> (result:
    Result<Vec<BoundTool>, SdkError>)
    ensures
        match result {
            Ok(bound) => {
                &&& pack_handlers(*manifest, handlers@) is Ok
                &&& binds(bound@, manifest.tools@, pack_handlers(*manifest, handlers@)->Ok_0)
            },
            Err(error) => pack_handlers(*manifest, handlers@) == Err::<Seq<u64>, ErrorView>(
                error@,
            ),
        },
{
    let pack = manifest.id.as_str();
    if let Err(error) = check_handlers(pack, &handlers) {
        return Err(error);
    }
    let ghost declared = manifest.tools@;
    let ghost offered = handlers@;
    let ghost property = |k: int| unmatched(declared, offered, k);
    let mut bound: Vec<BoundTool> = Vec::new();
    let mut k: usize = 0;
    while k < manifest.tools.len()
        invariant
            k <= manifest.tools.len(),
            declared == manifest.tools@,
            offered == handlers@,
            pack@ == manifest.id@,
            property == (|j: int| unmatched(declared, offered, j)),
            first(offered.len() as int, |i: int| unusable(offered, i)) is None,
            forall|i: int| 0 <= i < offered.len() ==> !#[trigger] unusable(offered, i),
            forall|j: int| 0 <= j < k ==> !#[trigger] unmatched(declared, offered, j),
            bound@.len() == k,
            forall|j: int|
                0 <= j < k ==> {
                    &&& (#[trigger] bound@[j]).handler == offered[place_of(
                        offered,
                        declared[j].tool.name@,
                    )]->0.handler
                    &&& same_description(bound@[j].tool, declared[j].tool)
                },
        decreases manifest.tools.len() - k,
    {
        let expected = &manifest.tools[k].tool;
        let found = if declares(&manifest.tools, k, expected.name.as_str()) {
            None
        } else {
            find_handler(&handlers, handlers.len(), expected.name.as_str())
        };
        let place: usize = match found {
            Some(place) => place,
            None => {
                proof {
                    assert(unhandled(declared, offered, k as int));
                    lemma_first(declared.len() as int, property, k as int);
                }
                return Err(
                    SdkError::InvalidConfiguration(
                        join3("ToolPack ", pack, " handlers do not match its frozen manifest"),
                    ),
                );
            },
        };
        proof {
            assert(handles(offered[place as int], expected.name@));
            lemma_one_place(offered, place_of(offered, expected.name@), place as int);
        }
        if let Some(actual) = &handlers[place] {
            if !actual.tool.is_described_as(expected) {
                proof {
                    assert(!unhandled(declared, offered, k as int));
                    lemma_first(declared.len() as int, property, k as int);
                }
                return Err(
                    SdkError::InvalidConfiguration(
                        join3(
                            "ToolPack ",
                            pack,
                            " handler metadata does not match its frozen manifest",
                        ),
                    ),
                );
            }
            bound.push(BoundTool { tool: expected.clone(), handler: actual.handler });
        }
        k = k + 1;
    }
    proof {
        assert forall|j: int| !is_first(declared.len() as int, property, j) by {
            if 0 <= j < declared.len() {
                assert(!unmatched(declared, offered, j));
            }
        }
    }
    if handlers.len() != manifest.tools.len() {
        return Err(
            SdkError::InvalidConfiguration(
                join3("ToolPack ", pack, " handlers do not match its frozen manifest"),
            ),
        );
    }
    Ok(bound)
}

/// What came of binding a pack to a session.
#[derive(Debug)]
pub enum PackOutcome {
    /// The client was closed before.
    Closed,
    /// The client was closed meanwhile.
    Interrupted,
    Failed(String),
    Panicked,
    /// The pack is bound; its handlers, or why they could not be asked for.
    Bound(Result<Vec<Option<BoundTool>>, String>),
}

/// Why a session cannot be built.
#[derive(Debug)]
pub enum PackBindFailure {
    /// What was built has to be taken down.
    Rollback(SdkError),
    /// Everything went with the connection.
    ConnectionClosed(SdkError),
    /// Nobody waits for the session any more.
    WaiterDropped,
}

/// What the failure to bind a pack is, by its texts.
pub open spec fn bind_failure(
    manifest: PackManifest,
    outcome: PackOutcome,
    waiter_closed: bool,
) -> Option<(bool, ErrorView)> {
    match outcome {
        PackOutcome::Closed => Some((false, ErrorView::ChannelClosed("Client is closed"@))),
        PackOutcome::Interrupted => Some(
            (false, ErrorView::ChannelClosed("Client closed during ToolPack bind"@)),
        ),
        PackOutcome::Failed(error) => Some(
            (
                true,
                ErrorView::Internal("ToolPack "@ + manifest.id@ + " bind failed: "@ + error@),
            ),
        ),
        PackOutcome::Panicked => Some(
            (true, ErrorView::Internal("ToolPack "@ + manifest.id@ + " bind panicked"@)),
        ),
        PackOutcome::Bound(Err(message)) => Some((true, ErrorView::Internal(message@))),
        PackOutcome::Bound(Ok(handlers)) => match pack_handlers(manifest, handlers@) {
            Err(error) => Some((true, error)),
            Ok(_) => if waiter_closed {
                Some((true, waiter_dropped()))
            } else {
                None
            },
        },
    }
}

/// Nobody waits for a session any more.
pub open spec fn waiter_dropped() -> ErrorView {
    ErrorView::ChannelClosed("Session creation waiter dropped"@)
}

impl PackBindFailure {
    /// Whether what was built has to be taken down, and the error.
    pub open spec fn meaning(self) -> (bool, ErrorView) {
        match self {
            PackBindFailure::Rollback(error) => (true, error@),
            PackBindFailure::ConnectionClosed(error) => (false, error@),
            PackBindFailure::WaiterDropped => (true, waiter_dropped()),
        }
    }

    /// Whether what was built has to be taken down, and the error.
    pub fn resolve(self) -> (resolved: (bool, SdkError))
        ensures
            (resolved.0, resolved.1@) == self.meaning(),
    {
        match self {
            PackBindFailure::Rollback(error) => (true, error),
            PackBindFailure::ConnectionClosed(error) => (false, error),
            PackBindFailure::WaiterDropped => (
                true,
                SdkError::ChannelClosed("Session creation waiter dropped".to_owned()),
            ),
        }
    }
}

/// Takes what came of binding a pack: its tools, or why the session cannot be built.
/// `waiter_closed` says that nobody waits for the session any more.
pub fn bind_pack(manifest: &PackManifest, outcome: PackOutcome, waiter_closed: bool) -> (result: Result<
    Vec<BoundTool>,
    PackBindFailure,
>)
    ensures
        match result {
            Ok(bound) => {
                &&& bind_failure(*manifest, outcome, waiter_closed) is None
                &&& binds(
                    bound@,
                    manifest.tools@,
                    pack_handlers(*manifest, outcome->Bound_0->Ok_0@)->Ok_0,
                )
                &&& tool_names(bound@) == declared_list(manifest.tools@)
            },
            Err(failure) => bind_failure(*manifest, outcome, waiter_closed) == Some(
                failure.meaning(),
            ),
        },
{
    let id = manifest.id.as_str();
    match outcome {
        PackOutcome::Closed => Err(
            PackBindFailure::ConnectionClosed(
                SdkError::ChannelClosed("Client is closed".to_owned()),
            ),
        ),
        PackOutcome::Interrupted => Err(
            PackBindFailure::ConnectionClosed(
                SdkError::ChannelClosed("Client closed during ToolPack bind".to_owned()),
            ),
        ),
        PackOutcome::Failed(error) => Err(
            PackBindFailure::Rollback(
                SdkError::Internal(join4("ToolPack ", id, " bind failed: ", error.as_str())),
            ),
        ),
        PackOutcome::Panicked => Err(
            PackBindFailure::Rollback(SdkError::Internal(join3("ToolPack ", id, " bind panicked"))),
        ),
        PackOutcome::Bound(Err(message)) => Err(
            PackBindFailure::Rollback(SdkError::Internal(message)),
        ),
        PackOutcome::Bound(Ok(handlers)) => match validate_bound_pack_tools(manifest, handlers) {
            Err(error) => Err(PackBindFailure::Rollback(error)),
            Ok(bound) => {
                if waiter_closed {
                    Err(PackBindFailure::WaiterDropped)
                } else {
                    assert(tool_names(bound@) =~= declared_list(manifest.tools@));
                    Ok(bound)
                }
            },
        },
    }
}

/// `order` arranges the numbers below `n`.
pub open spec fn is_arrangement(order: Seq<int>, n: nat) -> bool {
    &&& order.len() == n
    &&& order.no_duplicates()
    &&& forall|k: int| 0 <= k < n ==> 0 <= #[trigger] order[k] < n
}

/// The handlers are those of the declared tools, arranged by `order`: the handler of tool
/// `k`, described as declared, comes at place `order[k]`.
pub open spec fn arranges(
    order: Seq<int>,
    declared: Seq<DeclaredTool>,
    handlers: Seq<Option<BoundTool>>,
) -> bool {
    &&& handlers.len() == declared.len()
    &&& is_arrangement(order, declared.len())
    &&& forall|k: int|
        0 <= k < declared.len() ==> {
            let handler = handlers[#[trigger] order[k]];
            handler is Some && handler->0.tool.matches(declared[k].tool)
        }
}

/// A pack that binds a handler for each declared tool, described as declared, is accepted
/// in whatever order it hands its handlers out; the tools keep the manifest's order.
pub proof fn faithful_pack_is_accepted(
    manifest: PackManifest,
    handlers: Seq<Option<BoundTool>>,
    order: Seq<int>,
)
    requires
        declared_list(manifest.tools@).no_duplicates(),
        arranges(order, manifest.tools@, handlers),
    ensures
        pack_handlers(manifest, handlers) == Ok::<Seq<u64>, ErrorView>(
            Seq::new(manifest.tools@.len(), |k: int| handlers[order[k]]->0.handler),
        ),
{
    let declared = manifest.tools@;
    let names = declared_list(declared);
    assert forall|i: int| 0 <= i < handlers.len() implies !#[trigger] unusable(handlers, i) by {
        let k = lemma_arranged(order, declared.len(), i);
        assert(handlers[order[k]] is Some);
        assert forall|j: int| 0 <= j < i implies !#[trigger] handles(
            handlers[j],
            handlers[i]->0.tool.name@,
        ) by {
            let l = lemma_arranged(order, declared.len(), j);
            assert(handlers[order[l]] is Some);
            assert(names[k] != names[l]);
        }
    }
    let faulty = |i: int| unusable(handlers, i);
    assert forall|i: int| !is_first(handlers.len() as int, faulty, i) by {
        if 0 <= i < handlers.len() {
            assert(!unusable(handlers, i));
        }
    }
    assert forall|k: int| 0 <= k < declared.len() implies {
        &&& !#[trigger] unmatched(declared, handlers, k)
        &&& place_of(handlers, declared[k].tool.name@) == order[k]
    } by {
        let name = declared[k].tool.name@;
        assert(handles(handlers[order[k]], name));
        lemma_one_place(handlers, place_of(handlers, name), order[k]);
        assert forall|j: int| 0 <= j < k implies #[trigger] declared[j].tool.name@ != name by {
            assert(names[j] != names[k]);
        }
    }
    let missing = |k: int| unmatched(declared, handlers, k);
    assert forall|k: int| !is_first(declared.len() as int, missing, k) by {
        if 0 <= k < declared.len() {
            assert(!unmatched(declared, handlers, k));
        }
    }
    let matched = pack_handlers(manifest, handlers)->Ok_0;
    assert forall|k: int| 0 <= k < declared.len() implies #[trigger] matched[k]
        == handlers[order[k]]->0.handler by {
        assert(!unmatched(declared, handlers, k));
    }
    assert(matched =~= Seq::new(declared.len(), |k: int| handlers[order[k]]->0.handler));
}

/// A pack that is accepted has bound exactly the tools that it declared: its handlers are
/// those of the manifest in some order, and no two tools have the same name.
pub proof fn accepted_pack_is_faithful(manifest: PackManifest, handlers: Seq<Option<BoundTool>>)
    requires
        pack_handlers(manifest, handlers) is Ok,
    ensures
        declared_list(manifest.tools@).no_duplicates(),
        exists|order: Seq<int>| #[trigger] arranges(order, manifest.tools@, handlers),
{
    let declared = manifest.tools@;
    let order = Seq::new(
        declared.len(),
        |k: int| place_of(handlers, declared[k].tool.name@),
    );
    let missing = |k: int| unmatched(declared, handlers, k);
    assert forall|k: int| 0 <= k < declared.len() implies !#[trigger] unmatched(
        declared,
        handlers,
        k,
    ) by {
        if unmatched(declared, handlers, k) {
            lemma_some_first(declared.len() as int, missing, k);
        }
    }
    assert forall|k: int| 0 <= k < declared.len() implies {
        &&& 0 <= #[trigger] order[k] < handlers.len()
        &&& handles(handlers[order[k]], declared[k].tool.name@)
    } by {
        assert(!unmatched(declared, handlers, k));
        let name = declared[k].tool.name@;
        let i = choose|i: int| 0 <= i < handlers.len() && #[trigger] handles(handlers[i], name);
        assert(0 <= i < handlers.len() && handles(handlers[i], name));
    }
    assert forall|j: int, k: int| 0 <= j < k < declared.len() implies declared[j].tool.name@
        != declared[k].tool.name@ && #[trigger] order[j] != #[trigger] order[k] by {
        assert(!unmatched(declared, handlers, k));
        assert(!unhandled(declared, handlers, k));
        assert(handles(handlers[order[j]], declared[j].tool.name@));
        assert(handles(handlers[order[k]], declared[k].tool.name@));
    }
    let names = declared_list(declared);
    assert forall|j: int, k: int| 0 <= j < names.len() && 0 <= k < names.len() && j != k implies
        names[j] != names[k] by {
        if j < k {
            assert(order[j] != order[k]);
        } else {
            assert(order[k] != order[j]);
        }
    }
    assert forall|k: int| 0 <= k < declared.len() implies {
        let handler = handlers[#[trigger] order[k]];
        handler is Some && handler->0.tool.matches(declared[k].tool)
    } by {
        assert(!unmatched(declared, handlers, k));
    }
    assert(arranges(order, declared, handlers));
}

proof fn lemma_some_first(limit: int, property: spec_fn(int) -> bool, i: int)
    requires
        0 <= i < limit,
        property(i),
    ensures
        first(limit, property) is Some,
    decreases i,
{
    if exists|j: int| 0 <= j < i && #[trigger] property(j) {
        let j = choose|j: int| 0 <= j < i && #[trigger] property(j);
        lemma_some_first(limit, property, j);
    } else {
        assert(is_first(limit, property, i));
    }
}

/// Every number below `n` has its place in an arrangement.
proof fn lemma_arranged(order: Seq<int>, n: nat, i: int) -> (k: int)
    requires
        is_arrangement(order, n),
        0 <= i < n,
    ensures
        0 <= k < n,
        order[k] == i,
{
    order.unique_seq_to_set();
    vstd::set_lib::lemma_int_range(0, n as int);
    let all = vstd::set_lib::set_int_range(0, n as int);
    assert forall|x: int| #[trigger] order.to_set().contains(x) implies all.contains(x) by {
        let j = choose|j: int| 0 <= j < order.len() && order[j] == x;
        assert(0 <= order[j] < n);
    }
    vstd::set_lib::lemma_subset_equality(order.to_set(), all);
    assert(all.contains(i));
    assert(order.contains(i));
    choose|k: int| 0 <= k < order.len() && order[k] == i
}

/// The packs of a session while they are closed, the last one that was bound first.
#[derive(Debug)]
pub struct PackClosing {
    /// How many packs are still open; they are those that were bound first.
    pub open: usize,
    /// What the packs complained of, in the order in which they were closed.
    pub failures: Vec<String>,
}

impl PackClosing {
    /// Starts to close this many packs.
    pub fn begin(packs: usize) -> (closing: Self)
        ensures
            closing.open == packs,
            closing.failures@.len() == 0,
    {
        PackClosing { open: packs, failures: Vec::new() }
    }

    /// The pack to close now, counted in the order in which they were bound.
    pub fn next(&self) -> (pack: Option<usize>)
        ensures
            pack == next_to_close(self.open),
    {
        if self.open == 0 {
            None
        } else {
            Some(self.open - 1)
        }
    }

    /// Takes what came of closing that pack.
    pub fn closed(&mut self, failure: Option<String>)
        requires
            old(self).open > 0,
        ensures
            final(self).open == old(self).open - 1,
            final(self).failures@ == match failure {
                Some(failure) => old(self).failures@.push(failure),
                None => old(self).failures@,
            },
    {
        self.open = self.open - 1;
        if let Some(failure) = failure {
            self.failures.push(failure);
        }
    }
}

/// The pack that is closed when this many are open.
pub open spec fn next_to_close(open: usize) -> Option<usize> {
    if open == 0 {
        None
    } else {
        Some((open - 1) as usize)
    }
}

/// The packs in the order in which they are closed, from the time that this many are open.
pub open spec fn closing_order(open: usize) -> Seq<usize>
    decreases open,
{
    match next_to_close(open) {
        None => Seq::empty(),
        Some(pack) => seq![pack] + closing_order((open - 1) as usize),
    }
}

/// Every pack of a session is closed once, in the reverse of the order in which they were
/// bound, whether or not others fail.
pub proof fn packs_close_in_reverse(packs: usize)
    ensures
        closing_order(packs) == Seq::new(packs as nat, |k: int| (packs - 1 - k) as usize),
    decreases packs,
{
    if packs > 0 {
        packs_close_in_reverse((packs - 1) as usize);
    }
    assert(closing_order(packs) =~= Seq::new(packs as nat, |k: int| (packs - 1 - k) as usize));
}

/// A pack is bound exactly where its handlers are those of its manifest and someone still
/// waits for the session. What was built is taken down after every other end, except where
/// it went with the connection.
pub proof fn failed_bind_is_taken_down(
    manifest: PackManifest,
    outcome: PackOutcome,
    waiter_closed: bool,
)
    ensures
        ({
            let failure = bind_failure(manifest, outcome, waiter_closed);
            &&& failure is None <==> (outcome matches PackOutcome::Bound(Ok(handlers))
                && pack_handlers(manifest, handlers@) is Ok && !waiter_closed)
            &&& failure matches Some((rollback, error)) ==> {
                &&& rollback <==> !(outcome is Closed || outcome is Interrupted)
                &&& !rollback ==> error is ChannelClosed
                &&& outcome is Panicked ==> error is Internal
                &&& outcome matches PackOutcome::Failed(reason) ==> (error
                    matches ErrorView::Internal(message) && reason@.is_suffix_of(message))
                &&& outcome matches PackOutcome::Bound(Err(reason)) ==> error
                    == ErrorView::Internal(reason@)
                &&& outcome matches PackOutcome::Bound(Ok(handlers)) ==> match pack_handlers(
                    manifest,
                    handlers@,
                ) {
                    Err(refusal) => error == refusal,
                    Ok(_) => error is ChannelClosed,
                }
            }
        }),
{
}

/// A failure means its own error, and that what was built has to be taken down unless it
/// went with the connection.
pub proof fn failures_mean_their_error(error: SdkError)
    ensures
        PackBindFailure::Rollback(error).meaning() == (true, error@),
        PackBindFailure::ConnectionClosed(error).meaning() == (false, error@),
        PackBindFailure::WaiterDropped.meaning().0,
        PackBindFailure::WaiterDropped.meaning().1 is ChannelClosed,
        waiter_dropped() is ChannelClosed,
{
}

/// Bound tools are the declared ones, one for one and in their order: each with its own
/// handler, and described as it was declared in every part.
pub proof fn bound_tools_are_the_declared_ones(
    bound: Seq<BoundTool>,
    declared: Seq<DeclaredTool>,
    handlers: Seq<u64>,
    i: int,
)
    requires
        binds(bound, declared, handlers),
    ensures
        bound.len() == declared.len(),
        0 <= i < bound.len() ==> {
            &&& bound[i].handler == handlers[i]
            &&& bound[i].tool.name@ == declared[i].tool.name@
            &&& bound[i].tool.description@ == declared[i].tool.description@
            &&& bound[i].tool.parameters == declared[i].tool.parameters
            &&& bound[i].tool.supports_parallel == declared[i].tool.supports_parallel
            &&& bound[i].tool.require_approval == declared[i].tool.require_approval
        },
{
}

/// The first handler that cannot be read fails the pack as an internal error, and the first
/// one that repeats a name as a bad configuration.
pub proof fn unusable_handlers_are_told_apart(
    manifest: PackManifest,
    handlers: Seq<Option<BoundTool>>,
    i: int,
)
    requires
        0 <= i < handlers.len(),
        forall|j: int| 0 <= j < i ==> (#[trigger] handlers[j]) is Some,
        forall|j: int, k: int|
            0 <= j < k < i ==> (#[trigger] handlers[j])->0.tool.name@ != (
            #[trigger] handlers[k])->0.tool.name@,
    ensures
        handlers[i] is None ==> (pack_handlers(manifest, handlers) matches Err(error) && error
            is Internal),
        handlers[i] matches Some(bound) ==> (forall|j: int|
            0 <= j < i ==> (#[trigger] handlers[j])->0.tool.name@ != bound.tool.name@) || (
        pack_handlers(manifest, handlers) matches Err(error) && error is InvalidConfiguration),
{
    let property = |n: int| unusable(handlers, n);
    assert forall|k: int| 0 <= k < i implies !#[trigger] property(k) by {
        assert(handlers[k] is Some);
        assert forall|j: int| 0 <= j < k implies !#[trigger] handles(
            handlers[j],
            handlers[k]->0.tool.name@,
        ) by {
            assert(handlers[j]->0.tool.name@ != handlers[k]->0.tool.name@);
        }
    }
    if handlers[i] is None {
        lemma_first(handlers.len() as int, property, i);
    } else if exists|j: int|
        0 <= j < i && (#[trigger] handlers[j])->0.tool.name@ == handlers[i]->0.tool.name@ {
        let j = choose|j: int|
            0 <= j < i && (#[trigger] handlers[j])->0.tool.name@ == handlers[i]->0.tool.name@;
        assert(handles(handlers[j], handlers[i]->0.tool.name@));
        lemma_first(handlers.len() as int, property, i);
    }
}

/// Handlers that can all be read are refused, if at all, as a bad configuration.
pub proof fn other_handlers_are_a_bad_configuration(
    manifest: PackManifest,
    handlers: Seq<Option<BoundTool>>,
)
    requires
        forall|j: int| 0 <= j < handlers.len() ==> (#[trigger] handlers[j]) is Some,
    ensures
        pack_handlers(manifest, handlers) matches Err(error) ==> error is InvalidConfiguration,
        other_handlers(manifest.id@) is InvalidConfiguration,
{
    let property = |n: int| unusable(handlers, n);
    if first(handlers.len() as int, property) is Some {
        let i = first(handlers.len() as int, property)->0;
        assert(is_first(handlers.len() as int, property, i));
        assert(handlers[i] is Some);
    }
}

/// Where handlers can all be read, have names of their own and are like the first declared
/// tools, the next tool decides: one without a handler is refused otherwise than one whose
/// handler is described in another way.
pub proof fn differing_handler_is_not_a_missing_one(
    manifest: PackManifest,
    handlers: Seq<Option<BoundTool>>,
    places: Seq<int>,
    k: int,
    i: int,
)
    requires
        0 <= k < manifest.tools@.len(),
        forall|j: int| 0 <= j < handlers.len() ==> (#[trigger] handlers[j]) is Some,
        forall|j: int, l: int|
            0 <= j < l < handlers.len() ==> (#[trigger] handlers[j])->0.tool.name@ != (
            #[trigger] handlers[l])->0.tool.name@,
        declared_list(manifest.tools@).no_duplicates(),
        forall|j: int|
            0 <= j < k ==> 0 <= #[trigger] places[j] < handlers.len()
                && handlers[places[j]]->0.tool.matches(manifest.tools@[j].tool),
    ensures
        ({
            let wanted = manifest.tools@[k].tool;
            let refusal = pack_handlers(manifest, handlers);
            let head = "ToolPack "@ + manifest.id@;
            &&& 0 <= i < handlers.len() && handlers[i]->0.tool.name@ == wanted.name@
                && !handlers[i]->0.tool.matches(wanted) ==> refusal == Err::<Seq<u64>, ErrorView>(
                ErrorView::InvalidConfiguration(
                    head + " handler metadata does not match its frozen manifest"@,
                ),
            )
            &&& (forall|j: int|
                0 <= j < handlers.len() ==> (#[trigger] handlers[j])->0.tool.name@ != wanted.name@)
                ==> refusal == Err::<Seq<u64>, ErrorView>(
                ErrorView::InvalidConfiguration(
                    head + " handlers do not match its frozen manifest"@,
                ),
            )
        }),
{
    let declared = manifest.tools@;
    let names = declared_list(declared);
    let wanted = declared[k].tool;
    assert forall|n: int| 0 <= n < handlers.len() implies !#[trigger] unusable(handlers, n) by {
        assert(handlers[n] is Some);
        assert forall|j: int| 0 <= j < n implies !#[trigger] handles(
            handlers[j],
            handlers[n]->0.tool.name@,
        ) by {
            assert(handlers[j]->0.tool.name@ != handlers[n]->0.tool.name@);
        }
    }
    let faulty = |n: int| unusable(handlers, n);
    assert forall|n: int| !is_first(handlers.len() as int, faulty, n) by {
        if 0 <= n < handlers.len() {
            assert(!unusable(handlers, n));
        }
    }
    let missing = |j: int| unmatched(declared, handlers, j);
    assert forall|j: int| 0 <= j < k implies !#[trigger] missing(j) by {
        let name = declared[j].tool.name@;
        assert(handles(handlers[places[j]], name));
        lemma_one_place(handlers, place_of(handlers, name), places[j]);
        assert forall|l: int| 0 <= l < j implies #[trigger] declared[l].tool.name@ != name by {
            assert(names[l] != names[j]);
        }
    }
    assert forall|l: int| 0 <= l < k implies #[trigger] declared[l].tool.name@ != wanted.name@ by {
        assert(names[l] != names[k]);
    }
    if 0 <= i < handlers.len() && handlers[i]->0.tool.name@ == wanted.name@
        && !handlers[i]->0.tool.matches(wanted) {
        assert(handlers[i] is Some);
        assert(handles(handlers[i], wanted.name@));
        lemma_one_place(handlers, place_of(handlers, wanted.name@), i);
        assert(!unhandled(declared, handlers, k));
        lemma_first(declared.len() as int, missing, k);
    }
    if forall|j: int|
        0 <= j < handlers.len() ==> (#[trigger] handlers[j])->0.tool.name@ != wanted.name@ {
        assert forall|j: int| 0 <= j < handlers.len() implies !#[trigger] handles(
            handlers[j],
            wanted.name@,
        ) by {
            assert(handlers[j]->0.tool.name@ != wanted.name@);
        }
        assert(unhandled(declared, handlers, k));
        lemma_first(declared.len() as int, missing, k);
    }
}

} // verus!
