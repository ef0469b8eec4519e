//! The concurrent maps that hold routes, and what they hold.
//!
//! Every table is a `dashmap::DashMap`. A value that only the host can hold (a
//! reply channel, an event hub, a tool) is represented by the number under which
//! the host finds it again; two numbers are equal exactly when they stand for the
//! same object.

use dashmap::DashMap;
use vstd::prelude::*;

use crate::sessions::SessionLifecycle;
use crate::text::same_text;

verus! {

/// `dashmap::DashMap`, a map that several threads may share.
#[verifier::external_type_specification]
#[verifier::external_body]
#[verifier::reject_recursive_types(K)]
#[verifier::reject_recursive_types(V)]
#[verifier::reject_recursive_types(S)]
pub struct ExDashMap<K, V, S>(dashmap::DashMap<K, V, S>);

/// What a table from names to host objects holds.
pub uninterp spec fn handles(table: dashmap::DashMap<String, u64>) -> Map<Seq<char>, u64>;

/// What a table from names to names holds.
pub uninterp spec fn links(table: dashmap::DashMap<String, String>) -> Map<Seq<char>, Seq<char>>;

/// What a table from pairs of names to host objects holds.
pub uninterp spec fn bindings(table: dashmap::DashMap<(String, String), u64>) -> Map<
    (Seq<char>, Seq<char>),
    u64,
>;

/// What the table of sessions holds.
pub uninterp spec fn lifecycles(table: dashmap::DashMap<String, SessionLifecycle>) -> Map<
    Seq<char>,
    SessionLifecycle,
>;

/// The empty table of host objects.
pub open spec fn no_handles() -> Map<Seq<char>, u64> {
    Map::empty()
}

/// The empty table of names.
pub open spec fn no_links() -> Map<Seq<char>, Seq<char>> {
    Map::empty()
}

/// The empty table of session bindings.
pub open spec fn no_bindings() -> Map<(Seq<char>, Seq<char>), u64> {
    Map::empty()
}

/// The empty table of sessions.
pub open spec fn no_lifecycles() -> Map<Seq<char>, SessionLifecycle> {
    Map::empty()
}

/// The text of an optional string.
pub open spec fn opt_text(text: Option<String>) -> Option<Seq<char>> {
    match text {
        Some(text) => Some(text@),
        None => None,
    }
}

/// `listed` holds each key of `map` exactly once, in any order, with its value.
pub open spec fn enumerates<K, V>(listed: Seq<(K, V)>, map: Map<K, V>) -> bool {
    &&& forall|i: int| 0 <= i < listed.len() ==> map.contains_pair((#[trigger] listed[i]).0, listed[i].1)
    &&& forall|k: K| #[trigger]
        map.contains_key(k) ==> exists|i: int| 0 <= i < listed.len() && (#[trigger] listed[i]).0 == k
    &&& forall|i: int, j: int|
        0 <= i < j < listed.len() ==> (#[trigger] listed[i]).0 != (#[trigger] listed[j]).0
}

/// The entries of a table of host objects, by their text.
pub open spec fn handle_views(listed: Seq<(String, u64)>) -> Seq<(Seq<char>, u64)> {
    listed.map_values(|entry: (String, u64)| (entry.0@, entry.1))
}

/// The entries of a table of names, by their text.
pub open spec fn link_views(listed: Seq<(String, String)>) -> Seq<(Seq<char>, Seq<char>)> {
    listed.map_values(|entry: (String, String)| (entry.0@, entry.1@))
}

/// The entries of a table of pairs of names, by their text.
pub open spec fn binding_views(listed: Seq<((String, String), u64)>) -> Seq<
    ((Seq<char>, Seq<char>), u64),
> {
    listed.map_values(|entry: ((String, String), u64)| ((entry.0.0@, entry.0.1@), entry.1))
}

/// The entries of the table of sessions, by their text.
pub open spec fn lifecycle_views(listed: Seq<(String, SessionLifecycle)>) -> Seq<
    (Seq<char>, SessionLifecycle),
> {
    listed.map_values(|entry: (String, SessionLifecycle)| (entry.0@, entry.1))
}

/// `DashMap::new`: the new table of host objects is empty.
#[verifier::external_body]
pub(crate) fn new_handles() -> (table: DashMap<String, u64>)
    ensures
        handles(table) == no_handles(),
{
    DashMap::new()
}

/// `DashMap::insert` on a table of host objects: the key now has the value; the value
/// that it had is returned.
#[verifier::external_body]
pub(crate) fn insert_handle(
    table: &mut DashMap<String, u64>,
    key: String,
    value: u64,
) -> (previous: Option<u64>)
    ensures
        handles(*final(table)) == handles(*old(table)).insert(key@, value),
        previous == handles(*old(table)).get(key@),
{
    table.insert(key, value)
}

/// `DashMap::remove` on a table of host objects: the key is gone; the value that it had
/// is returned.
#[verifier::external_body]
pub(crate) fn remove_handle(
    table: &mut DashMap<String, u64>,
    key: &str,
) -> (previous: Option<u64>)
    ensures
        handles(*final(table)) == handles(*old(table)).remove(key@),
        previous == handles(*old(table)).get(key@),
{
    table.remove(key).map(|entry| entry.1)
}

/// `DashMap::get` on a table of host objects: the value of the key, copied out.
#[verifier::external_body]
pub(crate) fn get_handle(
    table: &DashMap<String, u64>,
    key: &str,
) -> (value: Option<u64>)
    ensures
        value == handles(*table).get(key@),
{
    table.get(key).map(|entry| *entry.value())
}

/// `DashMap::clear` on a table of host objects: the table is empty.
#[verifier::external_body]
pub(crate) fn clear_handles(table: &mut DashMap<String, u64>)
    ensures
        handles(*final(table)) == no_handles(),
{
    table.clear()
}

/// `DashMap::iter` on a table of host objects: every entry once, copied out, in the order
/// in which the map is walked, which is left open.
#[verifier::external_body]
pub(crate) fn list_handles(
    table: &DashMap<String, u64>,
) -> (listed: Vec<(String, u64)>)
    ensures
        enumerates(handle_views(listed@), handles(*table)),
{
    table.iter().map(|entry| (entry.key().clone(), *entry.value())).collect()
}

/// `DashMap::new`: the new table of names is empty.
#[verifier::external_body]
pub(crate) fn new_links() -> (table: DashMap<String, String>)
    ensures
        links(table) == no_links(),
{
    DashMap::new()
}

/// `DashMap::insert` on a table of names: the key now has the value; the value
/// that it had is returned.
#[verifier::external_body]
pub(crate) fn insert_link(
    table: &mut DashMap<String, String>,
    key: String,
    value: String,
) -> (previous: Option<String>)
    ensures
        links(*final(table)) == links(*old(table)).insert(key@, value@),
        opt_text(previous) == links(*old(table)).get(key@),
{
    table.insert(key, value)
}

/// `DashMap::remove` on a table of names: the key is gone; the value that it had
/// is returned.
#[verifier::external_body]
pub(crate) fn remove_link(
    table: &mut DashMap<String, String>,
    key: &str,
) -> (previous: Option<String>)
    ensures
        links(*final(table)) == links(*old(table)).remove(key@),
        opt_text(previous) == links(*old(table)).get(key@),
{
    table.remove(key).map(|entry| entry.1)
}

/// `DashMap::get` on a table of names: the value of the key, copied out.
#[verifier::external_body]
pub(crate) fn get_link(
    table: &DashMap<String, String>,
    key: &str,
) -> (value: Option<String>)
    ensures
        opt_text(value) == links(*table).get(key@),
{
    table.get(key).map(|entry| entry.value().clone())
}

/// `DashMap::clear` on a table of names: the table is empty.
#[verifier::external_body]
pub(crate) fn clear_links(table: &mut DashMap<String, String>)
    ensures
        links(*final(table)) == no_links(),
{
    table.clear()
}

/// `DashMap::iter` on a table of names: every entry once, copied out, in the order
/// in which the map is walked, which is left open.
#[verifier::external_body]
pub(crate) fn list_links(
    table: &DashMap<String, String>,
) -> (listed: Vec<(String, String)>)
    ensures
        enumerates(link_views(listed@), links(*table)),
{
    table.iter().map(|entry| (entry.key().clone(), entry.value().clone())).collect()
}

/// `DashMap::new`: the new table of session bindings is empty.
#[verifier::external_body]
pub(crate) fn new_bindings() -> (table: DashMap<(String, String), u64>)
    ensures
        bindings(table) == no_bindings(),
{
    DashMap::new()
}

/// `DashMap::insert` on a table of session bindings: the key now has the value; the value
/// that it had is returned.
#[verifier::external_body]
pub(crate) fn insert_binding(
    table: &mut DashMap<(String, String), u64>,
    session: &str,
    name: &str,
    value: u64,
) -> (previous: Option<u64>)
    ensures
        bindings(*final(table)) == bindings(*old(table)).insert((session@, name@), value),
        previous == bindings(*old(table)).get((session@, name@)),
{
    table.insert((session.to_owned(), name.to_owned()), value)
}

/// `DashMap::remove` on a table of session bindings: the key is gone; the value that it had
/// is returned.
#[verifier::external_body]
pub(crate) fn remove_binding(
    table: &mut DashMap<(String, String), u64>,
    session: &str,
    name: &str,
) -> (previous: Option<u64>)
    ensures
        bindings(*final(table)) == bindings(*old(table)).remove((session@, name@)),
        previous == bindings(*old(table)).get((session@, name@)),
{
    table.remove(&(session.to_owned(), name.to_owned())).map(|entry| entry.1)
}

/// `DashMap::get` on a table of session bindings: the value of the key, copied out.
#[verifier::external_body]
pub(crate) fn get_binding(
    table: &DashMap<(String, String), u64>,
    session: &str,
    name: &str,
) -> (value: Option<u64>)
    ensures
        value == bindings(*table).get((session@, name@)),
{
    table.get(&(session.to_owned(), name.to_owned())).map(|entry| *entry.value())
}

/// `DashMap::clear` on a table of session bindings: the table is empty.
#[verifier::external_body]
pub(crate) fn clear_bindings(table: &mut DashMap<(String, String), u64>)
    ensures
        bindings(*final(table)) == no_bindings(),
{
    table.clear()
}

/// `DashMap::iter` on a table of session bindings: every entry once, copied out, in the order
/// in which the map is walked, which is left open.
#[verifier::external_body]
pub(crate) fn list_bindings(
    table: &DashMap<(String, String), u64>,
) -> (listed: Vec<((String, String), u64)>)
    ensures
        enumerates(binding_views(listed@), bindings(*table)),
{
    table.iter().map(|entry| (entry.key().clone(), *entry.value())).collect()
}

/// `DashMap::new`: the new table of sessions is empty.
#[verifier::external_body]
pub(crate) fn new_lifecycles() -> (table: DashMap<String, SessionLifecycle>)
    ensures
        lifecycles(table) == no_lifecycles(),
{
    DashMap::new()
}

/// `DashMap::insert` on a table of sessions: the key now has the value; the value
/// that it had is returned.
#[verifier::external_body]
pub(crate) fn insert_lifecycle(
    table: &mut DashMap<String, SessionLifecycle>,
    key: String,
    value: SessionLifecycle,
) -> (previous: Option<SessionLifecycle>)
    ensures
        lifecycles(*final(table)) == lifecycles(*old(table)).insert(key@, value),
        previous == lifecycles(*old(table)).get(key@),
{
    table.insert(key, value)
}

/// `DashMap::remove` on a table of sessions: the key is gone; the value that it had
/// is returned.
#[verifier::external_body]
pub(crate) fn remove_lifecycle(
    table: &mut DashMap<String, SessionLifecycle>,
    key: &str,
) -> (previous: Option<SessionLifecycle>)
    ensures
        lifecycles(*final(table)) == lifecycles(*old(table)).remove(key@),
        previous == lifecycles(*old(table)).get(key@),
{
    table.remove(key).map(|entry| entry.1)
}

/// `DashMap::get` on a table of sessions: the value of the key, copied out.
#[verifier::external_body]
pub(crate) fn get_lifecycle(
    table: &DashMap<String, SessionLifecycle>,
    key: &str,
) -> (value: Option<SessionLifecycle>)
    ensures
        value == lifecycles(*table).get(key@),
{
    table.get(key).map(|entry| *entry.value())
}

/// `DashMap::iter` on a table of sessions: every entry once, copied out, in the order
/// in which the map is walked, which is left open.
#[verifier::external_body]
pub(crate) fn list_lifecycles(
    table: &DashMap<String, SessionLifecycle>,
) -> (listed: Vec<(String, SessionLifecycle)>)
    ensures
        enumerates(lifecycle_views(listed@), lifecycles(*table)),
{
    table.iter().map(|entry| (entry.key().clone(), *entry.value())).collect()
}

/// A table of session bindings without those of `session`.
pub open spec fn bindings_without(
    table: Map<(Seq<char>, Seq<char>), u64>,
    session: Seq<char>,
) -> Map<(Seq<char>, Seq<char>), u64> {
    Map::new(
        |key: (Seq<char>, Seq<char>)| table.contains_key(key) && key.0 != session,
        |key: (Seq<char>, Seq<char>)| table[key],
    )
}

/// A table of names without the entries that lead to `target`.
pub open spec fn links_without(table: Map<Seq<char>, Seq<char>>, target: Seq<char>) -> Map<
    Seq<char>,
    Seq<char>,
> {
    Map::new(
        |key: Seq<char>| table.contains_key(key) && table[key] != target,
        |key: Seq<char>| table[key],
    )
}

/// A table of names without the keys that `other` lacks.
pub open spec fn links_within(
    table: Map<Seq<char>, Seq<char>>,
    other: Map<Seq<char>, Seq<char>>,
) -> Map<Seq<char>, Seq<char>> {
    Map::new(
        |key: Seq<char>| table.contains_key(key) && other.contains_key(key),
        |key: Seq<char>| table[key],
    )
}

/// The host objects whose names `owners` leads to `owner`.
pub open spec fn handles_of(
    table: Map<Seq<char>, u64>,
    owners: Map<Seq<char>, Seq<char>>,
    owner: Seq<char>,
) -> Map<Seq<char>, u64> {
    Map::new(
        |key: Seq<char>| table.contains_key(key) && owners.contains_pair(key, owner),
        |key: Seq<char>| table[key],
    )
}

/// The other host objects.
pub open spec fn handles_not_of(
    table: Map<Seq<char>, u64>,
    owners: Map<Seq<char>, Seq<char>>,
    owner: Seq<char>,
) -> Map<Seq<char>, u64> {
    Map::new(
        |key: Seq<char>| table.contains_key(key) && !owners.contains_pair(key, owner),
        |key: Seq<char>| table[key],
    )
}

/// The table without the first `n` keys of a listing that leave it.
spec fn dropped<K, V, W>(
    table: Map<K, V>,
    listed: Seq<(K, W)>,
    n: int,
    leaves: spec_fn(K) -> bool,
) -> Map<K, V> {
    Map::new(
        |key: K|
            table.contains_key(key) && !(leaves(key) && exists|j: int|
                0 <= j < n && (#[trigger] listed[j]).0 == key),
        |key: K| table[key],
    )
}

proof fn lemma_drop_step<K, V, W>(
    table: Map<K, V>,
    listed: Seq<(K, W)>,
    n: int,
    leaves: spec_fn(K) -> bool,
)
    requires
        0 <= n < listed.len(),
    ensures
        dropped(table, listed, n + 1, leaves) == if leaves(listed[n].0) {
            dropped(table, listed, n, leaves).remove(listed[n].0)
        } else {
            dropped(table, listed, n, leaves)
        },
{
    let before = dropped(table, listed, n, leaves);
    let after = dropped(table, listed, n + 1, leaves);
    let expected = if leaves(listed[n].0) {
        before.remove(listed[n].0)
    } else {
        before
    };
    assert forall|key: K| #[trigger] after.contains_key(key) == expected.contains_key(key) by {
        let was = exists|j: int| 0 <= j < n && (#[trigger] listed[j]).0 == key;
        let is = exists|j: int| 0 <= j < n + 1 && (#[trigger] listed[j]).0 == key;
        if is && !was {
            assert(listed[n].0 == key);
        }
        if listed[n].0 == key {
            assert(is);
        }
    }
    assert(after =~= expected);
}

proof fn lemma_drop_all<K, V, W>(
    table: Map<K, V>,
    listed: Seq<(K, W)>,
    leaves: spec_fn(K) -> bool,
)
    requires
        forall|key: K| #[trigger]
            table.contains_key(key) && leaves(key) ==> exists|j: int|
                0 <= j < listed.len() && (#[trigger] listed[j]).0 == key,
    ensures
        dropped(table, listed, listed.len() as int, leaves) == Map::new(
            |key: K| table.contains_key(key) && !leaves(key),
            |key: K| table[key],
        ),
{
    let rest = Map::new(|key: K| table.contains_key(key) && !leaves(key), |key: K| table[key]);
    let after = dropped(table, listed, listed.len() as int, leaves);
    assert forall|key: K| #[trigger] after.contains_key(key) == rest.contains_key(key) by {}
    assert(after =~= rest);
}

/// Drops the bindings of a session.
pub(crate) fn drop_session_bindings(table: &mut DashMap<(String, String), u64>, session: &str)
    ensures
        bindings(*final(table)) == bindings_without(bindings(*old(table)), session@),
{
    let ghost before = bindings(*table);
    let ghost leaves = |key: (Seq<char>, Seq<char>)| key.0 == session@;
    let listed = list_bindings(table);
    let ghost views = binding_views(listed@);
    let mut i: usize = 0;
    assert(bindings(*table) =~= dropped(before, views, 0, leaves));
    while i < listed.len()
        invariant
            i <= listed.len(),
            views == binding_views(listed@),
            leaves == (|key: (Seq<char>, Seq<char>)| key.0 == session@),
            enumerates(views, before),
            bindings(*table) == dropped(before, views, i as int, leaves),
        decreases listed.len() - i,
    {
        let entry = &listed[i];
        assert(views[i as int] == ((entry.0.0@, entry.0.1@), entry.1));
        if same_text(entry.0.0.as_str(), session) {
            remove_binding(table, entry.0.0.as_str(), entry.0.1.as_str());
        }
        proof {
            lemma_drop_step(before, views, i as int, leaves);
        }
        i = i + 1;
    }
    proof {
        lemma_drop_all(before, views, leaves);
        assert(bindings(*table) =~= bindings_without(before, session@));
    }
}

/// Drops the entries that lead to `target`.
pub(crate) fn drop_links_to(table: &mut DashMap<String, String>, target: &str)
    ensures
        links(*final(table)) == links_without(links(*old(table)), target@),
{
    let ghost before = links(*table);
    let ghost leaves = |key: Seq<char>| before[key] == target@;
    let listed = list_links(table);
    let ghost views = link_views(listed@);
    let mut i: usize = 0;
    assert(links(*table) =~= dropped(before, views, 0, leaves));
    while i < listed.len()
        invariant
            i <= listed.len(),
            views == link_views(listed@),
            leaves == (|key: Seq<char>| before[key] == target@),
            enumerates(views, before),
            links(*table) == dropped(before, views, i as int, leaves),
        decreases listed.len() - i,
    {
        let entry = &listed[i];
        assert(views[i as int] == (entry.0@, entry.1@));
        if same_text(entry.1.as_str(), target) {
            remove_link(table, entry.0.as_str());
        }
        proof {
            lemma_drop_step(before, views, i as int, leaves);
        }
        i = i + 1;
    }
    proof {
        lemma_drop_all(before, views, leaves);
        assert(links(*table) =~= links_without(before, target@));
    }
}

/// Drops the keys that `other` lacks.
pub(crate) fn drop_links_outside(
    table: &mut DashMap<String, String>,
    other: &DashMap<String, String>,
)
    ensures
        links(*final(table)) == links_within(links(*old(table)), links(*other)),
{
    let ghost before = links(*table);
    let ghost leaves = |key: Seq<char>| !links(*other).contains_key(key);
    let listed = list_links(table);
    let ghost views = link_views(listed@);
    let mut i: usize = 0;
    assert(links(*table) =~= dropped(before, views, 0, leaves));
    while i < listed.len()
        invariant
            i <= listed.len(),
            views == link_views(listed@),
            leaves == (|key: Seq<char>| !links(*other).contains_key(key)),
            enumerates(views, before),
            links(*table) == dropped(before, views, i as int, leaves),
        decreases listed.len() - i,
    {
        let entry = &listed[i];
        assert(views[i as int] == (entry.0@, entry.1@));
        if get_link(other, entry.0.as_str()).is_none() {
            remove_link(table, entry.0.as_str());
        }
        proof {
            lemma_drop_step(before, views, i as int, leaves);
        }
        i = i + 1;
    }
    proof {
        lemma_drop_all(before, views, leaves);
        assert(links(*table) =~= links_within(before, links(*other)));
    }
}

/// Takes the host objects of `owner` out of `table`, and their names out of
/// `owners`.
pub(crate) fn take_handles_of(
    table: &mut DashMap<String, u64>,
    owners: &mut DashMap<String, String>,
    owner: &str,
) -> (taken: Vec<(String, u64)>)
    ensures
        handles(*final(table)) == handles_not_of(
            handles(*old(table)),
            links(*old(owners)),
            owner@,
        ),
        links(*final(owners)) == links_without(links(*old(owners)), owner@),
        enumerates(
            handle_views(taken@),
            handles_of(handles(*old(table)), links(*old(owners)), owner@),
        ),
{
    let ghost before = handles(*table);
    let ghost owned = links(*owners);
    let ghost leaves = |key: Seq<char>| owned.contains_pair(key, owner@);
    let taken = list_handles_of(table, owners, owner);
    let ghost views = handle_views(taken@);
    let mut i: usize = 0;
    assert(handles(*table) =~= dropped(before, views, 0, leaves));
    while i < taken.len()
        invariant
            i <= taken.len(),
            views == handle_views(taken@),
            leaves == (|key: Seq<char>| owned.contains_pair(key, owner@)),
            enumerates(views, handles_of(before, owned, owner@)),
            handles(*table) == dropped(before, views, i as int, leaves),
        decreases taken.len() - i,
    {
        let entry = &taken[i];
        assert(views[i as int] == (entry.0@, entry.1));
        remove_handle(table, entry.0.as_str());
        proof {
            lemma_drop_step(before, views, i as int, leaves);
        }
        i = i + 1;
    }
    proof {
        assert forall|key: Seq<char>| #[trigger] before.contains_key(key) && leaves(
            key,
        ) implies exists|j: int| 0 <= j < views.len() && (#[trigger] views[j]).0 == key by {
            assert(handles_of(before, owned, owner@).contains_key(key));
        }
        lemma_drop_all(before, views, leaves);
        assert(handles(*table) =~= handles_not_of(before, owned, owner@));
    }
    drop_links_to(owners, owner);
    taken
}

/// The bindings of `session`.
pub open spec fn bindings_of(
    table: Map<(Seq<char>, Seq<char>), u64>,
    session: Seq<char>,
) -> Map<(Seq<char>, Seq<char>), u64> {
    Map::new(
        |key: (Seq<char>, Seq<char>)| table.contains_key(key) && key.0 == session,
        |key: (Seq<char>, Seq<char>)| table[key],
    )
}

/// Lists the host objects of `owner`.
pub(crate) fn list_handles_of(
    table: &DashMap<String, u64>,
    owners: &DashMap<String, String>,
    owner: &str,
) -> (found: Vec<(String, u64)>)
    ensures
        enumerates(
            handle_views(found@),
            handles_of(handles(*table), links(*owners), owner@),
        ),
{
    let ghost held = handles(*table);
    let ghost owned = links(*owners);
    let ghost wanted = handles_of(held, owned, owner@);
    let listed = list_handles(table);
    let ghost views = handle_views(listed@);
    let mut found: Vec<(String, u64)> = Vec::new();
    let mut i: usize = 0;
    while i < listed.len()
        invariant
            i <= listed.len(),
            views == handle_views(listed@),
            held == handles(*table),
            owned == links(*owners),
            wanted == handles_of(held, owned, owner@),
            enumerates(views, held),
            picks(handle_views(found@), views, i as int, wanted),
        decreases listed.len() - i,
    {
        let ghost before = handle_views(found@);
        let entry = &listed[i];
        assert(views[i as int] == (entry.0@, entry.1));
        let keep = match get_link(owners, entry.0.as_str()) {
            Some(link) => same_text(link.as_str(), owner),
            None => false,
        };
        assert(keep == wanted.contains_key(views[i as int].0));
        if keep {
            found.push((entry.0.clone(), entry.1));
            assert(handle_views(found@) =~= before.push(views[i as int]));
        }
        proof {
            lemma_picks_step(before, views, i as int, wanted);
        }
        i = i + 1;
    }
    proof {
        lemma_picks_all(handle_views(found@), views, held, wanted);
    }
    found
}

/// Lists the bindings of a session.
pub(crate) fn list_session_bindings(
    table: &DashMap<(String, String), u64>,
    session: &str,
) -> (found: Vec<((String, String), u64)>)
    ensures
        enumerates(binding_views(found@), bindings_of(bindings(*table), session@)),
{
    let ghost held = bindings(*table);
    let ghost wanted = bindings_of(held, session@);
    let listed = list_bindings(table);
    let ghost views = binding_views(listed@);
    let mut found: Vec<((String, String), u64)> = Vec::new();
    let mut i: usize = 0;
    while i < listed.len()
        invariant
            i <= listed.len(),
            views == binding_views(listed@),
            held == bindings(*table),
            wanted == bindings_of(held, session@),
            enumerates(views, held),
            picks(binding_views(found@), views, i as int, wanted),
        decreases listed.len() - i,
    {
        let ghost before = binding_views(found@);
        let entry = &listed[i];
        assert(views[i as int] == ((entry.0.0@, entry.0.1@), entry.1));
        if same_text(entry.0.0.as_str(), session) {
            found.push(((entry.0.0.clone(), entry.0.1.clone()), entry.1));
            assert(binding_views(found@) =~= before.push(views[i as int]));
        }
        proof {
            lemma_picks_step(before, views, i as int, wanted);
        }
        i = i + 1;
    }
    proof {
        lemma_picks_all(binding_views(found@), views, held, wanted);
    }
    found
}

/// `entry` is one of the first `n` entries of `listed`.
spec fn among<K, V>(entry: (K, V), listed: Seq<(K, V)>, n: int) -> bool {
    exists|j: int| 0 <= j < n && (#[trigger] listed[j]) == entry
}

/// `found` holds those of the first `n` entries of `listed` that `wanted` knows.
spec fn picks<K, V>(
    found: Seq<(K, V)>,
    listed: Seq<(K, V)>,
    n: int,
    wanted: Map<K, V>,
) -> bool {
    &&& 0 <= n <= listed.len()
    &&& forall|entry: (K, V)| #[trigger]
        among(entry, found, found.len() as int) == (among(entry, listed, n)
            && wanted.contains_key(entry.0))
    &&& forall|k: int, l: int|
        0 <= k < l < found.len() ==> (#[trigger] found[k]).0 != (#[trigger] found[l]).0
}

proof fn lemma_picks_step<K, V>(
    found: Seq<(K, V)>,
    listed: Seq<(K, V)>,
    n: int,
    wanted: Map<K, V>,
)
    requires
        picks(found, listed, n, wanted),
        n < listed.len(),
        forall|j: int, k: int|
            0 <= j < k < listed.len() ==> (#[trigger] listed[j]).0 != (#[trigger] listed[k]).0,
    ensures
        picks(
            if wanted.contains_key(listed[n].0) {
                found.push(listed[n])
            } else {
                found
            },
            listed,
            n + 1,
            wanted,
        ),
{
    let keep = wanted.contains_key(listed[n].0);
    let next = if keep {
        found.push(listed[n])
    } else {
        found
    };
    assert forall|entry: (K, V)| #[trigger]
        among(entry, next, next.len() as int) == (among(entry, listed, n + 1)
            && wanted.contains_key(entry.0)) by {
        assert(among(entry, listed, n + 1) == (among(entry, listed, n) || listed[n] == entry));
        assert(among(entry, next, next.len() as int) == (among(entry, found, found.len() as int)
            || keep && listed[n] == entry)) by {
            if among(entry, found, found.len() as int) {
                let k = choose|k: int| 0 <= k < found.len() && (#[trigger] found[k]) == entry;
                assert(next[k] == entry);
            }
            if keep && listed[n] == entry {
                assert(next[found.len() as int] == entry);
            }
            if among(entry, next, next.len() as int) {
                let k = choose|k: int| 0 <= k < next.len() && (#[trigger] next[k]) == entry;
                if k < found.len() {
                    assert(found[k] == entry);
                }
            }
        }
    }
    assert forall|k: int, l: int| 0 <= k < l < next.len() implies (#[trigger] next[k]).0 != (
    #[trigger] next[l]).0 by {
        assert(next[k] == found[k]);
        if l < found.len() {
            assert(next[l] == found[l]);
        } else {
            assert(among(found[k], found, found.len() as int));
            assert(among(found[k], listed, n));
            let j = choose|j: int| 0 <= j < n && (#[trigger] listed[j]) == found[k];
            assert(listed[j].0 != listed[n].0);
        }
    }
}

proof fn lemma_picks_all<K, V>(
    found: Seq<(K, V)>,
    listed: Seq<(K, V)>,
    held: Map<K, V>,
    wanted: Map<K, V>,
)
    requires
        picks(found, listed, listed.len() as int, wanted),
        enumerates(listed, held),
        forall|key: K| #[trigger]
            wanted.contains_key(key) ==> held.contains_key(key) && wanted[key] == held[key],
    ensures
        enumerates(found, wanted),
{
    assert forall|k: int| 0 <= k < found.len() implies wanted.contains_pair(
        (#[trigger] found[k]).0,
        found[k].1,
    ) by {
        assert(among(found[k], found, found.len() as int));
        let j = choose|j: int| 0 <= j < listed.len() && (#[trigger] listed[j]) == found[k];
        assert(held.contains_pair(listed[j].0, listed[j].1));
    }
    assert forall|key: K| #[trigger] wanted.contains_key(key) implies exists|k: int|
        0 <= k < found.len() && (#[trigger] found[k]).0 == key by {
        assert(held.contains_key(key));
        let j = choose|j: int| 0 <= j < listed.len() && (#[trigger] listed[j]).0 == key;
        assert(among(listed[j], listed, listed.len() as int));
        assert(among(listed[j], found, found.len() as int));
        let k = choose|k: int| 0 <= k < found.len() && (#[trigger] found[k]) == listed[j];
        assert(found[k].0 == key);
    }
}

/// A table of session bindings falls into those of a session and the others: every entry is
/// in exactly one part, with its value.
pub proof fn bindings_fall_apart_by_session(
    table: Map<(Seq<char>, Seq<char>), u64>,
    session: Seq<char>,
    owner: Seq<char>,
    name: Seq<char>,
)
    ensures
        owner == session ==> {
            &&& !bindings_without(table, session).contains_key((owner, name))
            &&& bindings_of(table, session).get((owner, name)) == table.get((owner, name))
        },
        owner != session ==> {
            &&& !bindings_of(table, session).contains_key((owner, name))
            &&& bindings_without(table, session).get((owner, name)) == table.get((owner, name))
        },
{
}

/// The host objects fall into those of an owner and the others: every one is in exactly one
/// part, and what has no owner is with the others.
pub proof fn handles_fall_apart_by_owner(
    table: Map<Seq<char>, u64>,
    owners: Map<Seq<char>, Seq<char>>,
    owner: Seq<char>,
    key: Seq<char>,
)
    ensures
        owners.get(key) == Some(owner) ==> {
            &&& handles_of(table, owners, owner).get(key) == table.get(key)
            &&& !handles_not_of(table, owners, owner).contains_key(key)
        },
        owners.get(key) != Some(owner) ==> {
            &&& handles_not_of(table, owners, owner).get(key) == table.get(key)
            &&& !handles_of(table, owners, owner).contains_key(key)
        },
{
}

/// Links to a target go, and all others stay as they are; links that another table lacks go,
/// and all others stay as they are.
pub proof fn links_go_by_target_and_by_key(
    table: Map<Seq<char>, Seq<char>>,
    target: Seq<char>,
    other: Map<Seq<char>, Seq<char>>,
    key: Seq<char>,
)
    ensures
        table.get(key) == Some(target) ==> !links_without(table, target).contains_key(key),
        table.get(key) != Some(target) ==> links_without(table, target).get(key) == table.get(key),
        other.contains_key(key) ==> links_within(table, other).get(key) == table.get(key),
        !other.contains_key(key) ==> !links_within(table, other).contains_key(key),
{
}

/// A listing that holds each entry of a table once has nothing that the table lacks, lacks
/// nothing that it has, and names no key twice.
pub proof fn listing_is_complete<K, V>(listed: Seq<(K, V)>, map: Map<K, V>, key: K, i: int, j: int)
    requires
        enumerates(listed, map),
        0 <= i < listed.len(),
        0 <= j < listed.len(),
    ensures
        map.get(listed[i].0) == Some(listed[i].1),
        map.contains_key(key) ==> exists|n: int|
            0 <= n < listed.len() && #[trigger] listed[n] == (key, map[key]),
        i != j ==> listed[i].0 != listed[j].0,
{
    if map.contains_key(key) {
        let n = choose|n: int| 0 <= n < listed.len() && (#[trigger] listed[n]).0 == key;
        assert(map.contains_pair(listed[n].0, listed[n].1));
        assert(listed[n] == (key, map[key]));
    }
}

/// The entries of a listing are read by their texts, one by one and in order.
pub proof fn entries_are_read_by_their_texts(
    named: Seq<(String, u64)>,
    linked: Seq<(String, String)>,
    bound: Seq<((String, String), u64)>,
    known: Seq<(String, SessionLifecycle)>,
    i: int,
)
    requires
        0 <= i,
    ensures
        handle_views(named).len() == named.len(),
        link_views(linked).len() == linked.len(),
        binding_views(bound).len() == bound.len(),
        lifecycle_views(known).len() == known.len(),
        i < named.len() ==> handle_views(named)[i] == (named[i].0@, named[i].1),
        i < linked.len() ==> link_views(linked)[i] == (linked[i].0@, linked[i].1@),
        i < bound.len() ==> binding_views(bound)[i] == ((bound[i].0.0@, bound[i].0.1@), bound[i].1),
        i < known.len() ==> lifecycle_views(known)[i] == (known[i].0@, known[i].1),
{
}

/// The text of an optional string is there exactly where the string is.
pub proof fn optional_text_is_kept(text: Option<String>)
    ensures
        text is None <==> opt_text(text) is None,
        text matches Some(string) ==> opt_text(text) == Some(string@),
{
}

} // verus!
