//! Session-to-client maps held in a `dashmap::DashMap<u64, String>`: which
//! client (transport connection) each session's events go to.
use vstd::prelude::*;

verus! {

#[verifier::external_type_specification]
#[verifier::external_body]
#[verifier::reject_recursive_types(K)]
#[verifier::reject_recursive_types(V)]
#[verifier::reject_recursive_types(S)]
pub struct ExDashMap<K, V, S>(dashmap::DashMap<K, V, S>);

/// A map from session id to client id.
pub type ClientMap = dashmap::DashMap<u64, String>;

/// What a session-to-client map holds: client id text by session id.
pub uninterp spec fn client_map_contents(m: ClientMap) -> Map<u64, Seq<char>>;

/// No entries.
pub open spec fn no_clients() -> Map<u64, Seq<char>> {
    Map::empty()
}

/// An empty map.
///
/// Calls `dashmap::DashMap::new`, which makes a map with no entries.
#[verifier::external_body]
pub(crate) fn client_map_new() -> (r: ClientMap)
    ensures
        client_map_contents(r) == no_clients(),
{
    dashmap::DashMap::new()
}

/// Stores `v` under `k`.
///
/// Calls `dashmap::DashMap::insert`, which replaces the value of an existing
/// key and adds an entry otherwise; no other entry changes.
#[verifier::external_body]
pub(crate) fn client_map_insert(m: &mut ClientMap, k: u64, v: String)
    ensures
        client_map_contents(*final(m)) == client_map_contents(*old(m)).insert(k, v@),
{
    m.insert(k, v);
}

/// The value stored under `k`, if any.
///
/// Calls `dashmap::DashMap::get` and clones the value the guard points at;
/// the map does not change.
#[verifier::external_body]
pub(crate) fn client_map_get(m: &ClientMap, k: u64) -> (r: Option<String>)
    ensures
        match r {
            Some(v) => client_map_contents(*m).contains_key(k) && client_map_contents(*m)[k] == v@,
            None => !client_map_contents(*m).contains_key(k),
        },
{
    m.get(&k).map(|e| e.value().clone())
}

/// Removes the entry of `k`, returning its value.
///
/// Calls `dashmap::DashMap::remove`, which takes out the entry with key `k`
/// if there is one and returns it; no other entry changes.
#[verifier::external_body]
pub(crate) fn client_map_remove(m: &mut ClientMap, k: u64) -> (r: Option<String>)
    ensures
        client_map_contents(*final(m)) == client_map_contents(*old(m)).remove(k),
        match r {
            Some(v) => client_map_contents(*old(m)).contains_key(k) && client_map_contents(*old(m))[k] == v@,
            None => !client_map_contents(*old(m)).contains_key(k),
        },
{
    m.remove(&k).map(|(_, v)| v)
}

/// The number of entries.
///
/// Calls `dashmap::DashMap::len`, the sum of its shards' entry counts.
#[verifier::external_body]
pub(crate) fn client_map_len(m: &ClientMap) -> (n: usize)
    ensures
        n == client_map_contents(*m).dom().len(),
{
    m.len()
}

} // verus!
