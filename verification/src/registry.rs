//! The registry: which nickname is reachable through which mailbox.

use dashmap::DashMap;
use std::collections::hash_map::RandomState;
use vstd::prelude::*;

verus! {

/// A mailbox is known to the registry by the number of its connection.
pub type MailboxId = u64;

/// `dashmap::DashMap`, the concurrent hash map that holds the entries.
#[verifier::external_type_specification]
#[verifier::external_body]
#[verifier::reject_recursive_types(K)]
#[verifier::reject_recursive_types(V)]
#[verifier::reject_recursive_types(S)]
pub struct ExDashMap<K, V, S>(DashMap<K, V, S>);

/// The registry in which nobody is registered.
pub open spec fn no_entries() -> Map<Seq<char>, MailboxId> {
    Map::empty()
}

/// Whether `names` lists every nickname of `entries` but `excluding` once, in
/// some order.
pub open spec fn is_roster(
    entries: Map<Seq<char>, MailboxId>,
    excluding: Seq<char>,
    names: Seq<Seq<char>>,
) -> bool {
    &&& names.no_duplicates()
    &&& forall|name: Seq<char>| #[trigger]
        names.contains(name) <==> entries.dom().contains(name) && name != excluding
}

/// What is left of `entries` once every nickname that leads to `mailbox` is
/// gone.
pub open spec fn without_mailbox(
    entries: Map<Seq<char>, MailboxId>,
    mailbox: MailboxId,
) -> Map<Seq<char>, MailboxId> {
    Map::new(
        |name: Seq<char>| entries.dom().contains(name) && entries[name] != mailbox,
        |name: Seq<char>| entries[name],
    )
}

/// The entries that a `DashMap` from nicknames to mailboxes holds. The
/// registry owns its map and hands it to nobody, so that the entries change
/// only where one of the functions below is given the map by `&mut`.
pub uninterp spec fn entries_of(map: DashMap<String, u64, RandomState>) -> Map<Seq<char>, u64>;

/// `DashMap::new`: a map without entries.
#[verifier::external_body]
fn dashmap_new() -> (fresh: DashMap<String, u64, RandomState>)
    ensures
        entries_of(fresh) == no_entries(),
{
    DashMap::new()
}

/// `DashMap::insert`: the key is bound to the value, whatever it was bound to
/// before, and every other entry stays. The value that the key had comes back.
/// The method may deadlock while a reference into the map is held; behind
/// `&mut` there is none.
#[verifier::external_body]
fn dashmap_insert(
    map: &mut DashMap<String, u64, RandomState>,
    key: String,
    value: u64,
) -> (previous: Option<u64>)
    ensures
        entries_of(*final(map)) == entries_of(*old(map)).insert(key@, value),
        previous == (if entries_of(*old(map)).dom().contains(key@) {
            Some(entries_of(*old(map))[key@])
        } else {
            None
        }),
{
    map.insert(key, value)
}

/// `DashMap::remove`: the key's entry leaves, if there was one, and every
/// other entry stays. The entry that left comes back. The method may deadlock
/// while a reference into the map is held; behind `&mut` there is none.
#[verifier::external_body]
fn dashmap_remove(
    map: &mut DashMap<String, u64, RandomState>,
    key: &str,
) -> (removed: Option<(String, u64)>)
    ensures
        entries_of(*final(map)) == entries_of(*old(map)).remove(key@),
        removed is Some == entries_of(*old(map)).dom().contains(key@),
        removed matches Some(entry) ==> entry.0@ == key@ && entry.1 == entries_of(
            *old(map),
        )[key@],
{
    map.remove(key)
}

/// `DashMap::get`, with the reference that it hands out turned into a copy
/// of the value: the value that the key is bound to, if it is bound.
#[verifier::external_body]
fn dashmap_get(map: &DashMap<String, u64, RandomState>, key: &str) -> (value: Option<u64>)
    ensures
        value == (if entries_of(*map).dom().contains(key@) {
            Some(entries_of(*map)[key@])
        } else {
            None
        }),
{
    map.get(key).map(|entry| *entry.value())
}

/// `DashMap::iter`, with each item turned into a copy of its key: every key
/// of the map once, in an order that the map chooses.
#[verifier::external_body]
fn dashmap_keys(map: &DashMap<String, u64, RandomState>) -> (keys: Vec<String>)
    ensures
        keys.deep_view().no_duplicates(),
        forall|key: Seq<char>| #[trigger]
            keys.deep_view().contains(key) <==> entries_of(*map).dom().contains(key),
{
    map.iter().map(|entry| entry.key().clone()).collect()
}

/// Whether `name` stands among the first `count` of `keys`.
spec fn among_first(keys: Seq<Seq<char>>, count: int, name: Seq<char>) -> bool {
    exists|m: int| 0 <= m < count && m < keys.len() && keys[m] == name
}

/// The nicknames of the peers that are present, each with its mailbox.
pub struct Registry {
    users: DashMap<String, u64, RandomState>,
}

impl View for Registry {
    type V = Map<Seq<char>, MailboxId>;

    closed spec fn view(&self) -> Map<Seq<char>, MailboxId> {
        entries_of(self.users)
    }
}

impl Registry {
    /// A registry in which nobody is registered.
    pub fn new() -> (registry: Registry)
        ensures
            registry@ == no_entries(),
    {
        Registry { users: dashmap_new() }
    }

    /// Makes `mailbox` the one that is reachable under `nickname`. A nickname
    /// that was taken is handed over without a word to its former holder.
    pub fn register(&mut self, nickname: String, mailbox: MailboxId)
        ensures
            final(self)@ == old(self)@.insert(nickname@, mailbox),
    {
        let _ = dashmap_insert(&mut self.users, nickname, mailbox);
    }

    /// Forgets `nickname`. Nothing happens when nobody holds it.
    pub fn unregister(&mut self, nickname: &str)
        ensures
            final(self)@ == old(self)@.remove(nickname@),
    {
        let _ = dashmap_remove(&mut self.users, nickname);
    }

    /// The mailbox that is reachable under `nickname`, if anyone holds it.
    pub fn lookup(&self, nickname: &str) -> (mailbox: Option<MailboxId>)
        ensures
            mailbox == (if self@.dom().contains(nickname@) {
                Some(self@[nickname@])
            } else {
                None
            }),
    {
        dashmap_get(&self.users, nickname)
    }

    /// The nicknames that are registered, but for `excluding`: each once, in
    /// no particular order.
    pub fn list(&self, excluding: &str) -> (names: Vec<String>)
        ensures
            is_roster(self@, excluding@, names.deep_view()),
    {
        let keys = dashmap_keys(&self.users);
        let except = excluding.to_owned();
        let mut names: Vec<String> = Vec::new();
        let ghost mut picked: Seq<int> = Seq::empty();
        let mut i: usize = 0;
        while i < keys.len()
            invariant
                i <= keys.len(),
                except@ == excluding@,
                picked.len() == names.len(),
                forall|j: int|
                    0 <= j < picked.len() ==> 0 <= #[trigger] picked[j] < i && names[j]@
                        == keys[picked[j]]@ && names[j]@ != excluding@,
                forall|j: int, k: int|
                    0 <= j < k < picked.len() ==> #[trigger] picked[j] < #[trigger] picked[k],
                forall|m: int|
                    0 <= m < i && #[trigger] keys[m]@ != excluding@ ==> picked.contains(m),
            decreases keys.len() - i,
        {
            if keys[i] != except {
                names.push(keys[i].clone());
                proof {
                    let before = picked;
                    picked = picked.push(i as int);
                    assert(picked[picked.len() - 1] == i);
                    assert forall|m: int| before.contains(m) implies picked.contains(m) by {
                        let j = choose|j: int| 0 <= j < before.len() && before[j] == m;
                        assert(picked[j] == m);
                    }
                }
            }
            i += 1;
        }
        proof {
            let shown = names.deep_view();
            let all = keys.deep_view();
            assert forall|a: int, b: int|
                0 <= a < shown.len() && 0 <= b < shown.len() && a != b implies shown[a]
                != shown[b] by {
                assert(all[picked[a]] == shown[a]);
                assert(all[picked[b]] == shown[b]);
                if a < b {
                    assert(picked[a] < picked[b]);
                } else {
                    assert(picked[b] < picked[a]);
                }
            }
            assert forall|name: Seq<char>| #[trigger]
                shown.contains(name) <==> self@.dom().contains(name) && name
                != excluding@ by {
                if shown.contains(name) {
                    let j = choose|j: int| 0 <= j < shown.len() && shown[j] == name;
                    assert(all[picked[j]] == name);
                    assert(all.contains(name));
                }
                if self@.dom().contains(name) && name != excluding@ {
                    assert(all.contains(name));
                    let m = choose|m: int| 0 <= m < all.len() && all[m] == name;
                    assert(keys[m]@ == name);
                    assert(picked.contains(m));
                    let j = choose|j: int| 0 <= j < picked.len() && picked[j] == m;
                    assert(shown[j] == name);
                }
            }
        }
        names
    }

    /// Forgets every nickname that leads to `mailbox`, as when its connection
    /// has ended. A nickname that another mailbox has taken over stays.
    pub fn release(&mut self, mailbox: MailboxId)
        ensures
            final(self)@ == without_mailbox(old(self)@, mailbox),
    {
        let keys = dashmap_keys(&self.users);
        let ghost before = self@;
        let ghost all = keys.deep_view();
        let mut i: usize = 0;
        while i < keys.len()
            invariant
                i <= keys.len(),
                all == keys.deep_view(),
                forall|name: Seq<char>| #[trigger]
                    all.contains(name) <==> before.dom().contains(name),
                forall|name: Seq<char>| #[trigger]
                    self@.dom().contains(name) <==> before.dom().contains(name) && !(before[name]
                        == mailbox && among_first(all, i as int, name)),
                forall|name: Seq<char>| #[trigger]
                    self@.dom().contains(name) ==> self@[name] == before[name],
            decreases keys.len() - i,
        {
            let ghost key = keys[i as int]@;
            assert(all[i as int] == key);
            let holder = dashmap_get(&self.users, keys[i].as_str());
            let mut leaves = false;
            if let Some(held) = holder {
                leaves = held == mailbox;
            }
            let ghost current = self@;
            if leaves {
                let _ = dashmap_remove(&mut self.users, keys[i].as_str());
            }
            proof {
                assert forall|name: Seq<char>| #[trigger]
                    self@.dom().contains(name) <==> before.dom().contains(name) && !(before[name]
                        == mailbox && among_first(all, i + 1, name)) by {
                    if among_first(all, i as int, name) {
                        let m = choose|m: int| 0 <= m < i && m < all.len() && all[m] == name;
                        assert(among_first(all, i + 1, name));
                    }
                    if among_first(all, i + 1, name) && !among_first(all, i as int, name) {
                        let m = choose|m: int| 0 <= m < i + 1 && m < all.len() && all[m] == name;
                        assert(m == i);
                        assert(name == key);
                    }
                    if name == key {
                        assert(among_first(all, i + 1, name));
                    }
                }
            }
            i += 1;
        }
        proof {
            assert forall|name: Seq<char>| before.dom().contains(name) implies among_first(
                all,
                i as int,
                name,
            ) by {
                assert(all.contains(name));
                let m = choose|m: int| 0 <= m < all.len() && all[m] == name;
                assert(0 <= m < i && m < all.len() && all[m] == name);
            }
            assert(self@ =~= without_mailbox(before, mailbox));
        }
    }
}

} // verus!
