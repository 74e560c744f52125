//! The connection registry: one live adapter per connection id, the
//! decisions taken around connecting (tunnel, startup commands), and the
//! messages for missing connections.

use vstd::prelude::*;

use crate::statements::{statements_from_pieces, statements_of};
use crate::text::{push_str, split_char, split_on, str_eq, trim};
use crate::types::{ConnectionConfig, SshConfig};

verus! {

broadcast use vstd::string::group_string_axioms;

// ---------------------------------------------------------------------------
// A table keyed by connection id
// ---------------------------------------------------------------------------

/// The map an entry list describes: each key to the value of its entry.
pub open spec fn entries_map<V>(entries: Seq<(String, V)>) -> Map<Seq<char>, V>
    decreases entries.len(),
{
    if entries.len() == 0 {
        Map::empty()
    } else {
        entries_map(entries.drop_last()).insert(entries.last().0@, entries.last().1)
    }
}

/// No key occurs twice.
pub open spec fn keys_unique<V>(entries: Seq<(String, V)>) -> bool {
    forall|i: int, j: int|
        0 <= i < entries.len() && 0 <= j < entries.len() && i != j ==> #[trigger] entries[i].0@
            != #[trigger] entries[j].0@
}

proof fn lemma_entries_map_dom<V>(entries: Seq<(String, V)>)
    ensures
        forall|k: Seq<char>|
            #[trigger] entries_map(entries).contains_key(k) <==> exists|i: int|
                0 <= i < entries.len() && entries[i].0@ == k,
    decreases entries.len(),
{
    if entries.len() > 0 {
        let init = entries.drop_last();
        lemma_entries_map_dom(init);
        assert forall|k: Seq<char>| #[trigger]
            entries_map(entries).contains_key(k) <==> exists|i: int|
                0 <= i < entries.len() && entries[i].0@ == k by {
            if entries_map(entries).contains_key(k) {
                if k == entries.last().0@ {
                    assert(entries[entries.len() - 1].0@ == k);
                } else {
                    assert(entries_map(init).contains_key(k));
                    let i = choose|i: int| 0 <= i < init.len() && init[i].0@ == k;
                    assert(init[i] == entries[i]);
                    assert(entries[i].0@ == k);
                }
            }
            if exists|i: int| 0 <= i < entries.len() && entries[i].0@ == k {
                let i = choose|i: int| 0 <= i < entries.len() && entries[i].0@ == k;
                if i < init.len() {
                    assert(init[i].0@ == k);
                    assert(entries_map(init).contains_key(k));
                }
            }
        }
    }
}

proof fn lemma_entries_map_value<V>(entries: Seq<(String, V)>, i: int)
    requires
        keys_unique(entries),
        0 <= i < entries.len(),
    ensures
        entries_map(entries).contains_key(entries[i].0@),
        entries_map(entries)[entries[i].0@] == entries[i].1,
    decreases entries.len(),
{
    let init = entries.drop_last();
    if i < entries.len() - 1 {
        assert(keys_unique(init)) by {
            assert forall|a: int, b: int|
                0 <= a < init.len() && 0 <= b < init.len() && a != b implies #[trigger] init[a].0@
                != #[trigger] init[b].0@ by {
                assert(init[a] == entries[a]);
                assert(init[b] == entries[b]);
            }
        }
        lemma_entries_map_value(init, i);
        assert(entries[i] == init[i]);
        assert(entries[i].0@ != entries[entries.len() - 1].0@);
    }
}

proof fn lemma_entries_map_remove<V>(entries: Seq<(String, V)>, j: int)
    requires
        keys_unique(entries),
        0 <= j < entries.len(),
    ensures
        entries_map(entries.remove(j)) =~= entries_map(entries).remove(entries[j].0@),
        keys_unique(entries.remove(j)),
    decreases entries.len(),
{
    let rest = entries.remove(j);
    let k = entries[j].0@;
    assert(keys_unique(rest)) by {
        assert forall|a: int, b: int|
            0 <= a < rest.len() && 0 <= b < rest.len() && a != b implies #[trigger] rest[a].0@
            != #[trigger] rest[b].0@ by {
            let a2 = if a < j {
                a
            } else {
                a + 1
            };
            let b2 = if b < j {
                b
            } else {
                b + 1
            };
            assert(rest[a] == entries[a2]);
            assert(rest[b] == entries[b2]);
        }
    }
    lemma_entries_map_dom(rest);
    lemma_entries_map_dom(entries);
    assert forall|key: Seq<char>| #[trigger]
        entries_map(rest).contains_key(key) <==> entries_map(entries).remove(k).contains_key(
            key,
        ) by {
        if entries_map(rest).contains_key(key) {
            let i = choose|i: int| 0 <= i < rest.len() && rest[i].0@ == key;
            let i2 = if i < j {
                i
            } else {
                i + 1
            };
            assert(rest[i] == entries[i2]);
            assert(entries[i2].0@ == key);
        }
        if entries_map(entries).remove(k).contains_key(key) {
            let i = choose|i: int| 0 <= i < entries.len() && entries[i].0@ == key;
            assert(i != j);
            let i2 = if i < j {
                i
            } else {
                i - 1
            };
            assert(rest[i2] == entries[i]);
        }
    }
    assert forall|key: Seq<char>| #[trigger]
        entries_map(rest).contains_key(key) implies entries_map(rest)[key]
        == entries_map(entries)[key] by {
        let i = choose|i: int| 0 <= i < rest.len() && rest[i].0@ == key;
        let i2 = if i < j {
            i
        } else {
            i + 1
        };
        assert(rest[i] == entries[i2]);
        lemma_entries_map_value(rest, i);
        lemma_entries_map_value(entries, i2);
    }
}

/// Entries keyed by connection id, each id at most once.
pub struct KeyedTable<V> {
    entries: Vec<(String, V)>,
}

impl<V> KeyedTable<V> {
    /// The table as a map from id to value.
    pub closed spec fn view(&self) -> Map<Seq<char>, V> {
        entries_map(self.entries@)
    }

    #[verifier::type_invariant]
    closed spec fn wf(&self) -> bool {
        keys_unique(self.entries@)
    }

    /// An empty table.
    pub fn new() -> (r: KeyedTable<V>)
        ensures
            r.view() == Map::<Seq<char>, V>::empty(),
    {
        KeyedTable { entries: Vec::new() }
    }

    /// The position of `key`.
    fn position(&self, key: &str) -> (r: Option<usize>)
        ensures
            match r {
                Some(i) => i < self.entries@.len() && self.entries@[i as int].0@ == key@,
                None => forall|i: int|
                    0 <= i < self.entries@.len() ==> self.entries@[i].0@ != key@,
            },
    {
        let mut i: usize = 0;
        while i < self.entries.len()
            invariant
                i <= self.entries@.len(),
                forall|k: int| 0 <= k < i ==> self.entries@[k].0@ != key@,
            decreases self.entries@.len() - i,
        {
            if str_eq(self.entries[i].0.as_str(), key) {
                return Some(i);
            }
            i = i + 1;
        }
        None
    }

    /// Whether `key` has an entry.
    pub fn contains(&self, key: &str) -> (r: bool)
        ensures
            r == self.view().contains_key(key@),
    {
        proof {
            lemma_entries_map_dom(self.entries@);
        }
        match self.position(key) {
            Some(i) => true,
            None => false,
        }
    }

    /// The value of `key`, if any.
    pub fn get(&self, key: &str) -> (r: Option<&V>)
        ensures
            match r {
                Some(v) => self.view().contains_key(key@) && self.view()[key@] == *v,
                None => !self.view().contains_key(key@),
            },
    {
        proof {
            use_type_invariant(self);
            lemma_entries_map_dom(self.entries@);
        }
        match self.position(key) {
            Some(i) => {
                proof {
                    lemma_entries_map_value(self.entries@, i as int);
                }
                Some(&self.entries[i].1)
            },
            None => None,
        }
    }

    /// Removes and returns the value of `key`; the others stay.
    pub fn remove(&mut self, key: &str) -> (r: Option<V>)
        ensures
            final(self).view() == old(self).view().remove(key@),
            match r {
                Some(v) => old(self).view().contains_key(key@) && old(self).view()[key@] == v,
                None => !old(self).view().contains_key(key@),
            },
    {
        proof {
            use_type_invariant(&*self);
            lemma_entries_map_dom(self.entries@);
        }
        match self.position(key) {
            Some(i) => {
                proof {
                    lemma_entries_map_value(self.entries@, i as int);
                    lemma_entries_map_remove(self.entries@, i as int);
                }
                let mut entries: Vec<(String, V)> = Vec::new();
                std::mem::swap(&mut entries, &mut self.entries);
                let (_, v) = entries.remove(i);
                self.entries = entries;
                Some(v)
            },
            None => {
                assert(self.view().remove(key@) =~= self.view());
                None
            },
        }
    }

    /// Sets the value of `key`, replacing any earlier one; the others stay.
    pub fn insert(&mut self, key: String, value: V)
        ensures
            final(self).view() == old(self).view().insert(key@, value),
    {
        let _ = self.remove(key.as_str());
        proof {
            use_type_invariant(&*self);
            lemma_entries_map_dom(self.entries@);
        }
        let ghost before = self.entries@;
        let ghost k = key@;
        assert forall|i: int| 0 <= i < before.len() implies before[i].0@ != k by {
            if before[i].0@ == k {
                assert(entries_map(before).contains_key(k));
            }
        }
        let mut entries: Vec<(String, V)> = Vec::new();
        std::mem::swap(&mut entries, &mut self.entries);
        entries.push((key, value));
        proof {
            let after = entries@;
            assert(after.drop_last() =~= before);
        }
        self.entries = entries;
    }
}

/// A keyed table reads back what was last stored under a key, reads
/// nothing under a removed key, and storing or removing under one key
/// leaves every other key's entry as it was.
pub proof fn law_keyed_table_reads_back<V>(entries: Map<Seq<char>, V>, key: Seq<char>, other: Seq<char>, value: V)
    requires
        other != key,
    ensures
        entries.insert(key, value).contains_key(key),
        entries.insert(key, value)[key] == value,
        !entries.remove(key).contains_key(key),
        entries.insert(key, value).contains_key(other) == entries.contains_key(other),
        entries.remove(key).contains_key(other) == entries.contains_key(other),
        entries.contains_key(other) ==> entries.insert(key, value)[other] == entries[other]
            && entries.remove(key)[other] == entries[other],
{
}

// ---------------------------------------------------------------------------
// The registry
// ---------------------------------------------------------------------------

/// `No active connection: <id>`.
pub open spec fn not_connected_message(id: Seq<char>) -> Seq<char> {
    "No active connection: "@ + id
}

/// `Connection not found: <id>`.
pub open spec fn not_found_message(id: Seq<char>) -> Seq<char> {
    "Connection not found: "@ + id
}

/// The message for a lookup of a connection that is not connected.
pub fn not_connected(id: &str) -> (r: String)
    ensures
        r@ == not_connected_message(id@),
{
    let mut out = String::from_str("No active connection: ");
    push_str(&mut out, id);
    out
}

/// The message for a connection id with no stored connection.
pub fn connection_not_found(id: &str) -> (r: String)
    ensures
        r@ == not_found_message(id@),
{
    let mut out = String::from_str("Connection not found: ");
    push_str(&mut out, id);
    out
}

/// The live adapters, one per connection id.
pub struct Registry<A> {
    pub adapters: KeyedTable<A>,
}

impl<A> Registry<A> {
    /// A registry with nothing connected.
    pub fn new() -> (r: Registry<A>)
        ensures
            r.adapters.view() == Map::<Seq<char>, A>::empty(),
    {
        Registry { adapters: KeyedTable::new() }
    }

    /// Whether `id` is connected.
    pub fn is_connected(&self, id: &str) -> (r: bool)
        ensures
            r == self.adapters.view().contains_key(id@),
    {
        self.adapters.contains(id)
    }

    /// The adapter of a connected id, or `No active connection: <id>`.
    pub fn adapter(&self, id: &str) -> (r: Result<&A, String>)
        ensures
            match r {
                Ok(a) => self.adapters.view().contains_key(id@) && self.adapters.view()[id@] == *a,
                Err(e) => !self.adapters.view().contains_key(id@) && e@ == not_connected_message(
                    id@,
                ),
            },
    {
        match self.adapters.get(id) {
            Some(a) => Ok(a),
            None => Err(not_connected(id)),
        }
    }

    /// The adapter of the active connection: `No active connection` when no
    /// connection is active, otherwise as [`Registry::adapter`] for its id.
    pub fn active_adapter(&self, active: Option<&str>) -> (r: Result<&A, String>)
        ensures
            match active {
                None => r matches Err(e) && e@ == "No active connection"@,
                Some(id) => match r {
                    Ok(a) => self.adapters.view().contains_key(id@) && self.adapters.view()[id@]
                        == *a,
                    Err(e) => !self.adapters.view().contains_key(id@) && e@
                        == not_connected_message(id@),
                },
            },
    {
        match active {
            Some(id) => self.adapter(id),
            None => Err(String::from_str("No active connection")),
        }
    }

    /// Records the adapter of a freshly connected id.
    pub fn register(&mut self, id: String, adapter: A)
        ensures
            final(self).adapters.view() == old(self).adapters.view().insert(id@, adapter),
    {
        self.adapters.insert(id, adapter);
    }

    /// Drops the adapter of `id` and hands it back, if it was connected.
    pub fn unregister(&mut self, id: &str) -> (r: Option<A>)
        ensures
            final(self).adapters.view() == old(self).adapters.view().remove(id@),
            match r {
                Some(a) => old(self).adapters.view().contains_key(id@) && old(
                    self,
                ).adapters.view()[id@] == a,
                None => !old(self).adapters.view().contains_key(id@),
            },
    {
        self.adapters.remove(id)
    }
}

// ---------------------------------------------------------------------------
// Connecting
// ---------------------------------------------------------------------------

/// A connection goes through an SSH tunnel when it is not SQLite and has
/// SSH settings that are enabled.
pub open spec fn tunnel_wanted(c: ConnectionConfig) -> bool {
    c.kind@ != "sqlite"@ && match c.ssh {
        Some(s) => s.enabled,
        None => false,
    }
}

/// Whether connecting opens an SSH tunnel first.
pub fn wants_tunnel(config: &ConnectionConfig) -> (r: bool)
    ensures
        r == tunnel_wanted(*config),
{
    if str_eq(config.kind.as_str(), "sqlite") {
        return false;
    }
    match &config.ssh {
        Some(s) => s.enabled,
        None => false,
    }
}

/// The startup commands: one per line, trimmed, blank lines dropped.
pub open spec fn startup_lines(text: Seq<char>) -> Seq<Seq<char>> {
    statements_of(split_on(text, '\n'))
}

/// The startup commands run after connecting: the non-blank lines of the
/// text, trimmed, in order.
pub fn startup_commands(text: &str) -> (r: Vec<String>)
    ensures
        r@.map_values(|s: String| s@) == startup_lines(text@),
        forall|i: int|
            0 <= i < r@.len() ==> (#[trigger] r@[i])@.len() > 0 && trim(r@[i]@) == r@[i]@,
{
    let pieces = split_char(text, '\n');
    assert(pieces@.map_values(|s: String| s@) =~= split_on(text@, '\n'));
    statements_from_pieces(pieces)
}

/// The settings a tunnelled connection connects with: the tunnel's local
/// end, `127.0.0.1` and the local port, in place of the server's address.
pub fn through_tunnel(config: &ConnectionConfig, local_port: u16) -> (r: ConnectionConfig)
    ensures
        r == (ConnectionConfig { host: r.host, port: local_port, ..*config }),
        r.host@ == "127.0.0.1"@,
{
    let mut c = config.clone();
    c.host = String::from_str("127.0.0.1");
    c.port = local_port;
    c
}

} // verus!
