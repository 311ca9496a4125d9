//! The routing table: an immutable-once-built mapping from tenant key to
//! deployment descriptor. Its mathematical value is a `Map` from the key to
//! the descriptor; when the rows handed to [`RoutingTable::build`] repeat a
//! key, the last row wins, exactly as inserting the rows in order into a map.

use vstd::prelude::*;

use crate::models::{DeploymentView, ProxyDeployment};

verus! {

/// The map described by a sequence of store rows: each row inserted in order,
/// keyed by its subdomain, so a later row overrides an earlier one.
pub open spec fn entries_map(s: Seq<ProxyDeployment>) -> Map<Seq<char>, DeploymentView>
    decreases s.len(),
{
    if s.len() == 0 {
        Map::empty()
    } else {
        entries_map(s.drop_last()).insert(s.last()@.subdomain, s.last()@)
    }
}

/// A key with no matching row is absent from the described map.
proof fn lemma_entries_map_no_match(s: Seq<ProxyDeployment>, k: Seq<char>)
    requires
        forall|j: int| 0 <= j < s.len() ==> s[j]@.subdomain != k,
    ensures
        !entries_map(s).contains_key(k),
    decreases s.len(),
{
    if s.len() > 0 {
        lemma_entries_map_no_match(s.drop_last(), k);
    }
}

/// The described map holds, for a key, exactly the last row carrying it.
proof fn lemma_entries_map_last_match(s: Seq<ProxyDeployment>, k: Seq<char>, i: int)
    requires
        0 <= i < s.len(),
        s[i]@.subdomain == k,
        forall|j: int| i < j < s.len() ==> s[j]@.subdomain != k,
    ensures
        entries_map(s).contains_key(k),
        entries_map(s)[k] == s[i]@,
    decreases s.len(),
{
    if i == s.len() - 1 {
    } else {
        lemma_entries_map_last_match(s.drop_last(), k, i);
    }
}

/// The concurrent-read side of the proxy: a snapshot of all tenant mappings.
/// Built fully off to the side and swapped in whole, never patched in place.
pub struct RoutingTable {
    entries: Vec<ProxyDeployment>,
}

impl View for RoutingTable {
    type V = Map<Seq<char>, DeploymentView>;

    closed spec fn view(&self) -> Map<Seq<char>, DeploymentView> {
        entries_map(self.entries@)
    }
}

impl RoutingTable {
    /// How many store rows this snapshot was built from (duplicates included),
    /// the count the loader reports.
    pub closed spec fn row_count(&self) -> nat {
        self.entries@.len()
    }

    /// An empty table: no key resolves.
    pub fn new() -> (t: Self)
        ensures
            t@ == Map::<Seq<char>, DeploymentView>::empty(),
            t.row_count() == 0,
    {
        RoutingTable { entries: Vec::new() }
    }

    /// Builds a snapshot from the rows the store returned. The table's map is
    /// exactly the rows inserted in order: on a repeated key the last row wins.
    pub fn build(rows: Vec<ProxyDeployment>) -> (t: Self)
        ensures
            t@ == entries_map(rows@),
            t.row_count() == rows@.len(),
    {
        RoutingTable { entries: rows }
    }

    /// The number of rows the snapshot was built from.
    pub fn len(&self) -> (n: usize)
        ensures
            n == self.row_count(),
    {
        self.entries.len()
    }

    /// Resolves a tenant key in this snapshot: the current entry for the key,
    /// or absence. Non-blocking; reads nothing but this snapshot.
    pub fn lookup(&self, key: &str) -> (r: Option<&ProxyDeployment>)
        ensures
            match r {
                Some(d) => self@.contains_key(key@) && d@ == self@[key@],
                None => !self@.contains_key(key@),
            },
    {
        let ghost s = self.entries@;
        let mut i: usize = self.entries.len();
        loop
            invariant
                0 <= i <= s.len(),
                s == self.entries@,
                forall|j: int| i <= j < s.len() ==> s[j]@.subdomain != key@,
            decreases i,
        {
            if i == 0 {
                proof {
                    lemma_entries_map_no_match(s, key@);
                }
                return None;
            }
            i = i - 1;
            if crate::strutil::str_eq(self.entries[i].subdomain.as_str(), key) {
                proof {
                    lemma_entries_map_last_match(s, key@, i as int);
                }
                return Some(&self.entries[i]);
            }
        }
    }
}

} // verus!
