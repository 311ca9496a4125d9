//! The shared holder of the routing table: one writer (the loader) and many
//! concurrent readers (the dispatchers), mediated by a verified
//! reader-writer lock. The table is only ever replaced wholesale — built
//! fully off to the side, then swapped in as the holder's sole contents — so
//! a reader borrows one whole snapshot and can never observe a mapping that
//! is partially the old and partially the new table.

use vstd::prelude::*;
use vstd::rwlock::{RwLock, RwLockPredicate};

use crate::dispatch::{plan_request, planned, ForwardPlan};
use crate::errors::ProxyError;
use crate::headers::{views_of, Header};
use crate::models::{DeploymentView, ProxyDeployment};
use crate::table::RoutingTable;

verus! {

/// The slot invariant of the holder: every routing table is a valid content;
/// the holder's guarantees are structural (whole-snapshot reads and
/// whole-table swaps), not content restrictions.
pub struct TableSlot;

impl RwLockPredicate<RoutingTable> for TableSlot {
    open spec fn inv(self, v: RoutingTable) -> bool {
        true
    }
}

/// The concurrency-safe holder: created empty, populated by the loader before
/// traffic is served, replaced wholesale on every reload.
pub struct TableHolder {
    slot: RwLock<RoutingTable, TableSlot>,
}

impl TableHolder {
    /// A holder with the empty table: no key resolves until the first load.
    pub fn new() -> (h: Self) {
        TableHolder { slot: RwLock::new(RoutingTable::new(), Ghost(TableSlot)) }
    }

    /// Resolves a key against the snapshot current at the moment of the call:
    /// the entry of one whole table version, or its absence from that version.
    /// Non-blocking relative to other readers; the lock is held only for the
    /// lookup itself, never across network work.
    pub fn lookup(&self, key: &str) -> (r: Option<ProxyDeployment>) {
        let handle = self.slot.acquire_read();
        let r = match handle.borrow().lookup(key) {
            Some(d) => Some(d.clone()),
            None => None,
        };
        handle.release_read();
        r
    }

    /// Builds a fresh table from the store's rows, fully off to the side, then
    /// atomically swaps it in as the holder's sole contents. Always succeeds;
    /// returns the row count for the loader's report.
    pub fn replace(&self, rows: Vec<ProxyDeployment>) -> (n: usize)
        ensures
            n == rows@.len(),
    {
        let fresh = RoutingTable::build(rows);
        let n = fresh.len();
        let (_previous, write_handle) = self.slot.acquire_write();
        write_handle.release_write(fresh);
        n
    }

    /// Plans one request against the snapshot current at the moment of the
    /// call: the whole dispatch pipeline short of the network, run under a
    /// read handle that is released before any network work can start. The
    /// result is the pipeline's verdict against one single table version —
    /// never a mixture of an old and a new table.
    pub fn plan_against_current(&self, path_and_query: &str, headers: Vec<Header>) -> (r: Result<
        ForwardPlan,
        ProxyError,
    >)
        ensures
            exists|m: Map<Seq<char>, DeploymentView>|
                planned(path_and_query@, m, views_of(headers@), r),
    {
        let handle = self.slot.acquire_read();
        let ghost snapshot = handle.view()@;
        let r = plan_request(path_and_query, handle.borrow(), headers);
        handle.release_read();
        proof {
            assert(planned(path_and_query@, snapshot, views_of(headers@), r));
        }
        r
    }

    /// The loader's application step: a successful store query replaces the
    /// table wholesale and reports how many rows were applied; a failed query
    /// touches nothing — the previous mapping stays authoritative — and
    /// reports nothing. The error text is left to the caller to log.
    pub fn apply_load_result(&self, rows: Result<Vec<ProxyDeployment>, String>) -> (n: Option<
        usize,
    >)
        ensures
            rows matches Ok(v) ==> n matches Some(c) && c == v@.len(),
            rows is Err ==> n is None,
    {
        match rows {
            Ok(v) => Some(self.replace(v)),
            Err(_) => None,
        }
    }
}

} // verus!
