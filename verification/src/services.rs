//! The service layer between the cycle driver and the provider gateway:
//! turns a fetched listing into the cycle's record snapshot, routes an
//! operation to a create or an update by the presence of its id, and maps
//! gateway failures into the service's own error.

use vstd::prelude::*;
use crate::cloudflare::{listing_views, Record, RecordV};
use crate::dns_record::{DnsRecord, DnsRecordV};
use crate::snapshot::{snapshot_map_of, RecordSnapshot};

verus! {

/// Error reported when resolving the IP, fetching records or applying an
/// operation fails.
#[derive(Debug)]
pub struct Error {
    pub message: String,
}

impl Error {
    pub fn new(message: String) -> (r: Self)
        ensures
            r.message@ == message@,
    {
        Self { message }
    }
}

/// The address record a listing entry stands for: its id, name and content.
pub open spec fn dns_view_of(r: RecordV) -> DnsRecordV {
    DnsRecordV { id: r.id, name: r.name, content: r.content }
}

/// The address records a listing stands for, in order.
pub open spec fn dns_views_of_listing(s: Seq<RecordV>) -> Seq<DnsRecordV> {
    s.map_values(|r: RecordV| dns_view_of(r))
}

/// Builds the cycle's snapshot from the listed address records: each is
/// keyed by its name, and of several records under one name the last one
/// listed survives.
pub fn build_snapshot(records: &Vec<Record>) -> (snap: RecordSnapshot)
    ensures
        snap.wf(),
        snap@ == snapshot_map_of(dns_views_of_listing(listing_views(records@))),
{
    let ghost t = dns_views_of_listing(listing_views(records@));
    let mut snap = RecordSnapshot::new();
    let n: usize = records.len();
    let mut i: usize = 0;
    while i < n
        invariant
            i <= n,
            n == records.len(),
            t == dns_views_of_listing(listing_views(records@)),
            snap.wf(),
            snap@ == snapshot_map_of(t.take(i as int)),
        decreases n - i,
    {
        let entry = DnsRecord::from(records[i].clone());
        proof {
            assert(entry@ == t[i as int]);
        }
        snap.insert(entry);
        proof {
            assert(t.take(i + 1 as int).drop_last() =~= t.take(i as int));
            assert(t.take(i + 1 as int).last() == t[i as int]);
        }
        i += 1;
    }
    proof {
        assert(t.take(n as int) =~= t);
    }
    snap
}

/// Turns the gateway's listing result into the cycle's snapshot: a gateway
/// failure aborts the fetch with the service's error, a listing becomes
/// the snapshot.
pub fn snapshot_outcome(fetched: Result<Vec<Record>, crate::cloudflare::Error>) -> (r: Result<
    RecordSnapshot,
    Error,
>)
    ensures
        fetched is Err ==> (r matches Err(e) && e.message@ == "Failed to fetch domain records"@),
        fetched matches Ok(records) ==> (r matches Ok(snap) && snap.wf() && snap@
            == snapshot_map_of(dns_views_of_listing(listing_views(records@)))),
{
    match fetched {
        Ok(records) => Ok(build_snapshot(&records)),
        Err(_) => Err(Error::new("Failed to fetch domain records".to_owned())),
    }
}

/// The HTTP exchange one operation calls for.
pub enum ApplyRoute {
    /// The record exists remotely: update it, addressed by its id.
    Update { id: String },
    /// No remote record yet: create one.
    Create,
}

/// Routes an operation: an update addressed by the record's id when it
/// has one, a create otherwise.
pub fn apply_route(record: &DnsRecord) -> (r: ApplyRoute)
    ensures
        record@.id matches Some(id) ==> (r matches ApplyRoute::Update { id: i } && i@ == id),
        record@.id is None ==> r is Create,
{
    match &record.id {
        Some(id) => ApplyRoute::Update { id: id.clone() },
        None => ApplyRoute::Create,
    }
}

/// Maps the gateway's create-or-update result: success passes through, a
/// gateway failure becomes the service's error.
pub fn ensure_outcome(applied: Result<(), crate::cloudflare::Error>) -> (r: Result<(), Error>)
    ensures
        applied is Ok <==> r is Ok,
        applied is Err ==> (r matches Err(e) && e.message@ == "Failed to update record"@),
{
    match applied {
        Ok(_) => Ok(()),
        Err(_) => Err(Error::new("Failed to update record".to_owned())),
    }
}

} // verus!
