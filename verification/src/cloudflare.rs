//! Provider gateway for a Cloudflare-style DNS API: the record types the
//! listing returns, the client settings, and the pure response handling
//! (URL construction, status gating, filtering to address records). The
//! HTTP exchanges themselves happen outside the library; every decision
//! about their results is made here.

use vstd::prelude::*;
use vstd::string::StringExecFns;

verus! {

/// Error returned by the gateway when a listing or mutation exchange fails.
#[derive(Debug)]
pub struct Error {
    pub message: String,
}

impl Error {
    pub fn new(message: String) -> (r: Self)
        ensures
            r.message@ == message@,
    {
        Self { message }
    }
}

/// One DNS record as the provider lists it.
#[derive(Debug)]
pub struct Record {
    pub id: Option<String>,
    pub name: String,
    pub type_field: String,
    pub content: String,
    pub proxied: bool,
    pub ttl: Option<u64>,
}

/// Mathematical value of a [`Record`]: every string as a sequence of
/// characters.
pub struct RecordV {
    pub id: Option<Seq<char>>,
    pub name: Seq<char>,
    pub type_field: Seq<char>,
    pub content: Seq<char>,
    pub proxied: bool,
    pub ttl: Option<u64>,
}

/// View of an optional owned string as an optional character sequence.
pub open spec fn opt_view(o: Option<String>) -> Option<Seq<char>> {
    match o {
        Some(s) => Some(s@),
        None => None,
    }
}

impl View for Record {
    type V = RecordV;

    open spec fn view(&self) -> RecordV {
        RecordV {
            id: opt_view(self.id),
            name: self.name@,
            type_field: self.type_field@,
            content: self.content@,
            proxied: self.proxied,
            ttl: self.ttl,
        }
    }
}

impl Clone for Record {
    fn clone(&self) -> (r: Self)
        ensures
            r == *self,
    {
        Record {
            id: crate::dns_record::clone_opt_string(&self.id),
            name: self.name.clone(),
            type_field: self.type_field.clone(),
            content: self.content.clone(),
            proxied: self.proxied,
            ttl: self.ttl,
        }
    }
}

/// Pagination block of a listing response.
#[derive(Debug)]
pub struct ResultInfo {
    pub page: i64,
    pub per_page: i64,
    pub count: i64,
    pub total_count: i64,
    pub total_pages: i64,
}

/// Management flags the provider attaches to a record.
#[derive(Debug)]
pub struct Meta {
    pub auto_added: bool,
    pub managed_by_apps: bool,
    pub managed_by_argo_tunnel: bool,
}

/// Connection settings for one provider zone.
#[derive(Debug)]
pub struct Client {
    pub api_key: String,
    pub zone_id: String,
    pub api_url: String,
    pub proxy_enabled: bool,
}

impl Client {
    pub fn new(api_url: String, api_key: String, zone_id: String, proxy_enabled: bool) -> (r: Self)
        ensures
            r.api_url@ == api_url@,
            r.api_key@ == api_key@,
            r.zone_id@ == zone_id@,
            r.proxy_enabled == proxy_enabled,
    {
        Self { api_key, zone_id, api_url, proxy_enabled }
    }

    /// The collection URL that records are listed from and created under.
    pub fn records_url(&self) -> (r: String)
        ensures
            r@ == self.api_url@ + "/zones/"@ + self.zone_id@ + "/dns_records"@,
    {
        let mut r = self.api_url.clone();
        r.append("/zones/");
        r.append(self.zone_id.as_str());
        r.append("/dns_records");
        r
    }

    /// The URL addressing one existing record by its provider id.
    pub fn record_url(&self, id: &String) -> (r: String)
        ensures
            r@ == self.api_url@ + "/zones/"@ + self.zone_id@ + "/dns_records/"@ + id@,
    {
        let mut r = self.api_url.clone();
        r.append("/zones/");
        r.append(self.zone_id.as_str());
        r.append("/dns_records/");
        r.append(id.as_str());
        r
    }

    /// The bearer authorization header value for this zone's key.
    pub fn bearer_token(&self) -> (r: String)
        ensures
            r@ == "Bearer "@ + self.api_key@,
    {
        let mut r = String::from_str("Bearer ");
        r.append(self.api_key.as_str());
        r
    }
}

/// The HTTP statuses treated as success: the 2xx class.
pub open spec fn is_success_status(status: u16) -> bool {
    200 <= status < 300
}

/// Whether a status belongs to the 2xx class.
pub fn status_is_success(status: u16) -> (r: bool)
    ensures
        r == is_success_status(status),
{
    200 <= status && status < 300
}

/// Views of a listed record sequence.
pub open spec fn listing_views(s: Seq<Record>) -> Seq<RecordV> {
    s.map_values(|r: Record| r@)
}

/// The address-type records of a listing, in listing order; records of
/// any other type are invisible to reconciliation.
pub open spec fn a_records_of(s: Seq<RecordV>) -> Seq<RecordV>
    decreases s.len(),
{
    if s.len() == 0 {
        Seq::empty()
    } else if s.last().type_field == "A"@ {
        a_records_of(s.drop_last()).push(s.last())
    } else {
        a_records_of(s.drop_last())
    }
}

/// Keeps exactly the address-type records of a listing, in order.
pub fn filter_a_records(records: &Vec<Record>) -> (out: Vec<Record>)
    ensures
        listing_views(out@) == a_records_of(listing_views(records@)),
{
    let ghost all = listing_views(records@);
    let a_label: String = "A".to_owned();
    let mut out: Vec<Record> = Vec::new();
    let n: usize = records.len();
    let mut i: usize = 0;
    while i < n
        invariant
            i <= n,
            n == records.len(),
            all == listing_views(records@),
            a_label@ == "A"@,
            listing_views(out@) == a_records_of(all.take(i as int)),
        decreases n - i,
    {
        let ghost out_before = listing_views(out@);
        if records[i].type_field == a_label {
            out.push(records[i].clone());
            proof {
                assert(listing_views(out@) =~= out_before.push(all[i as int]));
            }
        }
        proof {
            assert(all.take(i + 1 as int).drop_last() =~= all.take(i as int));
            assert(all.take(i + 1 as int).last() == all[i as int]);
        }
        i += 1;
    }
    proof {
        assert(all.take(n as int) =~= all);
    }
    out
}

/// Interprets the listing exchange: a non-2xx status fails the fetch, an
/// unparsable body fails it too, and a parsed listing is filtered down to
/// its address records.
pub fn listing_result(status: u16, parsed: Option<Vec<Record>>) -> (r: Result<Vec<Record>, Error>)
    ensures
        !is_success_status(status) ==> (r matches Err(e) && e.message@
            == "Failed to fetch domain records"@),
        is_success_status(status) && parsed is None ==> (r matches Err(e) && e.message@
            == "Failed to parse response body"@),
        parsed matches Some(records) ==> (is_success_status(status) ==> (r matches Ok(out)
            && listing_views(out@) == a_records_of(listing_views(records@)))),
{
    if !status_is_success(status) {
        Err(Error::new("Failed to fetch domain records".to_owned()))
    } else {
        match parsed {
            None => Err(Error::new("Failed to parse response body".to_owned())),
            Some(records) => Ok(filter_a_records(&records)),
        }
    }
}

/// Interprets a create or update exchange: any 2xx status is success, the
/// body is never parsed; anything else fails with the caller's message.
pub fn mutation_result(status: u16, failure_message: &str) -> (r: Result<(), Error>)
    ensures
        is_success_status(status) ==> r is Ok,
        !is_success_status(status) ==> (r matches Err(e) && e.message@ == failure_message@),
{
    if status_is_success(status) {
        Ok(())
    } else {
        Err(Error::new(failure_message.to_owned()))
    }
}

} // verus!
