//! The address record the reconciler works with: provider-assigned id (absent
//! until the record is created), fully-qualified name, and IP content.

use vstd::prelude::*;
use crate::cloudflare::{opt_view, Record};

verus! {

/// One address record: identity is the name; `id` is the provider's handle,
/// absent for a record that does not exist remotely yet.
#[derive(Debug)]
pub struct DnsRecord {
    pub id: Option<String>,
    pub name: String,
    pub content: String,
}

/// Mathematical value of a [`DnsRecord`].
pub struct DnsRecordV {
    pub id: Option<Seq<char>>,
    pub name: Seq<char>,
    pub content: Seq<char>,
}

impl View for DnsRecord {
    type V = DnsRecordV;

    open spec fn view(&self) -> DnsRecordV {
        DnsRecordV { id: opt_view(self.id), name: self.name@, content: self.content@ }
    }
}

/// Clones an optional owned string, preserving its value.
pub fn clone_opt_string(o: &Option<String>) -> (r: Option<String>)
    ensures
        r == *o,
{
    match o {
        Some(s) => Some(s.clone()),
        None => None,
    }
}

impl Clone for DnsRecord {
    fn clone(&self) -> (r: Self)
        ensures
            r == *self,
    {
        DnsRecord {
            id: clone_opt_string(&self.id),
            name: self.name.clone(),
            content: self.content.clone(),
        }
    }
}

impl PartialEq for DnsRecord {
    fn eq(&self, other: &DnsRecord) -> (r: bool) {
        let ids_equal = match (&self.id, &other.id) {
            (Some(a), Some(b)) => *a == *b,
            (None, None) => true,
            _ => false,
        };
        ids_equal && self.name == other.name && self.content == other.content
    }
}

impl vstd::std_specs::cmp::PartialEqSpecImpl for DnsRecord {
    open spec fn obeys_eq_spec() -> bool {
        true
    }

    open spec fn eq_spec(&self, other: &DnsRecord) -> bool {
        self@ == other@
    }
}

impl From<Record> for DnsRecord {
    fn from(record: Record) -> (r: DnsRecord) {
        DnsRecord { id: record.id, name: record.name, content: record.content }
    }
}

impl vstd::std_specs::convert::FromSpecImpl<Record> for DnsRecord {
    open spec fn obeys_from_spec() -> bool {
        true
    }

    open spec fn from_spec(record: Record) -> DnsRecord {
        DnsRecord { id: record.id, name: record.name, content: record.content }
    }
}

impl DnsRecord {
    /// Builds the record a desired entry should have: for an existing remote
    /// record the id and name are kept and only the content is replaced by
    /// the given IP; otherwise a fresh record under the given name, with no
    /// id yet.
    pub fn build_record(subdomain: &str, ip: &str, existing_record: Option<&DnsRecord>) -> (r:
        DnsRecord)
        ensures
            match existing_record {
                Some(rec) => r@ == (DnsRecordV { id: rec@.id, name: rec@.name, content: ip@ }),
                None => r@ == (DnsRecordV { id: None, name: subdomain@, content: ip@ }),
            },
    {
        match existing_record {
            Some(record) => DnsRecord {
                id: clone_opt_string(&record.id),
                name: record.name.clone(),
                content: ip.to_owned(),
            },
            None => DnsRecord { id: None, name: subdomain.to_owned(), content: ip.to_owned() },
        }
    }
}

} // verus!
