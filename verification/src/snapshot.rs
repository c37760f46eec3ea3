//! The provider's record set as observed at the start of one cycle, keyed by
//! fully-qualified name. Built fresh each cycle from the listing; when the
//! provider returns several records under one name, the last one observed
//! survives (that is the snapshot's sole indexing policy). Read-only once
//! built.

use vstd::prelude::*;
use vstd::pervasive::VecAdditionalExecFns;
use crate::dns_record::{DnsRecord, DnsRecordV};

verus! {

/// Views of a sequence of records.
pub open spec fn record_views(s: Seq<DnsRecord>) -> Seq<DnsRecordV> {
    s.map_values(|r: DnsRecord| r@)
}

/// No two records in the sequence share a name.
pub open spec fn unique_names(s: Seq<DnsRecordV>) -> bool {
    forall|a: int, b: int|
        0 <= a < b < s.len() ==> #[trigger] s[a].name != #[trigger] s[b].name
}

/// The name-to-record mapping a sequence of records denotes, later entries
/// overriding earlier ones with the same name.
pub open spec fn snapshot_map_of(s: Seq<DnsRecordV>) -> Map<Seq<char>, DnsRecordV>
    decreases s.len(),
{
    if s.len() == 0 {
        Map::empty()
    } else {
        snapshot_map_of(s.drop_last()).insert(s.last().name, s.last())
    }
}

/// A name is in the mapping exactly when some record in the sequence bears it.
pub proof fn lemma_snapshot_map_dom(s: Seq<DnsRecordV>)
    ensures
        forall|n: Seq<char>|
            snapshot_map_of(s).contains_key(n) <==> exists|i: int|
                0 <= i < s.len() && #[trigger] s[i].name == n,
    decreases s.len(),
{
    if s.len() > 0 {
        lemma_snapshot_map_dom(s.drop_last());
        assert forall|n: Seq<char>|
            snapshot_map_of(s).contains_key(n) implies exists|i: int|
            0 <= i < s.len() && #[trigger] s[i].name == n by {
            if n == s.last().name {
                assert(s[s.len() - 1].name == n);
            } else {
                assert(snapshot_map_of(s.drop_last()).contains_key(n));
                let i = choose|i: int| 0 <= i < s.drop_last().len() && #[trigger] s.drop_last()[i].name == n;
                assert(s.drop_last()[i] == s[i]);
                assert(s[i].name == n);
            }
        }
        assert forall|n: Seq<char>|
            (exists|i: int| 0 <= i < s.len() && #[trigger] s[i].name == n)
            implies snapshot_map_of(s).contains_key(n) by {
            let i = choose|i: int| 0 <= i < s.len() && #[trigger] s[i].name == n;
            if i < s.len() - 1 {
                assert(s.drop_last()[i].name == n);
                assert(snapshot_map_of(s.drop_last()).contains_key(n));
            } else {
                assert(n == s.last().name);
            }
        }
    }
}

/// Every value in the mapping is stored under its own name.
pub proof fn lemma_snapshot_map_names(s: Seq<DnsRecordV>)
    ensures
        forall|n: Seq<char>| #[trigger]
            snapshot_map_of(s).contains_key(n) ==> snapshot_map_of(s)[n].name == n,
    decreases s.len(),
{
    if s.len() > 0 {
        lemma_snapshot_map_names(s.drop_last());
    }
}

/// A record whose name recurs nowhere later in the sequence is the one the
/// mapping holds under that name.
pub proof fn lemma_snapshot_map_get(s: Seq<DnsRecordV>, i: int)
    requires
        0 <= i < s.len(),
        forall|j: int| i < j < s.len() ==> #[trigger] s[j].name != s[i].name,
    ensures
        snapshot_map_of(s).contains_key(s[i].name),
        snapshot_map_of(s)[s[i].name] == s[i],
    decreases s.len(),
{
    if i < s.len() - 1 {
        assert forall|j: int| i < j < s.drop_last().len() implies #[trigger] s.drop_last()[j].name
            != s.drop_last()[i].name by {
            assert(s[j].name != s[i].name);
        }
        lemma_snapshot_map_get(s.drop_last(), i);
        assert(s[s.len() - 1].name != s[i].name);
    }
}

/// Replacing the record that holds a name by another record with the same
/// name updates the mapping at that name alone.
pub proof fn lemma_snapshot_map_update(s: Seq<DnsRecordV>, j: int, r: DnsRecordV)
    requires
        0 <= j < s.len(),
        s[j].name == r.name,
        unique_names(s),
    ensures
        snapshot_map_of(s.update(j, r)) == snapshot_map_of(s).insert(r.name, r),
    decreases s.len(),
{
    let t = s.update(j, r);
    if j == s.len() - 1 {
        assert(t.drop_last() =~= s.drop_last());
        assert(t.last() == r);
        assert(snapshot_map_of(t) =~= snapshot_map_of(s).insert(r.name, r));
    } else {
        assert(t.drop_last() =~= s.drop_last().update(j, r));
        assert(t.last() == s.last());
        assert forall|a: int, b: int| 0 <= a < b < s.drop_last().len() implies #[trigger] s
            .drop_last()[a].name != #[trigger] s.drop_last()[b].name by {
            assert(s[a].name != s[b].name);
        }
        lemma_snapshot_map_update(s.drop_last(), j, r);
        assert(s[j].name != s[s.len() - 1].name);
        assert(snapshot_map_of(t) =~= snapshot_map_of(s).insert(r.name, r));
    }
}

/// The provider's records for one cycle, indexed by fully-qualified name.
pub struct RecordSnapshot {
    records: Vec<DnsRecord>,
}

impl View for RecordSnapshot {
    type V = Map<Seq<char>, DnsRecordV>;

    closed spec fn view(&self) -> Map<Seq<char>, DnsRecordV> {
        snapshot_map_of(record_views(self.records@))
    }
}

impl RecordSnapshot {
    /// Internal shape: the stored records carry pairwise distinct names, so
    /// lookups are unambiguous.
    pub closed spec fn wf(self) -> bool {
        unique_names(record_views(self.records@))
    }

    /// Every stored value sits under its own name.
    pub proof fn lemma_names_consistent(self)
        ensures
            forall|n: Seq<char>| #[trigger] self@.contains_key(n) ==> self@[n].name == n,
    {
        lemma_snapshot_map_names(record_views(self.records@));
    }

    pub fn new() -> (r: RecordSnapshot)
        ensures
            r.wf(),
            r@ == Map::<Seq<char>, DnsRecordV>::empty(),
    {
        RecordSnapshot { records: Vec::new() }
    }

    /// Records the given record under its name, replacing whatever record
    /// held that name before: the last write wins.
    pub fn insert(&mut self, record: DnsRecord)
        requires
            old(self).wf(),
        ensures
            final(self).wf(),
            final(self)@ == old(self)@.insert(record@.name, record@),
    {
        let ghost s0 = record_views(self.records@);
        let n: usize = self.records.len();
        let mut i: usize = 0;
        while i < n
            invariant
                i <= n,
                n == self.records.len(),
                self == old(self),
                s0 == record_views(self.records@),
                unique_names(s0),
                forall|j: int| 0 <= j < i ==> #[trigger] s0[j].name != record@.name,
            decreases n - i,
        {
            if self.records[i].name == record.name {
                proof {
                    lemma_snapshot_map_update(s0, i as int, record@);
                }
                self.records.set(i, record);
                proof {
                    let s1 = record_views(self.records@);
                    assert(s1 =~= s0.update(i as int, record@));
                    assert forall|a: int, b: int| 0 <= a < b < s1.len() implies #[trigger] s1[a].name
                        != #[trigger] s1[b].name by {
                        assert(s0[a].name != s0[b].name);
                        assert(s0[i as int].name == record@.name);
                    }
                }
                return;
            }
            i += 1;
        }
        self.records.push(record);
        proof {
            let s1 = record_views(self.records@);
            assert(s1.drop_last() =~= s0);
            assert(s1.last() == record@);
            assert forall|a: int, b: int| 0 <= a < b < s1.len() implies #[trigger] s1[a].name
                != #[trigger] s1[b].name by {
                if b < s1.len() - 1 {
                    assert(s0[a].name != s0[b].name);
                } else {
                    assert(s0[a].name != record@.name);
                }
            }
        }
    }

    /// Looks a name up: the result is exactly the mapping's entry for it.
    pub fn get(&self, name: &String) -> (r: Option<&DnsRecord>)
        requires
            self.wf(),
        ensures
            match r {
                Some(rec) => self@.contains_key(name@) && rec@ == self@[name@],
                None => !self@.contains_key(name@),
            },
    {
        let ghost s = record_views(self.records@);
        let n: usize = self.records.len();
        let mut i: usize = 0;
        while i < n
            invariant
                i <= n,
                n == self.records.len(),
                s == record_views(self.records@),
                self@ == snapshot_map_of(s),
                unique_names(s),
                forall|j: int| 0 <= j < i ==> #[trigger] s[j].name != name@,
            decreases n - i,
        {
            if self.records[i].name == *name {
                proof {
                    assert forall|j: int| i < j < s.len() implies #[trigger] s[j].name
                        != s[i as int].name by {
                        assert(s[i as int].name != s[j].name);
                    }
                    lemma_snapshot_map_get(s, i as int);
                }
                return Some(&self.records[i]);
            }
            i += 1;
        }
        proof {
            lemma_snapshot_map_dom(s);
        }
        None
    }

    /// Whether any record is stored under the given name.
    pub fn contains_name(&self, name: &String) -> (r: bool)
        requires
            self.wf(),
        ensures
            r == self@.contains_key(name@),
    {
        match self.get(name) {
            Some(_) => true,
            None => false,
        }
    }
}

} // verus!
