//! The reconciliation engine. Given the ordered desired subdomains, the root
//! domain, the IP resolved for this cycle and the provider's record
//! snapshot, it emits the ordered operations that bring the records in line:
//! a create for each desired name the snapshot lacks, an update for each
//! whose content differs from the current IP, and nothing for a record that
//! is already correct. Records outside the desired set are never touched,
//! and no operation ever deletes anything.

use vstd::prelude::*;
use vstd::string::StringExecFns;
use crate::dns_record::{DnsRecord, DnsRecordV};
use crate::snapshot::{record_views, RecordSnapshot};

verus! {

/// Views of a sequence of owned strings.
pub open spec fn str_views(s: Seq<String>) -> Seq<Seq<char>> {
    s.map_values(|x: String| x@)
}

/// The fully-qualified name a subdomain label resolves under the root
/// domain.
pub open spec fn fqdn_spec(entry: Seq<char>, root_domain: Seq<char>) -> Seq<char> {
    entry + "."@ + root_domain
}

/// Joins a subdomain label and the root domain with a dot.
pub fn make_fqdn(entry: &String, root_domain: &String) -> (r: String)
    ensures
        r@ == fqdn_spec(entry@, root_domain@),
{
    let mut r = entry.clone();
    r.append(".");
    r.append(root_domain.as_str());
    r
}

/// The operation that creates a record: no id yet, the given name, the
/// current IP as content.
pub open spec fn create_op(fqdn: Seq<char>, ip: Seq<char>) -> DnsRecordV {
    DnsRecordV { id: None, name: fqdn, content: ip }
}

/// The operation that updates an existing record: id and name are kept,
/// only the content is replaced by the current IP.
pub open spec fn update_op(existing: DnsRecordV, ip: Seq<char>) -> DnsRecordV {
    DnsRecordV { id: existing.id, name: existing.name, content: ip }
}

/// What one desired entry contributes: one create if its name is absent
/// from the snapshot, one update if present with stale content, nothing if
/// already correct.
pub open spec fn entry_ops(
    entry: Seq<char>,
    root_domain: Seq<char>,
    ip: Seq<char>,
    snap: Map<Seq<char>, DnsRecordV>,
) -> Seq<DnsRecordV> {
    let f = fqdn_spec(entry, root_domain);
    if !snap.contains_key(f) {
        seq![create_op(f, ip)]
    } else if snap[f].content != ip {
        seq![update_op(snap[f], ip)]
    } else {
        Seq::empty()
    }
}

/// The full operation sequence: each desired entry's contribution, in the
/// order the entries were given.
pub open spec fn reconcile_spec(
    desired: Seq<Seq<char>>,
    root_domain: Seq<char>,
    ip: Seq<char>,
    snap: Map<Seq<char>, DnsRecordV>,
) -> Seq<DnsRecordV>
    decreases desired.len(),
{
    if desired.len() == 0 {
        Seq::empty()
    } else {
        entry_ops(desired[0], root_domain, ip, snap) + reconcile_spec(
            desired.drop_first(),
            root_domain,
            ip,
            snap,
        )
    }
}

/// Order preservation: the operations for a concatenation of desired lists
/// are the operations for the first list followed by those for the second,
/// so emitted operations follow the order of the input entries.
pub proof fn lemma_reconcile_concat(
    d1: Seq<Seq<char>>,
    d2: Seq<Seq<char>>,
    root_domain: Seq<char>,
    ip: Seq<char>,
    snap: Map<Seq<char>, DnsRecordV>,
)
    ensures
        reconcile_spec(d1 + d2, root_domain, ip, snap) == reconcile_spec(d1, root_domain, ip, snap)
            + reconcile_spec(d2, root_domain, ip, snap),
    decreases d1.len(),
{
    if d1.len() == 0 {
        assert(d1 + d2 =~= d2);
        assert(reconcile_spec(d1, root_domain, ip, snap) + reconcile_spec(d2, root_domain, ip, snap)
            =~= reconcile_spec(d2, root_domain, ip, snap));
    } else {
        assert((d1 + d2).drop_first() =~= d1.drop_first() + d2);
        lemma_reconcile_concat(d1.drop_first(), d2, root_domain, ip, snap);
        assert((d1 + d2)[0] == d1[0]);
        assert(entry_ops(d1[0], root_domain, ip, snap) + (reconcile_spec(
            d1.drop_first(),
            root_domain,
            ip,
            snap,
        ) + reconcile_spec(d2, root_domain, ip, snap)) =~= (entry_ops(d1[0], root_domain, ip, snap)
            + reconcile_spec(d1.drop_first(), root_domain, ip, snap)) + reconcile_spec(
            d2,
            root_domain,
            ip,
            snap,
        ));
    }
}

/// Appending one entry appends exactly that entry's contribution.
pub proof fn lemma_reconcile_snoc(
    d: Seq<Seq<char>>,
    entry: Seq<char>,
    root_domain: Seq<char>,
    ip: Seq<char>,
    snap: Map<Seq<char>, DnsRecordV>,
)
    ensures
        reconcile_spec(d.push(entry), root_domain, ip, snap) == reconcile_spec(
            d,
            root_domain,
            ip,
            snap,
        ) + entry_ops(entry, root_domain, ip, snap),
{
    assert(d.push(entry) =~= d + seq![entry]);
    lemma_reconcile_concat(d, seq![entry], root_domain, ip, snap);
    assert(seq![entry].drop_first() =~= Seq::<Seq<char>>::empty());
    assert(reconcile_spec(Seq::<Seq<char>>::empty(), root_domain, ip, snap) == Seq::<
        DnsRecordV,
    >::empty());
    assert(seq![entry][0] == entry);
    assert(reconcile_spec(seq![entry], root_domain, ip, snap) == entry_ops(
        entry,
        root_domain,
        ip,
        snap,
    ) + Seq::<DnsRecordV>::empty());
    assert(entry_ops(entry, root_domain, ip, snap) + Seq::<DnsRecordV>::empty() =~= entry_ops(
        entry,
        root_domain,
        ip,
        snap,
    ));
}

/// A desired entry whose name the snapshot lacks yields exactly one create
/// operation: id absent, the entry's fully-qualified name, the current IP
/// as content.
pub proof fn lemma_missing_entry_creates(
    entry: Seq<char>,
    root_domain: Seq<char>,
    ip: Seq<char>,
    snap: Map<Seq<char>, DnsRecordV>,
)
    requires
        !snap.contains_key(fqdn_spec(entry, root_domain)),
    ensures
        reconcile_spec(seq![entry], root_domain, ip, snap) == seq![
            create_op(fqdn_spec(entry, root_domain), ip),
        ],
{
    lemma_reconcile_snoc(Seq::empty(), entry, root_domain, ip, snap);
    assert(Seq::<Seq<char>>::empty().push(entry) =~= seq![entry]);
    assert(Seq::<DnsRecordV>::empty() + entry_ops(entry, root_domain, ip, snap) =~= entry_ops(
        entry,
        root_domain,
        ip,
        snap,
    ));
}

/// A desired entry whose record already carries the current IP yields no
/// operation at all.
pub proof fn lemma_up_to_date_entry_no_op(
    entry: Seq<char>,
    root_domain: Seq<char>,
    ip: Seq<char>,
    snap: Map<Seq<char>, DnsRecordV>,
)
    requires
        snap.contains_key(fqdn_spec(entry, root_domain)),
        snap[fqdn_spec(entry, root_domain)].content == ip,
    ensures
        reconcile_spec(seq![entry], root_domain, ip, snap) == Seq::<DnsRecordV>::empty(),
{
    lemma_reconcile_snoc(Seq::empty(), entry, root_domain, ip, snap);
    assert(Seq::<Seq<char>>::empty().push(entry) =~= seq![entry]);
    assert(Seq::<DnsRecordV>::empty() + entry_ops(entry, root_domain, ip, snap) =~= entry_ops(
        entry,
        root_domain,
        ip,
        snap,
    ));
}

/// A desired entry whose record's content differs from the current IP
/// yields exactly one update operation, keeping the snapshot record's id
/// and name and replacing only the content.
pub proof fn lemma_stale_entry_updates(
    entry: Seq<char>,
    root_domain: Seq<char>,
    ip: Seq<char>,
    snap: Map<Seq<char>, DnsRecordV>,
)
    requires
        snap.contains_key(fqdn_spec(entry, root_domain)),
        snap[fqdn_spec(entry, root_domain)].content != ip,
    ensures
        reconcile_spec(seq![entry], root_domain, ip, snap) == seq![
            update_op(snap[fqdn_spec(entry, root_domain)], ip),
        ],
{
    lemma_reconcile_snoc(Seq::empty(), entry, root_domain, ip, snap);
    assert(Seq::<Seq<char>>::empty().push(entry) =~= seq![entry]);
    assert(Seq::<DnsRecordV>::empty() + entry_ops(entry, root_domain, ip, snap) =~= entry_ops(
        entry,
        root_domain,
        ip,
        snap,
    ));
}

/// Idempotence: when every desired entry's record is present with the
/// current IP as content — as after a cycle whose operations all took
/// effect — a further run emits no operations.
pub proof fn lemma_reconcile_idempotent(
    desired: Seq<Seq<char>>,
    root_domain: Seq<char>,
    ip: Seq<char>,
    snap: Map<Seq<char>, DnsRecordV>,
)
    requires
        forall|k: int| 0 <= k < desired.len() ==> snap.contains_key(
            #[trigger] fqdn_spec(desired[k], root_domain),
        ) && snap[fqdn_spec(desired[k], root_domain)].content == ip,
    ensures
        reconcile_spec(desired, root_domain, ip, snap) == Seq::<DnsRecordV>::empty(),
    decreases desired.len(),
{
    if desired.len() > 0 {
        assert(snap.contains_key(fqdn_spec(desired[0], root_domain)));
        assert forall|k: int| 0 <= k < desired.drop_first().len() implies snap.contains_key(
            #[trigger] fqdn_spec(desired.drop_first()[k], root_domain),
        ) && snap[fqdn_spec(desired.drop_first()[k], root_domain)].content == ip by {
            assert(desired.drop_first()[k] == desired[k + 1]);
            assert(snap.contains_key(fqdn_spec(desired[k + 1], root_domain)));
        }
        lemma_reconcile_idempotent(desired.drop_first(), root_domain, ip, snap);
        assert(entry_ops(desired[0], root_domain, ip, snap) + Seq::<DnsRecordV>::empty()
            =~= Seq::<DnsRecordV>::empty());
    }
}

/// Every emitted operation targets a desired name, and an operation that
/// carries an id carries the id the snapshot holds for that very name: no
/// operation references a record outside the desired set, and none is a
/// delete.
pub proof fn lemma_ops_touch_only_desired(
    desired: Seq<Seq<char>>,
    root_domain: Seq<char>,
    ip: Seq<char>,
    snap: Map<Seq<char>, DnsRecordV>,
)
    requires
        forall|n: Seq<char>| #[trigger] snap.contains_key(n) ==> snap[n].name == n,
    ensures
        forall|k: int|
            0 <= k < reconcile_spec(desired, root_domain, ip, snap).len() ==> exists|j: int|
                0 <= j < desired.len() && (#[trigger] reconcile_spec(desired, root_domain, ip, snap)[k]).name
                    == fqdn_spec(desired[j], root_domain),
        forall|k: int|
            0 <= k < reconcile_spec(desired, root_domain, ip, snap).len() ==> ((
            #[trigger] reconcile_spec(desired, root_domain, ip, snap)[k]).id is Some
                ==> snap.contains_key(reconcile_spec(desired, root_domain, ip, snap)[k].name)
                && snap[reconcile_spec(desired, root_domain, ip, snap)[k].name].id
                == reconcile_spec(desired, root_domain, ip, snap)[k].id),
    decreases desired.len(),
{
    let ops = reconcile_spec(desired, root_domain, ip, snap);
    if desired.len() > 0 {
        lemma_ops_touch_only_desired(desired.drop_first(), root_domain, ip, snap);
        let head = entry_ops(desired[0], root_domain, ip, snap);
        let rest = reconcile_spec(desired.drop_first(), root_domain, ip, snap);
        let f = fqdn_spec(desired[0], root_domain);
        assert forall|k: int| 0 <= k < ops.len() implies exists|j: int|
            0 <= j < desired.len() && (#[trigger] ops[k]).name == fqdn_spec(
                desired[j],
                root_domain,
            ) by {
            if k < head.len() {
                assert(ops[k] == head[k]);
                assert(ops[k].name == fqdn_spec(desired[0], root_domain));
            } else {
                assert(ops[k] == rest[k - head.len()]);
                let j0 = choose|j: int|
                    0 <= j < desired.drop_first().len() && (#[trigger] rest[k - head.len()]).name
                        == fqdn_spec(desired.drop_first()[j], root_domain);
                assert(desired.drop_first()[j0] == desired[j0 + 1]);
                assert(ops[k].name == fqdn_spec(desired[j0 + 1], root_domain));
            }
        }
        assert forall|k: int| 0 <= k < ops.len() implies ((#[trigger] ops[k]).id is Some
            ==> snap.contains_key(ops[k].name) && snap[ops[k].name].id == ops[k].id) by {
            if k < head.len() {
                assert(ops[k] == head[k]);
                if snap.contains_key(f) {
                    assert(snap[f].name == f);
                }
            } else {
                assert(ops[k] == rest[k - head.len()]);
            }
        }
    }
}

/// No-delete property, directly: a snapshot record whose name is not among
/// the desired fully-qualified names is referenced by no operation.
pub proof fn lemma_unrelated_record_untouched(
    desired: Seq<Seq<char>>,
    root_domain: Seq<char>,
    ip: Seq<char>,
    snap: Map<Seq<char>, DnsRecordV>,
    n: Seq<char>,
)
    requires
        forall|m: Seq<char>| #[trigger] snap.contains_key(m) ==> snap[m].name == m,
        forall|j: int| 0 <= j < desired.len() ==> #[trigger] fqdn_spec(desired[j], root_domain)
            != n,
    ensures
        forall|k: int|
            0 <= k < reconcile_spec(desired, root_domain, ip, snap).len() ==> (
            #[trigger] reconcile_spec(desired, root_domain, ip, snap)[k]).name != n,
{
    let ops = reconcile_spec(desired, root_domain, ip, snap);
    lemma_ops_touch_only_desired(desired, root_domain, ip, snap);
    assert forall|k: int| 0 <= k < ops.len() implies (#[trigger] ops[k]).name != n by {
        let j = choose|j: int|
            0 <= j < desired.len() && (#[trigger] ops[k]).name == fqdn_spec(
                desired[j],
                root_domain,
            );
        assert(fqdn_spec(desired[j], root_domain) != n);
    }
}

/// Computes the ordered operations for one cycle. The result is exactly
/// what [`reconcile_spec`] says: per desired entry in input order, a create
/// when its name is missing from the snapshot, an update (keeping the
/// remote record's id and name) when the content is stale, and nothing
/// when the record already carries the current IP.
pub fn reconcile(
    desired: &Vec<String>,
    root_domain: &String,
    current_ip: &String,
    snapshot: &RecordSnapshot,
) -> (ops: Vec<DnsRecord>)
    requires
        snapshot.wf(),
    ensures
        record_views(ops@) == reconcile_spec(
            str_views(desired@),
            root_domain@,
            current_ip@,
            snapshot@,
        ),
{
    let ghost dv = str_views(desired@);
    let mut ops: Vec<DnsRecord> = Vec::new();
    let n: usize = desired.len();
    let mut i: usize = 0;
    while i < n
        invariant
            i <= n,
            n == desired.len(),
            dv == str_views(desired@),
            snapshot.wf(),
            record_views(ops@) == reconcile_spec(
                dv.take(i as int),
                root_domain@,
                current_ip@,
                snapshot@,
            ),
        decreases n - i,
    {
        let ghost ops_before = record_views(ops@);
        let fqdn = make_fqdn(&desired[i], root_domain);
        match snapshot.get(&fqdn) {
            None => {
                let op = DnsRecord::build_record(fqdn.as_str(), current_ip.as_str(), None);
                ops.push(op);
            },
            Some(record) => {
                let op = DnsRecord::build_record(fqdn.as_str(), current_ip.as_str(), Some(record));
                if op != *record {
                    ops.push(op);
                }
            },
        }
        proof {
            assert(dv[i as int] == desired@[i as int]@);
            lemma_reconcile_snoc(dv.take(i as int), dv[i as int], root_domain@, current_ip@, snapshot@);
            assert(dv.take(i + 1 as int) =~= dv.take(i as int).push(dv[i as int]));
            assert(record_views(ops@) =~= ops_before + entry_ops(
                dv[i as int],
                root_domain@,
                current_ip@,
                snapshot@,
            ));
        }
        i += 1;
    }
    proof {
        assert(dv.take(n as int) =~= dv);
    }
    ops
}

} // verus!
