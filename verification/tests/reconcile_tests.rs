use dyndns::dns_record::DnsRecord;
use dyndns::reconcile::{make_fqdn, reconcile};
use dyndns::snapshot::RecordSnapshot;

fn record(id: Option<&str>, name: &str, content: &str) -> DnsRecord {
    DnsRecord {
        id: id.map(|s| s.to_string()),
        name: name.to_string(),
        content: content.to_string(),
    }
}

fn snapshot_of(records: Vec<DnsRecord>) -> RecordSnapshot {
    let mut snap = RecordSnapshot::new();
    for r in records {
        snap.insert(r);
    }
    snap
}

#[test]
fn test_make_fqdn() {
    let fqdn = make_fqdn(&"home".to_string(), &"example.com".to_string());
    assert_eq!(fqdn, "home.example.com");
}

#[test]
fn test_missing_record_yields_one_create() {
    let desired = vec!["home".to_string()];
    let snap = RecordSnapshot::new();
    let ops = reconcile(&desired, &"example.com".to_string(), &"1.2.3.4".to_string(), &snap);
    assert_eq!(ops.len(), 1);
    assert_eq!(ops[0], record(None, "home.example.com", "1.2.3.4"));
}

#[test]
fn test_stale_record_yields_one_update() {
    let desired = vec!["home".to_string()];
    let snap = snapshot_of(vec![record(Some("abc"), "home.example.com", "9.9.9.9")]);
    let ops = reconcile(&desired, &"example.com".to_string(), &"1.2.3.4".to_string(), &snap);
    assert_eq!(ops.len(), 1);
    assert_eq!(ops[0], record(Some("abc"), "home.example.com", "1.2.3.4"));
}

#[test]
fn test_current_record_yields_nothing() {
    let desired = vec!["home".to_string()];
    let snap = snapshot_of(vec![record(Some("abc"), "home.example.com", "1.2.3.4")]);
    let ops = reconcile(&desired, &"example.com".to_string(), &"1.2.3.4".to_string(), &snap);
    assert_eq!(ops.len(), 0);
}

#[test]
fn test_second_run_after_apply_yields_nothing() {
    let desired = vec!["home".to_string(), "mail".to_string()];
    let snap = snapshot_of(vec![record(Some("abc"), "home.example.com", "9.9.9.9")]);
    let ops = reconcile(&desired, &"example.com".to_string(), &"1.2.3.4".to_string(), &snap);
    assert_eq!(ops.len(), 2);

    // Pretend the provider applied both operations, assigning an id to the
    // created record; the next cycle with unchanged inputs emits nothing.
    let snap_after = snapshot_of(vec![
        record(Some("abc"), "home.example.com", "1.2.3.4"),
        record(Some("new"), "mail.example.com", "1.2.3.4"),
    ]);
    let again = reconcile(&desired, &"example.com".to_string(), &"1.2.3.4".to_string(), &snap_after);
    assert_eq!(again.len(), 0);
}

#[test]
fn test_operations_follow_input_order() {
    let desired = vec!["a".to_string(), "b".to_string(), "c".to_string()];
    let snap = snapshot_of(vec![
        record(Some("id-b"), "b.example.com", "9.9.9.9"),
        record(Some("id-c"), "c.example.com", "1.2.3.4"),
    ]);
    let ops = reconcile(&desired, &"example.com".to_string(), &"1.2.3.4".to_string(), &snap);
    assert_eq!(ops.len(), 2);
    assert_eq!(ops[0], record(None, "a.example.com", "1.2.3.4"));
    assert_eq!(ops[1], record(Some("id-b"), "b.example.com", "1.2.3.4"));
}

#[test]
fn test_duplicate_entries_yield_duplicate_operations() {
    let desired = vec!["home".to_string(), "home".to_string()];
    let snap = RecordSnapshot::new();
    let ops = reconcile(&desired, &"example.com".to_string(), &"1.2.3.4".to_string(), &snap);
    assert_eq!(ops.len(), 2);
    assert_eq!(ops[0], ops[1]);
    assert_eq!(ops[0], record(None, "home.example.com", "1.2.3.4"));
}

#[test]
fn test_empty_desired_yields_nothing() {
    let desired: Vec<String> = vec![];
    let snap = snapshot_of(vec![record(Some("abc"), "home.example.com", "9.9.9.9")]);
    let ops = reconcile(&desired, &"example.com".to_string(), &"1.2.3.4".to_string(), &snap);
    assert_eq!(ops.len(), 0);
}

#[test]
fn test_unrelated_record_never_referenced() {
    let desired = vec!["home".to_string()];
    let snap = snapshot_of(vec![
        record(Some("other-id"), "other.example.com", "9.9.9.9"),
    ]);
    let ops = reconcile(&desired, &"example.com".to_string(), &"1.2.3.4".to_string(), &snap);
    assert_eq!(ops.len(), 1);
    for op in &ops {
        assert_ne!(op.name, "other.example.com");
        assert_ne!(op.id, Some("other-id".to_string()));
    }
}

#[test]
fn test_build_record_fresh() {
    let r = DnsRecord::build_record("home.example.com", "1.2.3.4", None);
    assert_eq!(r, record(None, "home.example.com", "1.2.3.4"));
}

#[test]
fn test_build_record_keeps_id_and_name() {
    let existing = record(Some("abc"), "home.example.com", "9.9.9.9");
    let r = DnsRecord::build_record("ignored", "1.2.3.4", Some(&existing));
    assert_eq!(r, record(Some("abc"), "home.example.com", "1.2.3.4"));
}
