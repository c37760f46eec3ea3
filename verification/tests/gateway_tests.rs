use dyndns::cloudflare::{
    filter_a_records, listing_result, mutation_result, status_is_success, Client, Record,
};
use dyndns::dns_record::DnsRecord;
use dyndns::services::{
    apply_route, build_snapshot, ensure_outcome, snapshot_outcome, ApplyRoute,
};
use dyndns::snapshot::RecordSnapshot;

fn listed(id: Option<&str>, name: &str, type_field: &str, content: &str) -> Record {
    Record {
        id: id.map(|s| s.to_string()),
        name: name.to_string(),
        type_field: type_field.to_string(),
        content: content.to_string(),
        proxied: false,
        ttl: Some(1),
    }
}

#[test]
fn test_status_is_success() {
    assert!(status_is_success(200));
    assert!(status_is_success(204));
    assert!(status_is_success(299));
    assert!(!status_is_success(199));
    assert!(!status_is_success(300));
    assert!(!status_is_success(404));
    assert!(!status_is_success(500));
}

#[test]
fn test_client_urls() {
    let client = Client::new(
        "https://api.cloudflare.com/client/v4".to_string(),
        "key".to_string(),
        "zone1".to_string(),
        false,
    );
    assert_eq!(
        client.records_url(),
        "https://api.cloudflare.com/client/v4/zones/zone1/dns_records"
    );
    assert_eq!(
        client.record_url(&"abc".to_string()),
        "https://api.cloudflare.com/client/v4/zones/zone1/dns_records/abc"
    );
    assert_eq!(client.bearer_token(), "Bearer key");
}

#[test]
fn test_filter_keeps_only_address_records() {
    let records = vec![
        listed(Some("1"), "home.example.com", "A", "1.2.3.4"),
        listed(Some("2"), "mail.example.com", "MX", "mx.example.com"),
        listed(Some("3"), "www.example.com", "CNAME", "example.com"),
        listed(Some("4"), "other.example.com", "A", "5.6.7.8"),
    ];
    let kept = filter_a_records(&records);
    assert_eq!(kept.len(), 2);
    assert_eq!(kept[0].name, "home.example.com");
    assert_eq!(kept[1].name, "other.example.com");
}

#[test]
fn test_listing_result_http_failure() {
    let r = listing_result(500, None);
    let e = r.err().expect("a failed status must fail the fetch");
    assert_eq!(e.message, "Failed to fetch domain records");
}

#[test]
fn test_listing_result_parse_failure() {
    let r = listing_result(200, None);
    let e = r.err().expect("an unparsable body must fail the fetch");
    assert_eq!(e.message, "Failed to parse response body");
}

#[test]
fn test_listing_result_filters() {
    let records = vec![
        listed(Some("1"), "home.example.com", "A", "1.2.3.4"),
        listed(Some("2"), "www.example.com", "CNAME", "example.com"),
    ];
    let kept = listing_result(200, Some(records)).ok().expect("2xx with a body parses");
    assert_eq!(kept.len(), 1);
    assert_eq!(kept[0].name, "home.example.com");
}

#[test]
fn test_mutation_result() {
    assert!(mutation_result(200, "Failed to update record").is_ok());
    assert!(mutation_result(201, "Failed to create record").is_ok());
    let e = mutation_result(403, "Failed to update record").err().expect("non-2xx fails");
    assert_eq!(e.message, "Failed to update record");
}

#[test]
fn test_build_snapshot_last_listed_wins() {
    let records = vec![
        listed(Some("1"), "home.example.com", "A", "1.2.3.4"),
        listed(Some("2"), "home.example.com", "A", "5.6.7.8"),
    ];
    let snap = build_snapshot(&records);
    let found = snap.get(&"home.example.com".to_string()).expect("the name is present");
    assert_eq!(found.id, Some("2".to_string()));
    assert_eq!(found.content, "5.6.7.8");
}

#[test]
fn test_snapshot_insert_and_get() {
    let mut snap = RecordSnapshot::new();
    assert!(!snap.contains_name(&"home.example.com".to_string()));
    snap.insert(DnsRecord {
        id: Some("a".to_string()),
        name: "home.example.com".to_string(),
        content: "1.2.3.4".to_string(),
    });
    snap.insert(DnsRecord {
        id: Some("b".to_string()),
        name: "home.example.com".to_string(),
        content: "9.9.9.9".to_string(),
    });
    assert!(snap.contains_name(&"home.example.com".to_string()));
    let found = snap.get(&"home.example.com".to_string()).expect("inserted");
    assert_eq!(found.id, Some("b".to_string()));
    assert_eq!(found.content, "9.9.9.9");
    assert!(snap.get(&"mail.example.com".to_string()).is_none());
}

#[test]
fn test_snapshot_outcome() {
    let records = vec![listed(Some("1"), "home.example.com", "A", "1.2.3.4")];
    let snap = snapshot_outcome(Ok(records)).ok().expect("a listing becomes a snapshot");
    assert!(snap.contains_name(&"home.example.com".to_string()));

    let failed = snapshot_outcome(Err(dyndns::cloudflare::Error::new(
        "Failed to fetch domain records".to_string(),
    )));
    let e = failed.err().expect("a gateway failure aborts the fetch");
    assert_eq!(e.message, "Failed to fetch domain records");
}

#[test]
fn test_apply_route() {
    let update = apply_route(&DnsRecord {
        id: Some("abc".to_string()),
        name: "home.example.com".to_string(),
        content: "1.2.3.4".to_string(),
    });
    assert!(matches!(update, ApplyRoute::Update { id } if id == "abc"));

    let create = apply_route(&DnsRecord {
        id: None,
        name: "home.example.com".to_string(),
        content: "1.2.3.4".to_string(),
    });
    assert!(matches!(create, ApplyRoute::Create));
}

#[test]
fn test_ensure_outcome() {
    assert!(ensure_outcome(Ok(())).is_ok());
    let e = ensure_outcome(Err(dyndns::cloudflare::Error::new("anything".to_string())))
        .err()
        .expect("a gateway failure is reported");
    assert_eq!(e.message, "Failed to update record");
}
