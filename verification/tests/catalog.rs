use waifud::api::audit;
use waifud::api::distros;
use waifud::models::{AuditEvent, CloudconfigSeed, Distro, Instance, Payload};
use waifud::store::Store;
use waifud::text::le;
use waifud::Error;

fn distro(name: &str, url: &str, min: i32, format: &str) -> Distro {
    Distro {
        name: name.to_string(),
        download_url: url.to_string(),
        sha256sum: "abc123".to_string(),
        min_size_gb: min,
        format: format.to_string(),
    }
}

#[test]
fn empty_format_becomes_qcow2() {
    let mut store = Store::new();
    let stored = distros::create(&mut store, distro("a", "http://x/a", 5, ""), 1).unwrap();
    assert_eq!(stored.format, "waifud://qcow2");
    assert_eq!(distros::get(&store, &"a".to_string()).unwrap().format, "waifud://qcow2");
    let stored = distros::update(&mut store, distro("b", "http://x/b", 5, ""), 2).unwrap();
    assert_eq!(stored.format, "waifud://qcow2");
    let stored = distros::create(&mut store, distro("c", "http://x/c", 5, "raw"), 3).unwrap();
    assert_eq!(stored.format, "raw");
}

#[test]
fn upsert_leaves_one_row_with_updated_url() {
    let mut store = Store::new();
    distros::create(&mut store, distro("test-1", "http://x/old.qcow2", 5, ""), 1).unwrap();
    distros::update(&mut store, distro("test-1", "http://x/new.qcow2", 5, ""), 2).unwrap();
    let rows: Vec<&Distro> = store.distros().iter().filter(|d| d.name == "test-1").collect();
    assert_eq!(rows.len(), 1);
    assert_eq!(rows[0].download_url, "http://x/new.qcow2");
    assert_eq!(store.distros().len(), 1);
    // writing the same thing again changes nothing in the catalog
    distros::update(&mut store, distro("test-1", "http://x/new.qcow2", 5, ""), 3).unwrap();
    assert_eq!(store.distros().len(), 1);
    let ops: Vec<String> =
        AuditEvent::get_all(&store).into_iter().map(|e| e.operation).collect();
    assert_eq!(ops, vec!["create", "update", "update"]);
}

#[test]
fn create_refuses_taken_name() {
    let mut store = Store::new();
    distros::create(&mut store, distro("a", "http://x/1", 5, ""), 1).unwrap();
    match distros::create(&mut store, distro("a", "http://x/2", 5, ""), 2) {
        Err(Error::SQLite(m)) => assert_eq!(m, "UNIQUE constraint failed: distros.name"),
        other => panic!("unexpected {:?}", other),
    }
    assert_eq!(distros::get(&store, &"a".to_string()).unwrap().download_url, "http://x/1");
    assert_eq!(AuditEvent::get_all(&store).len(), 1);
}

#[test]
fn delete_distro_records_what_was_removed() {
    let mut store = Store::new();
    distros::create(&mut store, distro("a", "http://x/1", 5, ""), 1).unwrap();
    distros::create(&mut store, distro("b", "http://x/2", 8, ""), 2).unwrap();
    distros::delete(&mut store, &"a".to_string(), 3).unwrap();
    assert_eq!(store.distros().len(), 1);
    assert_eq!(store.distros()[0].name, "b");
    let log = AuditEvent::get_all(&store);
    let event = log.last().unwrap();
    assert_eq!(event.id, 3);
    assert_eq!(event.kind, "distro");
    assert_eq!(event.operation, "delete");
    assert_eq!(event.entity_id, None);
    assert_eq!(event.entity_name.as_deref(), Some("a"));
    match &event.payload {
        Some(Payload::Distro(d)) => assert_eq!(d.download_url, "http://x/1"),
        other => panic!("unexpected {:?}", other),
    }
}

#[test]
fn delete_of_missing_distro_is_not_found() {
    let mut store = Store::new();
    match distros::delete(&mut store, &"nothing".to_string(), 1) {
        Err(e) => {
            assert_eq!(e.status_code(), 404);
            assert_eq!(e.message(), "distro nothing doesn't exist");
        }
        Ok(()) => panic!("deleted nothing"),
    }
    assert!(AuditEvent::get_all(&store).is_empty());
    assert!(matches!(
        distros::get(&store, &"nothing".to_string()),
        Err(Error::DistroNotFound(_))
    ));
    assert!(Distro::from_name(&store, &"nothing".to_string()).is_err());
}

#[test]
fn list_is_sorted_by_name() {
    let mut store = Store::new();
    for name in ["ubuntu-22.04", "arch", "nixos-22.05", "Zed", "arch-old", "ubuntu-20.04", ""] {
        distros::create(&mut store, distro(name, "http://x", 5, ""), 1).unwrap();
    }
    let names: Vec<String> = distros::list(&store).into_iter().map(|d| d.name).collect();
    assert_eq!(
        names,
        vec!["", "Zed", "arch", "arch-old", "nixos-22.05", "ubuntu-20.04", "ubuntu-22.04"]
    );
    // the catalog itself keeps the order of insertion
    assert_eq!(store.distros()[0].name, "ubuntu-22.04");
}

#[test]
fn text_order_is_the_order_of_bytes() {
    assert!(le("", ""));
    assert!(le("", "a"));
    assert!(!le("a", ""));
    assert!(le("a", "a"));
    assert!(le("a", "ab"));
    assert!(!le("ab", "a"));
    assert!(le("Z", "a"));
    assert!(!le("b", "a"));
    assert!(le("z", "é"));
    assert!(!le("é", "z"));
}

fn instance(id: u128, name: &str) -> Instance {
    Instance {
        id,
        name: name.to_string(),
        host: "h1".to_string(),
        mac_address: "02:00:00:00:00:01".to_string(),
        memory_mb: 512,
        cpu_count: 2,
        disk_size_gb: 5,
        volume_name: format!("rpool/{}", name),
        distro: "a".to_string(),
        status: "running".to_string(),
        join_network: false,
    }
}

fn seed(id: u128) -> CloudconfigSeed {
    CloudconfigSeed { id, user_data: "data".to_string() }
}

fn event(id: i32, kind: &str, entity: Option<u128>) -> AuditEvent {
    AuditEvent {
        id,
        timestamp: 0,
        kind: kind.to_string(),
        operation: "create".to_string(),
        payload: None,
        entity_id: entity,
        entity_name: None,
    }
}

#[test]
fn rows_are_checked_when_loaded() {
    let good = Store::from_rows(
        vec![instance(1, "a"), instance(2, "b")],
        vec![seed(1), seed(2)],
        vec![distro("a", "u", 1, "f"), distro("b", "u", 1, "f")],
        vec![event(1, "instance", Some(1)), event(2, "distro", None)],
    );
    let store = good.expect("well-formed rows");
    assert_eq!(store.instances().len(), 2);
    assert_eq!(store.audit_log().len(), 2);
    assert!(store.has_room());

    assert!(Store::from_rows(vec![], vec![], vec![], vec![]).is_some());
    // two instances with one id
    assert!(Store::from_rows(
        vec![instance(1, "a"), instance(1, "b")],
        vec![seed(1), seed(1)],
        vec![],
        vec![]
    )
    .is_none());
    // two instances with one name
    assert!(Store::from_rows(
        vec![instance(1, "a"), instance(2, "a")],
        vec![seed(1), seed(2)],
        vec![],
        vec![]
    )
    .is_none());
    // a seed is missing, or in the wrong place
    assert!(Store::from_rows(vec![instance(1, "a")], vec![], vec![], vec![]).is_none());
    assert!(Store::from_rows(
        vec![instance(1, "a"), instance(2, "b")],
        vec![seed(2), seed(1)],
        vec![],
        vec![]
    )
    .is_none());
    // two distros with one name
    assert!(Store::from_rows(
        vec![],
        vec![],
        vec![distro("a", "u", 1, "f"), distro("a", "v", 1, "f")],
        vec![]
    )
    .is_none());
    // audit events out of order
    assert!(Store::from_rows(vec![], vec![], vec![], vec![event(2, "x", None)]).is_none());
    assert!(Store::from_rows(
        vec![],
        vec![],
        vec![],
        vec![event(1, "x", None), event(3, "x", None)]
    )
    .is_none());
}

#[test]
fn audit_log_for_one_instance() {
    let store = Store::from_rows(
        vec![],
        vec![],
        vec![],
        vec![
            event(1, "instance", Some(1)),
            event(2, "distro", None),
            event(3, "instance", Some(2)),
            event(4, "distro", Some(1)),
            event(5, "instance", Some(1)),
            event(6, "instance", None),
        ],
    )
    .unwrap();
    let all: Vec<i32> = audit::list(&store).iter().map(|e| e.id).collect();
    assert_eq!(all, vec![1, 2, 3, 4, 5, 6]);
    let one: Vec<i32> = audit::list_for_instance(1, &store).iter().map(|e| e.id).collect();
    assert_eq!(one, vec![1, 5]);
    let two: Vec<i32> = AuditEvent::get_for_instance(2, &store).iter().map(|e| e.id).collect();
    assert_eq!(two, vec![3]);
    assert!(audit::list_for_instance(9, &store).is_empty());
}
