use waifud::api::distros;
use waifud::api::instances::{self, make_instance, Provision, Stage};
use waifud::config::{Config, Tailscale};
use waifud::libvirt::NewInstance;
use waifud::models::{AuditEvent, Distro, Instance, Payload};
use waifud::store::Store;
use waifud::workflow::{Action, Command, DomainCall, Event};
use waifud::Error;

fn config() -> Config {
    Config {
        base_url: "http://waifud.local".to_string(),
        hosts: vec!["h1".to_string(), "h2".to_string()],
        bind_host: "::".to_string(),
        port: 23818,
        rpool_base: "rpool/safe/vms".to_string(),
        qemu_path: "/usr/bin/qemu-system-x86_64".to_string(),
        user_data: "#cloud-config\n".to_string(),
        tailscale: Tailscale { api_key: "SECRET-REDACTED".to_string(), tailnet: "example.org".to_string() },
    }
}

fn test_distro() -> Distro {
    Distro {
        name: "test-1".to_string(),
        download_url: "http://x/img.qcow2".to_string(),
        sha256sum: "abc123".to_string(),
        min_size_gb: 5,
        format: String::new(),
    }
}

fn request(host: &str, distro: &str) -> NewInstance {
    NewInstance {
        name: None,
        memory_mb: None,
        cpus: None,
        host: host.to_string(),
        disk_size_gb: None,
        volume_prefix: None,
        distro: distro.to_string(),
        sata: None,
        user_data: None,
        join_network: None,
    }
}

fn names() -> Vec<u8> {
    b"[\"mara\", \"shion\", \"kos-mos\"]".to_vec()
}

fn created(store: &mut Store) -> (Instance, Provision) {
    distros::create(store, test_distro(), 10).unwrap();
    instances::create(store, &config(), request("h1", "test-1"), 1, &names(), 20).unwrap()
}

fn operations(store: &Store) -> Vec<String> {
    AuditEvent::get_all(store).into_iter().map(|e| e.operation).collect()
}

fn remote(action: &Action) -> (String, Command) {
    match action {
        Action::Remote { host, command } => (host.clone(), command.clone()),
        other => panic!("expected a remote command, got {:?}", other),
    }
}

#[test]
fn create_distro_then_instance() {
    let mut store = Store::new();
    let (instance, job) = created(&mut store);
    assert_eq!(instance.disk_size_gb, 5);
    assert_eq!(instance.status, "init");
    assert_eq!(instance.distro, "test-1");
    assert_eq!(instance.host, "h1");
    assert_eq!(instance.memory_mb, 512);
    assert_eq!(instance.cpu_count, 2);
    assert!(!instance.join_network);
    assert!(["mara", "shion", "kos-mos"].contains(&instance.name.as_str()));
    assert_eq!(instance.volume_name, format!("rpool/safe/vms/{}", instance.name));
    assert_ne!(instance.id, 0);
    assert_eq!(job.stage, Stage::CheckImage);
    assert_eq!(job.distro.format, "waifud://qcow2");
    let stored = instances::get(&store, instance.id).unwrap();
    assert_eq!(stored.name, instance.name);
    assert_eq!(stored.status, "init");
    assert_eq!(store.seeds().len(), 1);
    assert_eq!(store.seeds()[0].id, instance.id);
    assert_eq!(store.seeds()[0].user_data, "#cloud-config\n");
    assert_eq!(operations(&store), vec!["create", "create"]);
}

#[test]
fn created_instance_has_fresh_id_and_init_status() {
    let mut store = Store::new();
    distros::create(&mut store, test_distro(), 1).unwrap();
    let mut seen: Vec<u128> = Vec::new();
    for k in 0..3 {
        let mut details = request("h1", "test-1");
        details.name = Some(format!("vm-{}", k));
        let (instance, _) =
            instances::create(&mut store, &config(), details, 2, &names(), 5).unwrap();
        assert_ne!(instance.id, 0);
        assert!(!seen.contains(&instance.id));
        assert_eq!(instance.status, "init");
        // version 4, variant of RFC 4122
        assert_eq!((instance.id >> 76) & 0xf, 4);
        assert_eq!((instance.id >> 62) & 0x3, 2);
        seen.push(instance.id);
    }
    assert_eq!(instances::list(&store).len(), 3);
}

#[test]
fn generated_name_is_not_taken() {
    let mut store = Store::new();
    distros::create(&mut store, test_distro(), 1).unwrap();
    let one = b"[\"only\"]".to_vec();
    let (first, _) =
        instances::create(&mut store, &config(), request("h1", "test-1"), 1, &one, 2).unwrap();
    assert_eq!(first.name, "only");
    // the only candidate is taken now: the request is refused, nothing is added
    let second = instances::create(&mut store, &config(), request("h1", "test-1"), 1, &one, 3);
    match second {
        Err(Error::SQLite(m)) => assert_eq!(m, "UNIQUE constraint failed: instances.name"),
        other => panic!("unexpected {:?}", other),
    }
    assert_eq!(instances::list(&store).len(), 1);
    assert_eq!(operations(&store), vec!["create", "create"]);
}

#[test]
fn request_without_name_needs_candidates() {
    let mut store = Store::new();
    distros::create(&mut store, test_distro(), 1).unwrap();
    for doc in [b"[]".to_vec(), b"not json".to_vec(), b"{\"a\": 1}".to_vec()] {
        let out = instances::create(&mut store, &config(), request("h1", "test-1"), 1, &doc, 2);
        match out {
            Err(Error::Catchall(m)) => assert_eq!(m, "no name is left to give"),
            other => panic!("unexpected {:?}", other),
        }
    }
    assert!(instances::list(&store).is_empty());
}

#[test]
fn missing_disk_size_takes_distro_minimum() {
    let mut store = Store::new();
    let mut big = test_distro();
    big.name = "big".to_string();
    big.min_size_gb = 25;
    distros::create(&mut store, big, 1).unwrap();
    let (a, _) =
        instances::create(&mut store, &config(), request("h1", "big"), 1, &names(), 2).unwrap();
    assert_eq!(a.disk_size_gb, 25);
    let mut details = request("h1", "big");
    details.disk_size_gb = Some(3);
    details.name = Some("small".to_string());
    let (b, _) = instances::create(&mut store, &config(), details, 1, &names(), 3).unwrap();
    assert_eq!(b.disk_size_gb, 3);
}

#[test]
fn request_values_override_defaults() {
    let mut store = Store::new();
    distros::create(&mut store, test_distro(), 1).unwrap();
    let details = NewInstance {
        name: Some("vm".to_string()),
        memory_mb: Some(2048),
        cpus: Some(8),
        host: "h2".to_string(),
        disk_size_gb: Some(40),
        volume_prefix: Some("tank/vms".to_string()),
        distro: "test-1".to_string(),
        sata: Some(true),
        user_data: Some("hello".to_string()),
        join_network: Some(true),
    };
    let (i, job) = instances::create_with(
        &mut store,
        &config(),
        details,
        1,
        0xa1a2a3a4_b1b2_c1c2_d1d2_d3d4d5d6d7d8,
        "02:00:00:00:00:01".to_string(),
        Some("ignored".to_string()),
        7,
    )
    .unwrap();
    assert_eq!(i.id, 0xa1a2a3a4_b1b2_c1c2_d1d2_d3d4d5d6d7d8);
    assert_eq!(i.name, "vm");
    assert_eq!(i.memory_mb, 2048);
    assert_eq!(i.cpu_count, 8);
    assert_eq!(i.disk_size_gb, 40);
    assert_eq!(i.volume_name, "tank/vms/vm");
    assert_eq!(i.mac_address, "02:00:00:00:00:01");
    assert!(i.join_network);
    assert!(job.sata);
    assert_eq!(job.base_url, "http://waifud.local");
    assert_eq!(store.seeds()[0].user_data, "hello");
    let log = AuditEvent::get_all(&store);
    let event = &log[1];
    assert_eq!(event.id, 2);
    assert_eq!(event.timestamp, 7);
    assert_eq!(event.kind, "instance");
    assert_eq!(event.operation, "create");
    assert_eq!(event.entity_id, Some(i.id));
    assert_eq!(event.entity_name.as_deref(), Some("vm"));
    match &event.payload {
        Some(Payload::Instance(p)) => {
            assert_eq!(p.name, "vm");
            assert_eq!(p.status, "init");
        }
        other => panic!("unexpected {:?}", other),
    }
}

#[test]
fn unreachable_host_is_refused_first() {
    let mut store = Store::new();
    let out = instances::create(&mut store, &config(), request("nowhere", "nothing"), 0, &names(), 1);
    match out {
        Err(Error::HostUnreachable(h)) => assert_eq!(h, "nowhere"),
        other => panic!("unexpected {:?}", other),
    }
    assert!(AuditEvent::get_all(&store).is_empty());
}

#[test]
fn unknown_distro_is_refused() {
    let mut store = Store::new();
    let out = instances::create(&mut store, &config(), request("h1", "nothing"), 1, &names(), 1);
    match out {
        Err(Error::DistroNotFound(d)) => assert_eq!(d, "nothing"),
        other => panic!("unexpected {:?}", other),
    }
    assert!(instances::list(&store).is_empty());
    assert!(AuditEvent::get_all(&store).is_empty());
}

#[test]
fn taken_id_is_refused() {
    let mut store = Store::new();
    distros::create(&mut store, test_distro(), 1).unwrap();
    let mut a = request("h1", "test-1");
    a.name = Some("a".to_string());
    instances::create_with(&mut store, &config(), a, 1, 42, "m".to_string(), None, 1).unwrap();
    let mut b = request("h1", "test-1");
    b.name = Some("b".to_string());
    let out = instances::create_with(&mut store, &config(), b, 1, 42, "m".to_string(), None, 1);
    match out {
        Err(Error::SQLite(m)) => assert_eq!(m, "UNIQUE constraint failed: instances.uuid"),
        other => panic!("unexpected {:?}", other),
    }
    assert_eq!(instances::list(&store).len(), 1);
}

#[test]
fn image_fetch_failure_stops_at_downloading() {
    let mut store = Store::new();
    let (instance, mut job) = created(&mut store);
    let (host, command) = remote(&job.action());
    assert_eq!(host, "h1");
    assert!(matches!(command, Command::StatImage { ref sha256sum } if sha256sum == "abc123"));

    // the host does not have the image
    let next = make_instance(&mut store, &mut job, &Event::Failed(String::new()), 30);
    let (_, command) = remote(&next);
    match command {
        Command::FetchImage { sha256sum, url } => {
            assert_eq!(sha256sum, "abc123");
            assert_eq!(url, "http://x/img.qcow2");
        }
        other => panic!("unexpected {:?}", other),
    }
    assert_eq!(instances::get(&store, instance.id).unwrap().status, "downloading image");

    // the fetch fails
    let next = make_instance(&mut store, &mut job, &Event::Failed("404 Not Found".to_string()), 31);
    let (_, command) = remote(&next);
    assert!(matches!(command, Command::RemoveImage { ref sha256sum } if sha256sum == "abc123"));

    // whatever the cleaning does, the workflow is over
    let next = make_instance(&mut store, &mut job, &Event::Succeeded, 32);
    match next {
        Action::Failed(Error::ImageDownloadFailed(url, wrote)) => {
            assert_eq!(url, "http://x/img.qcow2");
            assert_eq!(wrote, "404 Not Found");
        }
        other => panic!("unexpected {:?}", other),
    }
    assert_eq!(job.stage, Stage::Finished);
    assert!(matches!(make_instance(&mut store, &mut job, &Event::Succeeded, 33), Action::Done));

    assert_eq!(instances::get(&store, instance.id).unwrap().status, "downloading image");
    let ops = operations(&store);
    assert_eq!(ops.iter().filter(|o| o.as_str() == "downloading image").count(), 1);
    assert_eq!(ops.iter().filter(|o| o.as_str() == "running").count(), 0);
    assert_eq!(ops, vec!["create", "create", "downloading image"]);
}

#[test]
fn provisioning_with_cached_image_runs_to_the_end() {
    let mut store = Store::new();
    let (instance, mut job) = created(&mut store);
    let volume = instance.volume_name.clone();

    let next = make_instance(&mut store, &mut job, &Event::Succeeded, 30);
    match remote(&next).1 {
        Command::CreateVolume { volume: v, size_gb } => {
            assert_eq!(v, volume);
            assert_eq!(size_gb, 5);
        }
        other => panic!("unexpected {:?}", other),
    }
    assert_eq!(instances::get(&store, instance.id).unwrap().status, "init");

    let next = make_instance(&mut store, &mut job, &Event::Succeeded, 31);
    assert!(matches!(remote(&next).1, Command::HydrateVolume { .. }));
    assert_eq!(instances::get(&store, instance.id).unwrap().status, "hydrating volume");

    let next = make_instance(&mut store, &mut job, &Event::Succeeded, 32);
    match remote(&next).1 {
        Command::SnapshotVolume { volume: v, tag } => {
            assert_eq!(v, volume);
            assert_eq!(tag, "init");
        }
        other => panic!("unexpected {:?}", other),
    }

    let next = make_instance(&mut store, &mut job, &Event::Succeeded, 33);
    match next {
        Action::Hypervisor { host, id, call: DomainCall::Define(spec) } => {
            assert_eq!(host, "h1");
            assert_eq!(id, instance.id);
            assert_eq!(spec.name, instance.name);
            assert_eq!(spec.id, instance.id);
            assert_eq!(spec.mac_address, instance.mac_address);
            assert_eq!(spec.volume, volume);
            assert!(!spec.sata);
            assert_eq!(spec.memory_kb, 512 * 1024);
            assert_eq!(spec.cpus, 2);
            assert_eq!(
                spec.callback_url,
                format!(
                    "http://waifud.local/api/cloudinit/{}/",
                    waifud::ident::id_string(instance.id)
                )
            );
        }
        other => panic!("unexpected {:?}", other),
    }

    let next = make_instance(&mut store, &mut job, &Event::Succeeded, 34);
    assert!(matches!(next, Action::Hypervisor { call: DomainCall::Create, .. }));
    assert_eq!(instances::get(&store, instance.id).unwrap().status, "hydrating volume");

    let next = make_instance(&mut store, &mut job, &Event::Succeeded, 35);
    assert!(matches!(next, Action::Done));
    assert_eq!(job.stage, Stage::Finished);
    assert_eq!(instances::get(&store, instance.id).unwrap().status, "waiting for cloud-init");
    assert_eq!(
        operations(&store),
        vec!["create", "create", "hydrating volume", "waiting for cloud-init"]
    );
}

#[test]
fn provisioning_after_download_goes_on_to_the_volume() {
    let mut store = Store::new();
    let (_, mut job) = created(&mut store);
    make_instance(&mut store, &mut job, &Event::Failed(String::new()), 1);
    assert_eq!(job.stage, Stage::FetchImage);
    let next = make_instance(&mut store, &mut job, &Event::Succeeded, 2);
    assert!(matches!(remote(&next).1, Command::CreateVolume { .. }));
}

#[test]
fn each_remote_failure_has_its_error() {
    let stages = [
        Stage::CreateVolume,
        Stage::HydrateVolume,
        Stage::SnapshotVolume,
        Stage::DefineDomain,
        Stage::StartDomain,
    ];
    for stage in stages {
        let mut store = Store::new();
        let (instance, mut job) = created(&mut store);
        job.stage = stage;
        let before = operations(&store);
        let next = make_instance(&mut store, &mut job, &Event::Failed("boom".to_string()), 9);
        let error = match next {
            Action::Failed(e) => e,
            other => panic!("unexpected {:?}", other),
        };
        match (stage, error) {
            (Stage::CreateVolume, Error::VolumeCreateFailed(h, e))
            | (Stage::HydrateVolume, Error::VolumeHydrateFailed(h, e))
            | (Stage::SnapshotVolume, Error::SnapshotFailed(h, e))
            | (Stage::DefineDomain, Error::DomainDefineFailed(h, e))
            | (Stage::StartDomain, Error::DomainStartFailed(h, e)) => {
                assert_eq!(h, "h1");
                assert_eq!(e, "boom");
            }
            (s, e) => panic!("stage {:?} gave {:?}", s, e),
        }
        assert_eq!(job.stage, Stage::Finished);
        assert_eq!(operations(&store), before);
        assert_eq!(instances::get(&store, instance.id).unwrap().status, "init");
    }
}

#[test]
fn an_action_that_cannot_run_is_an_io_failure() {
    let mut store = Store::new();
    let (_, mut job) = created(&mut store);
    let next = make_instance(&mut store, &mut job, &Event::Aborted("no ssh".to_string()), 9);
    match next {
        Action::Failed(Error::IO(m)) => assert_eq!(m, "no ssh"),
        other => panic!("unexpected {:?}", other),
    }
    assert_eq!(job.stage, Stage::Finished);
}

#[test]
fn provisioning_of_a_deleted_instance_fails_at_the_next_status() {
    let mut store = Store::new();
    let (instance, mut job) = created(&mut store);
    let (mut task, _) = instances::delete(&store, instance.id).unwrap();
    for _ in 0..4 {
        task.advance(&mut store, &Event::Succeeded, 40);
    }
    assert!(instances::get(&store, instance.id).is_err());
    let next = make_instance(&mut store, &mut job, &Event::Failed(String::new()), 41);
    match next {
        Action::Failed(Error::InstanceNotFound(text)) => {
            assert_eq!(text, waifud::ident::id_string(instance.id))
        }
        other => panic!("unexpected {:?}", other),
    }
}
