use waifud::api::distros;
use waifud::api::instances::{self, plan, Operation, Task};
use waifud::config::{Config, Tailscale};
use waifud::ident::id_string;
use waifud::libvirt::NewInstance;
use waifud::models::{AuditEvent, Distro, Instance, Payload};
use waifud::store::Store;
use waifud::workflow::{Action, Command, DomainCall, Event};
use waifud::Error;

const ID: u128 = 0x0123_4567_89ab_4def_8123_4567_89ab_cdef;

fn settings() -> Config {
    Config {
        base_url: "http://waifud.local".to_string(),
        hosts: vec!["h1".to_string()],
        bind_host: "::".to_string(),
        port: 23818,
        rpool_base: "rpool/safe/vms".to_string(),
        qemu_path: String::new(),
        user_data: "seed".to_string(),
        tailscale: Tailscale { api_key: String::new(), tailnet: String::new() },
    }
}

fn store_with_instance() -> (Store, Instance) {
    let mut store = Store::new();
    let distro = Distro {
        name: "test-1".to_string(),
        download_url: "http://x/img.qcow2".to_string(),
        sha256sum: "abc123".to_string(),
        min_size_gb: 5,
        format: "waifud://qcow2".to_string(),
    };
    distros::create(&mut store, distro, 1).unwrap();
    let details = NewInstance {
        name: Some("vm".to_string()),
        memory_mb: None,
        cpus: None,
        host: "h1".to_string(),
        disk_size_gb: None,
        volume_prefix: None,
        distro: "test-1".to_string(),
        sata: None,
        user_data: None,
        join_network: None,
    };
    let (instance, _) = instances::create_with(
        &mut store,
        &settings(),
        details,
        1,
        ID,
        "02:AB:00:00:00:01".to_string(),
        None,
        2,
    )
    .unwrap();
    (store, instance)
}

fn ops(store: &Store) -> Vec<String> {
    AuditEvent::get_all(store).into_iter().map(|e| e.operation).collect()
}

fn run(store: &mut Store, task: &mut Task, first: Action, now: i64) -> (Vec<Action>, Action) {
    let mut seen = Vec::new();
    let mut action = first;
    loop {
        match action {
            Action::Done | Action::Failed(_) => return (seen, action),
            other => {
                seen.push(other);
                action = task.advance(store, &Event::Succeeded, now);
            }
        }
    }
}

fn call_of(action: &Action) -> DomainCall {
    match action {
        Action::Hypervisor { host, id, call } => {
            assert_eq!(host, "h1");
            assert_eq!(*id, ID);
            call.clone()
        }
        other => panic!("unexpected {:?}", other),
    }
}

#[test]
fn start_sets_status_and_records_it() {
    let (mut store, _) = store_with_instance();
    let (mut task, first) = instances::start(&store, ID).unwrap();
    assert_eq!(task.op, Operation::Start);
    let (seen, last) = run(&mut store, &mut task, first, 50);
    assert_eq!(seen.len(), 1);
    assert!(matches!(call_of(&seen[0]), DomainCall::Create));
    assert!(matches!(last, Action::Done));
    assert_eq!(instances::get(&store, ID).unwrap().status, "starting");
    assert_eq!(ops(&store), vec!["create", "create", "start"]);
    let log = AuditEvent::get_all(&store);
    let event = log.last().unwrap();
    assert_eq!(event.id, 3);
    assert_eq!(event.timestamp, 50);
    assert_eq!(event.kind, "instance");
    assert_eq!(event.entity_id, Some(ID));
    assert_eq!(event.entity_name.as_deref(), Some("vm"));
    match &event.payload {
        Some(Payload::Instance(i)) => assert_eq!(i.status, "starting"),
        other => panic!("unexpected {:?}", other),
    }
}

#[test]
fn shutdown_reboot_and_hard_reboot() {
    let (mut store, _) = store_with_instance();

    let (mut task, first) = instances::shutdown(&store, ID).unwrap();
    let (seen, last) = run(&mut store, &mut task, first, 1);
    assert_eq!(seen.len(), 1);
    assert!(matches!(call_of(&seen[0]), DomainCall::Shutdown));
    assert!(matches!(last, Action::Done));
    assert_eq!(instances::get(&store, ID).unwrap().status, "off");

    let (mut task, first) = instances::reboot(&store, ID).unwrap();
    let (seen, _) = run(&mut store, &mut task, first, 2);
    assert_eq!(seen.len(), 1);
    assert!(matches!(call_of(&seen[0]), DomainCall::Reboot));
    assert_eq!(instances::get(&store, ID).unwrap().status, "rebooting");

    let (mut task, first) = instances::shutdown(&store, ID).unwrap();
    run(&mut store, &mut task, first, 3);
    let (mut task, first) = instances::hard_reboot(&store, ID).unwrap();
    let (seen, _) = run(&mut store, &mut task, first, 4);
    assert_eq!(seen.len(), 2);
    assert!(matches!(call_of(&seen[0]), DomainCall::Destroy));
    assert!(matches!(call_of(&seen[1]), DomainCall::Create));
    assert_eq!(instances::get(&store, ID).unwrap().status, "rebooting");

    assert_eq!(
        ops(&store),
        vec!["create", "create", "shutdown", "reboot", "shutdown", "hard_reboot"]
    );
}

#[test]
fn reinit_then_start_keeps_identity() {
    let (mut store, before) = store_with_instance();
    let (mut task, first) = instances::reinit(&store, ID).unwrap();
    let (seen, last) = run(&mut store, &mut task, first, 10);
    assert!(matches!(last, Action::Done));
    assert_eq!(seen.len(), 4);
    assert!(matches!(call_of(&seen[0]), DomainCall::Destroy));
    assert!(matches!(seen[1], Action::Pause { millis: 500 }));
    match &seen[2] {
        Action::Remote { host, command: Command::RollbackVolume { volume, tag } } => {
            assert_eq!(host, "h1");
            assert_eq!(volume, "rpool/safe/vms/vm");
            assert_eq!(tag, "init");
        }
        other => panic!("unexpected {:?}", other),
    }
    assert!(matches!(call_of(&seen[3]), DomainCall::Create));
    assert_eq!(instances::get(&store, ID).unwrap().status, "reinit");

    let (mut task, first) = instances::start(&store, ID).unwrap();
    run(&mut store, &mut task, first, 11);
    let after = instances::get(&store, ID).unwrap();
    assert_eq!(after.id, before.id);
    assert_eq!(after.mac_address, before.mac_address);
    assert_eq!(after.volume_name, before.volume_name);
    assert_eq!(after.name, before.name);
    assert_eq!(after.status, "starting");
    assert_eq!(ops(&store), vec!["create", "create", "reinit", "start"]);
}

#[test]
fn delete_removes_row_and_seed() {
    let (mut store, _) = store_with_instance();
    let (mut task, first) = instances::delete(&store, ID).unwrap();
    let (seen, last) = run(&mut store, &mut task, first, 10);
    assert!(matches!(last, Action::Done));
    assert_eq!(seen.len(), 4);
    assert!(matches!(call_of(&seen[0]), DomainCall::Destroy));
    assert!(matches!(call_of(&seen[1]), DomainCall::Undefine));
    assert!(matches!(seen[2], Action::Pause { millis: 500 }));
    match &seen[3] {
        Action::Remote { host, command: Command::DestroyVolume { volume } } => {
            assert_eq!(host, "h1");
            assert_eq!(volume, "rpool/safe/vms/vm");
        }
        other => panic!("unexpected {:?}", other),
    }
    assert!(instances::list(&store).is_empty());
    assert!(store.seeds().is_empty());
    assert_eq!(ops(&store), vec!["create", "create", "delete"]);
    match &AuditEvent::get_all(&store)[2].payload {
        Some(Payload::Instance(i)) => {
            assert_eq!(i.id, ID);
            assert_eq!(i.status, "init");
        }
        other => panic!("unexpected {:?}", other),
    }
    // the task is over and stays so
    assert!(matches!(task.advance(&mut store, &Event::Succeeded, 11), Action::Done));
    assert_eq!(ops(&store).len(), 3);
}

#[test]
fn delete_of_missing_instance_is_not_found() {
    let (store, _) = store_with_instance();
    let before = ops(&store);
    let missing: u128 = 7;
    match instances::delete(&store, missing) {
        Err(e) => {
            assert_eq!(e.status_code(), 404);
            match e {
                Error::InstanceNotFound(text) => {
                    assert_eq!(text, "00000000-0000-0000-0000-000000000007")
                }
                other => panic!("unexpected {:?}", other),
            }
        }
        Ok(_) => panic!("a missing instance was found"),
    }
    assert_eq!(ops(&store), before);
    assert_eq!(instances::list(&store).len(), 1);
}

#[test]
fn delete_with_failing_destroy_keeps_row_and_seed() {
    let (mut store, _) = store_with_instance();
    let (mut task, first) = instances::delete(&store, ID).unwrap();
    assert!(matches!(call_of(&first), DomainCall::Destroy));
    let next = task.advance(&mut store, &Event::Failed("domain is not running".to_string()), 9);
    match next {
        Action::Failed(Error::Libvirt(m)) => assert_eq!(m, "domain is not running"),
        other => panic!("unexpected {:?}", other),
    }
    assert_eq!(instances::list(&store).len(), 1);
    assert_eq!(instances::get(&store, ID).unwrap().status, "init");
    assert_eq!(store.seeds().len(), 1);
    assert_eq!(store.seeds()[0].id, ID);
    assert_eq!(ops(&store), vec!["create", "create"]);
    // what is over stays over
    assert!(matches!(task.advance(&mut store, &Event::Succeeded, 10), Action::Done));
    assert_eq!(instances::list(&store).len(), 1);
}

#[test]
fn volume_failures_name_the_host() {
    let (mut store, _) = store_with_instance();
    let (mut task, _) = instances::delete(&store, ID).unwrap();
    task.step = 3;
    match task.advance(&mut store, &Event::Failed("busy".to_string()), 1) {
        Action::Failed(Error::VolumeDestroyFailed(host, wrote)) => {
            assert_eq!(host, "h1");
            assert_eq!(wrote, "busy");
        }
        other => panic!("unexpected {:?}", other),
    }
    let (mut task, _) = instances::reinit(&store, ID).unwrap();
    task.step = 2;
    match task.advance(&mut store, &Event::Failed("no snapshot".to_string()), 1) {
        Action::Failed(Error::VolumeRollbackFailed(host, tag, wrote)) => {
            assert_eq!(host, "h1");
            assert_eq!(tag, "init");
            assert_eq!(wrote, "no snapshot");
        }
        other => panic!("unexpected {:?}", other),
    }
    let (mut task, _) = instances::reinit(&store, ID).unwrap();
    task.step = 1;
    match task.advance(&mut store, &Event::Aborted("interrupted".to_string()), 1) {
        Action::Failed(Error::IO(m)) => assert_eq!(m, "interrupted"),
        other => panic!("unexpected {:?}", other),
    }
    assert_eq!(ops(&store), vec!["create", "create"]);
}

#[test]
fn operation_on_vanished_instance_fails_at_commit() {
    let (mut store, _) = store_with_instance();
    let (mut start, _) = instances::start(&store, ID).unwrap();
    let (mut delete, first) = instances::delete(&store, ID).unwrap();
    run(&mut store, &mut delete, first, 1);
    match start.advance(&mut store, &Event::Succeeded, 2) {
        Action::Failed(Error::InstanceNotFound(text)) => assert_eq!(text, id_string(ID)),
        other => panic!("unexpected {:?}", other),
    }
    assert_eq!(ops(&store), vec!["create", "create", "delete"]);
}

#[test]
fn plans_have_their_lengths() {
    let (_, instance) = store_with_instance();
    assert_eq!(plan(Operation::Start, &instance).len(), 1);
    assert_eq!(plan(Operation::Shutdown, &instance).len(), 1);
    assert_eq!(plan(Operation::Reboot, &instance).len(), 1);
    assert_eq!(plan(Operation::HardReboot, &instance).len(), 2);
    assert_eq!(plan(Operation::Reinit, &instance).len(), 4);
    assert_eq!(plan(Operation::Delete, &instance).len(), 4);
}

#[test]
fn lookups_by_id_and_name() {
    let (store, instance) = store_with_instance();
    assert_eq!(instances::get_by_name(&store, &"vm".to_string()).unwrap().id, ID);
    assert_eq!(Instance::from_uuid(&store, ID).unwrap().name, "vm");
    assert_eq!(Instance::from_name(&store, &instance.name).unwrap().id, ID);
    match instances::get_by_name(&store, &"other".to_string()) {
        Err(Error::InstanceNotFound(n)) => assert_eq!(n, "other"),
        other => panic!("unexpected {:?}", other),
    }
    match instances::get_machine(&store, ID).unwrap() {
        Action::Hypervisor { host, id, call: DomainCall::Inspect } => {
            assert_eq!(host, "h1");
            assert_eq!(id, ID);
        }
        other => panic!("unexpected {:?}", other),
    }
    assert!(instances::get_machine(&store, 1).is_err());
}
