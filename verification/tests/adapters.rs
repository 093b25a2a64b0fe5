use waifud::ident::{fresh_id, id_string};
use waifud::libvirt::{local_mac, random_mac};
use waifud::namegen;
use waifud::workflow::{hypervisor_uri, Action, Command, Event};
use waifud::api::instances::failure;
use waifud::Error;

fn argv(command: Command) -> Vec<String> {
    command.argv(&"host-1".to_string())
}

#[test]
fn identifier_text_is_hyphenated_lower_hex() {
    assert_eq!(id_string(0), "00000000-0000-0000-0000-000000000000");
    assert_eq!(
        id_string(0xa1a2a3a4_b1b2_c1c2_d1d2_d3d4d5d6d7d8),
        "a1a2a3a4-b1b2-c1c2-d1d2-d3d4d5d6d7d8"
    );
    assert_eq!(id_string(u128::MAX), "ffffffff-ffff-ffff-ffff-ffffffffffff");
    assert_eq!(
        id_string(0x0123_4567_89AB_CDEF_0123_4567_89AB_CDEF),
        "01234567-89ab-cdef-0123-456789abcdef"
    );
    assert_eq!(id_string(1), "00000000-0000-0000-0000-000000000001");
}

#[test]
fn fresh_ids_are_random_version_four() {
    let a = fresh_id();
    let b = fresh_id();
    assert_ne!(a, 0);
    assert_ne!(a, b);
    for id in [a, b] {
        assert_eq!(id & 0x0000_0000_0000_f000_c000_0000_0000_0000, 0x4000_8000_0000_0000_0000);
        let text = id_string(id);
        assert_eq!(text.len(), 36);
        assert_eq!(text.as_bytes()[14], b'4');
    }
}

#[test]
fn hardware_address_is_upper_hex_with_colons() {
    assert_eq!(local_mac([0x02, 0x00, 0x5e, 0x10, 0xab, 0xff]), "02:00:5E:10:AB:FF");
    // the first byte is forced to be locally administered and unicast
    assert_eq!(local_mac([0x00, 1, 2, 3, 4, 5]), "02:01:02:03:04:05");
    assert_eq!(local_mac([0x01, 1, 2, 3, 4, 5]), "02:01:02:03:04:05");
    assert_eq!(local_mac([0xff, 0x0a, 0xa0, 0, 9, 0x10]), "FE:0A:A0:00:09:10");
    assert_eq!(local_mac([0xac, 0, 0, 0, 0, 0]), "AE:00:00:00:00:00");
}

#[test]
fn random_hardware_address_is_local_unicast() {
    for _ in 0..32 {
        let mac = random_mac();
        assert_eq!(mac.len(), 17);
        let bytes = mac.as_bytes();
        for (i, b) in bytes.iter().enumerate() {
            if i % 3 == 2 {
                assert_eq!(*b, b':');
            } else {
                assert!(b.is_ascii_digit() || (b'A'..=b'F').contains(b));
            }
        }
        assert!([b'2', b'6', b'A', b'E'].contains(&bytes[1]));
    }
}

#[test]
fn names_are_picked_by_remainder() {
    let list = vec!["a".to_string(), "b".to_string(), "c".to_string()];
    assert_eq!(namegen::pick(&list, 0).as_deref(), Some("a"));
    assert_eq!(namegen::pick(&list, 4).as_deref(), Some("b"));
    assert_eq!(namegen::pick(&list, 8).as_deref(), Some("c"));
    assert_eq!(namegen::pick(&list, usize::MAX), Some(list[usize::MAX % 3].clone()));
    assert_eq!(namegen::pick(&vec![], 3), None);
}

#[test]
fn names_come_from_the_document() {
    assert_eq!(namegen::next(&b"[\"mara\"]".to_vec()).as_deref(), Some("mara"));
    assert_eq!(namegen::next(&b" [ \"a\\u0062\" ] ".to_vec()).as_deref(), Some("ab"));
    for _ in 0..16 {
        let name = namegen::next(&b"[\"x\", \"y\"]".to_vec()).unwrap();
        assert!(name == "x" || name == "y");
    }
    assert_eq!(namegen::next(&b"[]".to_vec()), None);
    assert_eq!(namegen::next(&b"[1, 2]".to_vec()), None);
    assert_eq!(namegen::next(&b"\"mara\"".to_vec()), None);
    assert_eq!(namegen::next(&Vec::new()), None);
}

#[test]
fn commands_have_their_arguments() {
    assert_eq!(Command::program(), "ssh");
    assert_eq!(
        argv(Command::StatImage { sha256sum: "abc".to_string() }),
        vec![
            "-oStrictHostKeyChecking=accept-new",
            "host-1",
            "stat",
            "$HOME/.cache/within/mkvm/qcow2/abc"
        ]
    );
    assert_eq!(
        argv(Command::FetchImage { sha256sum: "abc".to_string(), url: "http://x/i".to_string() }),
        vec!["host-1", "wget", "-O", "$HOME/.cache/within/mkvm/qcow2/abc", "http://x/i"]
    );
    assert_eq!(
        argv(Command::RemoveImage { sha256sum: "abc".to_string() }),
        vec![
            "-oStrictHostKeyChecking=accept-new",
            "host-1",
            "rm",
            "$HOME/.cache/within/mkvm/qcow2/abc"
        ]
    );
    assert_eq!(
        argv(Command::CreateVolume { volume: "rpool/vms/a".to_string(), size_gb: 25 }),
        vec![
            "-oStrictHostKeyChecking=accept-new",
            "host-1",
            "sudo",
            "zfs",
            "create",
            "-V",
            "25G",
            "rpool/vms/a"
        ]
    );
    assert_eq!(
        argv(Command::HydrateVolume {
            sha256sum: "abc".to_string(),
            volume: "rpool/vms/a".to_string()
        }),
        vec![
            "-oStrictHostKeyChecking=accept-new",
            "host-1",
            "sudo",
            "qemu-img",
            "convert",
            "-O",
            "raw",
            "$HOME/.cache/within/mkvm/qcow2/abc",
            "/dev/zvol/rpool/vms/a"
        ]
    );
    assert_eq!(
        argv(Command::SnapshotVolume { volume: "rpool/vms/a".to_string(), tag: "init".to_string() }),
        vec![
            "-oStrictHostKeyChecking=accept-new",
            "host-1",
            "sudo",
            "zfs",
            "snapshot",
            "rpool/vms/a@init"
        ]
    );
    assert_eq!(
        argv(Command::RollbackVolume { volume: "rpool/vms/a".to_string(), tag: "init".to_string() }),
        vec!["host-1", "sudo", "zfs", "rollback", "rpool/vms/a@init"]
    );
    assert_eq!(
        argv(Command::DestroyVolume { volume: "rpool/vms/a".to_string() }),
        vec!["host-1", "sudo", "zfs", "destroy", "-rf", "rpool/vms/a"]
    );
    assert_eq!(hypervisor_uri(&"logos".to_string()), "qemu+ssh://root@logos/system");
}

#[test]
fn failures_have_messages_and_statuses() {
    let cases: Vec<(Error, u16, &str, &str)> = vec![
        (Error::Unauthorized, 401, "insufficient authorization to perform this action", "you lack authorization"),
        (Error::Libvirt("no domain".into()), 500, "libvirt error: no domain", "no domain"),
        (Error::Dhall("bad".into()), 400, "dhall parsing error: bad", "bad"),
        (Error::SQLite("locked".into()), 500, "database error: locked", "locked"),
        (Error::NotFound, 404, "404 not found", "404 not found"),
        (Error::HostUnreachable("h".into()), 404, "host h doesn't exist", "host h doesn't exist"),
        (Error::InstanceNotFound("i".into()), 404, "instance i doesn't exist", "instance i doesn't exist"),
        (Error::DistroNotFound("d".into()), 404, "distro d doesn't exist", "distro d doesn't exist"),
        (Error::ImageDownloadFailed("u".into(), "e".into()), 500, "can't download u:\n\ne", "can't download u:\n\ne"),
        (Error::VolumeCreateFailed("h".into(), "e".into()), 500, "can't create zfs zvol on h:\n\ne", "can't create zfs zvol on h:\n\ne"),
        (Error::VolumeDestroyFailed("h".into(), "e".into()), 500, "can't delete zfs zvol on h:\n\ne", "can't delete zfs zvol on h:\n\ne"),
        (Error::VolumeRollbackFailed("h".into(), "init".into(), "e".into()), 500, "can't rollback zfs zvol to snapshot init on h:\n\ne", "can't rollback zfs zvol to snapshot init on h:\n\ne"),
        (Error::VolumeHydrateFailed("h".into(), "e".into()), 500, "can't hydrate zfs zvol on h:\n\ne", "can't hydrate zfs zvol on h:\n\ne"),
        (Error::SnapshotFailed("h".into(), "e".into()), 500, "can't create zfs init snapshot on h:\n\ne", "can't create zfs init snapshot on h:\n\ne"),
        (Error::DomainDefineFailed("h".into(), "e".into()), 500, "can't define domain on h:\n\ne", "can't define domain on h:\n\ne"),
        (Error::DomainStartFailed("h".into(), "e".into()), 500, "can't start domain on h:\n\ne", "can't start domain on h:\n\ne"),
        (Error::BadMiddlewareStack, 500, "internal middleware logic error", "internal middleware logic error"),
        (Error::CantMakeToken("t".into()), 500, "can't make token: t", "can't make token: t"),
        (Error::Json("j".into()), 500, "json parsing error: j", "json parsing error: j"),
        (Error::YAML("y".into()), 500, "yaml error: y", "yaml error: y"),
        (Error::SQLitePool("p".into()), 500, "database pool error: p", "database pool error: p"),
        (Error::TokioJoin("t".into()), 500, "internal tokio error: t", "internal tokio error: t"),
        (Error::Hyper("h".into()), 500, "hyper error: h", "hyper error: h"),
        (Error::AddrParse("a".into()), 500, "address parse error: a", "address parse error: a"),
        (Error::IO("i".into()), 500, "io error: i", "io error: i"),
        (Error::Reqwest("r".into()), 500, "reqwest error: r", "reqwest error: r"),
        (Error::URL("u".into()), 500, "url error: u", "url error: u"),
        (Error::Tailscale("t".into()), 500, "tailscale error: t", "tailscale error: t"),
        (Error::Catchall("c".into()), 500, "other error: c", "other error: c"),
        (Error::Anyhow("a".into()), 500, "a", "a"),
        (Error::Hex("h".into()), 500, "hex decode error: h", "hex decode error: h"),
        (Error::RingKeyPairRejected("k".into()), 500, "key pair rejected: k", "key pair rejected: k"),
        (Error::Yubico("y".into()), 500, "yubikey OTP error: y", "yubikey OTP error: y"),
        (Error::TailscaledLocalAPI("l".into()), 500, "tailscaled localapi error: l", "tailscaled localapi error: l"),
    ];
    for (error, status, message, body) in cases {
        assert_eq!(error.message(), message);
        assert_eq!(error.status_code(), status);
        assert_eq!(error.duplicate().message(), message);
        let (code, text) = error.into_response();
        assert_eq!(code, status);
        assert_eq!(text, body);
    }
}

#[test]
fn a_success_is_no_failure_of_its_own() {
    let action = Action::Pause { millis: 500 };
    assert!(matches!(failure(&action, &Event::Succeeded), Error::Catchall(_)));
    match failure(&action, &Event::Failed("late".to_string())) {
        Error::IO(m) => assert_eq!(m, "late"),
        other => panic!("unexpected {:?}", other),
    }
}

#[test]
fn combined_words_are_sorted_and_unique() {
    let words: Vec<String> =
        ["zeke", "mara", "nia", "mara", "Mara", "", "nia", "alvis"].iter().map(|s| s.to_string()).collect();
    let mut want = words.clone();
    want.sort();
    want.dedup();
    assert_eq!(waifud::rotbart::combined(&words), want);
    assert!(waifud::rotbart::combined(&vec![]).is_empty());
}

#[test]
fn monsters_have_two_words() {
    let adjectives = vec!["sassy".to_string(), "dry".to_string()];
    let nouns = vec!["clocks".to_string()];
    for _ in 0..16 {
        let name = waifud::rotbart::unique_monster(&adjectives, &nouns).unwrap();
        assert!(name == "sassy-clocks" || name == "dry-clocks");
    }
    assert_eq!(waifud::rotbart::unique_monster(&vec![], &nouns), None);
    assert_eq!(waifud::rotbart::unique_monster(&adjectives, &vec![]), None);
}
