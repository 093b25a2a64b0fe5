use waifud::api::distros;
use waifud::models::{AuditEvent, Distro};
use waifud::scrape::{self, amazon_linux, arch, nixos, rocky_linux, ubuntu, Rule};
use waifud::store::Store;
use waifud::Error;

fn s(text: &str) -> String {
    text.to_string()
}

fn page(links: &[Option<&str>]) -> String {
    let mut out = s("<html><head><title>Index</title></head><body><h1>Index</h1><pre>");
    for link in links {
        match link {
            Some(href) => out.push_str(&format!("<a href=\"{}\">{}</a>\n", href, href)),
            None => out.push_str("<a name=\"top\">top</a>\n"),
        }
    }
    out.push_str("</pre><p>no link here</p></body></html>");
    out
}

fn message(e: Error) -> String {
    match e {
        Error::Catchall(m) => m,
        other => panic!("unexpected {:?}", other),
    }
}

#[test]
fn references_resolve_against_a_base() {
    assert_eq!(
        scrape::join(&s("https://example.net/a/b.html"), "c.png").unwrap(),
        "https://example.net/a/c.png"
    );
    assert_eq!(
        scrape::join(&s("https://example.net/a/b/"), "../c.png").unwrap(),
        "https://example.net/a/c.png"
    );
    assert_eq!(scrape::join(&s("https://alice.com/a"), "/v1/meta").unwrap(), "https://alice.com/v1/meta");
    assert_eq!(scrape::join(&s("https://alice.com/a"), "http://eve.com/b").unwrap(), "http://eve.com/b");
    assert!(matches!(scrape::join(&s("not an address"), "x"), Err(Error::URL(_))));
}

#[test]
fn present_references_and_rules() {
    let all = vec![Some(s("a.img")), None, Some(s("b.txt")), Some(s("latest-a.img"))];
    let there = scrape::hrefs(&all);
    assert_eq!(there, vec!["a.img", "b.txt", "latest-a.img"]);
    assert_eq!(scrape::keep(&there, &vec![Rule::EndsWith(s(".img"))]), vec!["a.img", "latest-a.img"]);
    assert_eq!(
        scrape::keep(&there, &vec![Rule::EndsWith(s(".img")), Rule::Lacks(s("latest"))]),
        vec!["a.img"]
    );
    assert_eq!(scrape::keep(&there, &vec![Rule::StartsWith(s("b"))]), vec!["b.txt"]);
    assert_eq!(scrape::keep(&there, &vec![Rule::Contains(s("."))]).len(), 3);
    assert_eq!(scrape::keep(&there, &vec![]).len(), 3);
    assert_eq!(scrape::head("abc  file", "  "), "abc");
    assert_eq!(scrape::head("abc", "  "), "abc");
    assert_eq!(scrape::head("", "  "), "");
}

#[test]
fn nixos_table_becomes_distros() {
    let table = vec![
        (s("22.05"), nixos::Metadata { fname: s("nixos-22.05.qcow2"), sha256: s("abc") }),
        (s("unstable"), nixos::Metadata { fname: s("u.qcow2"), sha256: s("def") }),
    ];
    let found = nixos::scrape(&table);
    assert_eq!(found.len(), 2);
    assert_eq!(found[0].name, "nixos-22.05");
    assert_eq!(found[0].download_url, "https://xena.greedo.xeserv.us/pkg/nixos/nixos-22.05.qcow2");
    assert_eq!(found[0].sha256sum, "abc");
    assert_eq!(found[0].min_size_gb, 8);
    assert_eq!(found[0].format, "waifud://qcow2");
    assert_eq!(found[1].name, "nixos-unstable");
    assert_eq!(nixos::url(), "https://xena.greedo.xeserv.us/pkg/nixos/metadata.json");
}

#[test]
fn arch_takes_the_last_directory() {
    assert_eq!(arch::index_url(), "https://geo.mirror.pkgbuild.com/images/");
    let list = page(&[Some("../"), Some("v20220815.75877/"), Some("v20220901.79827/")]);
    let release = arch::release_url(&list).unwrap();
    assert_eq!(release, "https://geo.mirror.pkgbuild.com/images/v20220901.79827/");
    assert_eq!(
        message(arch::release_url(&s("<html><body>nothing</body></html>")).unwrap_err()),
        "can't get last element of Arch image list"
    );
    assert_eq!(
        message(arch::release_url(&page(&[Some("x/"), None])).unwrap_err()),
        "link has no href, how???"
    );

    let dir = page(&[
        Some("../"),
        Some("Arch-Linux-x86_64-basic-20220901.79827.qcow2"),
        Some("Arch-Linux-x86_64-cloudimg-20220901.79827.qcow2"),
        Some("Arch-Linux-x86_64-cloudimg-20220901.79827.qcow2.SHA256"),
        Some("Arch-Linux-x86_64-cloudimg-20220901.79827.qcow2.SHA256.sig"),
        Some("Arch-Linux-x86_64-cloudimg-20220901.79827.qcow2.sig"),
    ]);
    assert_eq!(
        arch::checksum_url(&release, &dir).unwrap(),
        "https://geo.mirror.pkgbuild.com/images/v20220901.79827/Arch-Linux-x86_64-cloudimg-20220901.79827.qcow2.SHA256"
    );
    let sums = s("0123abcd  Arch-Linux-x86_64-cloudimg-20220901.79827.qcow2\n");
    let d = arch::scrape(&release, &dir, &sums).unwrap();
    assert_eq!(d.name, "arch");
    assert_eq!(
        d.download_url,
        "https://geo.mirror.pkgbuild.com/images/v20220901.79827/Arch-Linux-x86_64-cloudimg-20220901.79827.qcow2"
    );
    assert_eq!(d.sha256sum, "0123abcd");
    assert_eq!(d.min_size_gb, 2);
    assert_eq!(d.format, "waifud://qcow2");

    let short = page(&[Some("Arch-Linux-x86_64-cloudimg-1.qcow2")]);
    assert_eq!(
        message(arch::checksum_url(&release, &short).unwrap_err()),
        "wrong number of things in the list, wanted 4"
    );
    assert_eq!(
        message(arch::scrape(&release, &short, &sums).unwrap_err()),
        "wrong number of things in the list, wanted 4"
    );
}

#[test]
fn amazon_follows_the_redirect() {
    assert_eq!(amazon_linux::index_url(), "https://cdn.amazonlinux.com/os-images/latest/kvm/");
    assert_eq!(
        message(amazon_linux::release_url(None).unwrap_err()),
        "why did the redirect not work?"
    );
    let release = amazon_linux::release_url(Some(s(
        "https://cdn.amazonlinux.com/os-images/2.0.20220805.0/kvm/",
    )))
    .unwrap();
    assert_eq!(
        amazon_linux::checksum_url(&release).unwrap(),
        "https://cdn.amazonlinux.com/os-images/2.0.20220805.0/kvm/SHA256SUMS"
    );
    let dir = page(&[
        Some("../"),
        Some("SHA256SUMS"),
        Some("amzn2-kvm-2.0.20220805.0-x86_64.xfs.gpt.qcow2"),
        Some("amzn2-kvm-other.qcow2"),
    ]);
    let d = amazon_linux::scrape(&release, &dir, &s("feed  amzn2-kvm-2.0.qcow2\n")).unwrap();
    assert_eq!(d.name, "amazon-linux-2");
    assert_eq!(
        d.download_url,
        "https://cdn.amazonlinux.com/os-images/2.0.20220805.0/kvm/amzn2-kvm-2.0.20220805.0-x86_64.xfs.gpt.qcow2"
    );
    assert_eq!(d.sha256sum, "feed");
    assert_eq!(d.min_size_gb, 25);
    assert_eq!(
        message(amazon_linux::scrape(&release, &page(&[Some("../")]), &s("")).unwrap_err()),
        "can't get last element of Amazon Linux image list"
    );
}

#[test]
fn ubuntu_takes_the_third_build_from_the_end() {
    let index = ubuntu::index_url(&s("jammy")).unwrap();
    assert_eq!(index, "http://cloud-images.ubuntu.com/daily/server/jammy/");
    let list = page(&[
        Some("/daily/server/"),
        Some("20220830/"),
        Some("20220901/"),
        Some("current/"),
        Some("http://example.net/help"),
    ]);
    let release = ubuntu::release_url(&index, &s("jammy"), &list).unwrap();
    assert_eq!(release, "http://cloud-images.ubuntu.com/daily/server/jammy/20220901/");
    assert_eq!(
        message(ubuntu::release_url(&index, &s("jammy"), &page(&[Some("a/"), Some("b/")])).unwrap_err()),
        "can't get second to last element of image list"
    );
    assert_eq!(
        message(
            ubuntu::release_url(&index, &s("jammy"), &page(&[None, Some("a/"), Some("b/")]))
                .unwrap_err()
        ),
        "link has no href, how???"
    );

    let dir = page(&[
        Some("../"),
        Some("SHA256SUMS"),
        Some("jammy-server-cloudimg-amd64.img"),
        Some("jammy-server-cloudimg-arm64.img"),
        Some("jammy-server-cloudimg-amd64.manifest"),
    ]);
    assert_eq!(
        ubuntu::checksum_url(&release, &dir).unwrap(),
        "http://cloud-images.ubuntu.com/daily/server/jammy/20220901/SHA256SUMS"
    );
    let sums = s("aaaa *jammy-server-cloudimg-arm64.img\nbbbb *jammy-server-cloudimg-amd64.img\nbroken line\ncccc  jammy-server-cloudimg-amd64.img\n");
    let d = ubuntu::scrape(&s("22.04"), &s("jammy"), &release, &dir, &sums).unwrap();
    assert_eq!(d.name, "ubuntu-22.04");
    assert_eq!(
        d.download_url,
        "http://cloud-images.ubuntu.com/daily/server/jammy/20220901/jammy-server-cloudimg-amd64.img"
    );
    assert_eq!(d.sha256sum, "bbbb");
    assert_eq!(d.min_size_gb, 5);
    assert_eq!(d.format, "waifud://qcow2");

    assert_eq!(
        message(ubuntu::scrape(&s("22.04"), &s("jammy"), &release, &dir, &s("nothing")).unwrap_err()),
        "can't find shasum for jammy"
    );
    let bare = page(&[Some("../")]);
    assert_eq!(
        message(ubuntu::checksum_url(&release, &bare).unwrap_err()),
        "can't find the image in the list"
    );
    assert_eq!(
        message(ubuntu::scrape(&s("22.04"), &s("jammy"), &release, &bare, &sums).unwrap_err()),
        "can't find the image in the list"
    );
}

#[test]
fn last_listing_of_a_file_counts() {
    let lines = vec![s("one *f"), s("two *g"), s("three *f"), s("four *f *h"), s("five f")];
    assert_eq!(ubuntu::checksum(&lines, &s("f")).as_deref(), Some("three"));
    assert_eq!(ubuntu::checksum(&lines, &s("g")).as_deref(), Some("two"));
    assert_eq!(ubuntu::checksum(&lines, &s("h")), None);
    assert_eq!(ubuntu::checksum(&vec![], &s("f")), None);
}

#[test]
fn rocky_takes_the_last_dated_image() {
    assert_eq!(
        rocky_linux::index_url(8).unwrap(),
        "http://download.rockylinux.org/pub/rocky/8/images/"
    );
    let index = rocky_linux::index_url(9).unwrap();
    assert_eq!(index, "http://download.rockylinux.org/pub/rocky/9/images/x86_64/");
    let dir = page(&[
        Some("../"),
        Some("CHECKSUM"),
        Some("Rocky-9-GenericCloud-9.0-20220706.0.x86_64.qcow2"),
        Some("Rocky-9-GenericCloud-9.0-20220830.0.x86_64.qcow2"),
        Some("Rocky-9-GenericCloud-9.0-20220830.0.aarch64.qcow2"),
        Some("Rocky-9-GenericCloud.latest.x86_64.qcow2"),
        Some("Rocky-9-Container-9.0-20220830.0.x86_64.tar.xz"),
    ]);
    assert_eq!(
        rocky_linux::checksum_url(&index, &dir).unwrap(),
        "http://download.rockylinux.org/pub/rocky/9/images/x86_64/CHECKSUM"
    );
    let sums = s("# Rocky-9-GenericCloud-9.0-20220830.0.x86_64.qcow2: 100 bytes\nSHA256 (Rocky-9-GenericCloud-9.0-20220830.0.x86_64.qcow2) = f00d\nSHA256 (Rocky-9-GenericCloud-9.0-20220706.0.x86_64.qcow2) = dead\n");
    let d = rocky_linux::scrape(9, &index, &dir, &sums).unwrap();
    assert_eq!(d.name, "rocky-linux-9");
    assert_eq!(
        d.download_url,
        "http://download.rockylinux.org/pub/rocky/9/images/x86_64/Rocky-9-GenericCloud-9.0-20220830.0.x86_64.qcow2"
    );
    assert_eq!(d.sha256sum, "f00d");
    assert_eq!(d.min_size_gb, 10);
    assert_eq!(d.format, "waifud://qcow2");

    let none = rocky_linux::scrape(9, &index, &dir, &s("nothing here")).unwrap();
    assert_eq!(none.sha256sum, "");
    assert_eq!(
        message(rocky_linux::scrape(9, &index, &page(&[Some("../")]), &sums).unwrap_err()),
        "can't get second to last element of image list"
    );
}

#[test]
fn rocky_checksums_by_release() {
    let link = s("Rocky-8-GenericCloud-8.6.x86_64.qcow2");
    let old = s("beef  Rocky-8-GenericCloud-8.6.x86_64.qcow2\ncafe  other.qcow2\nf00d  Rocky-8-GenericCloud-8.6.x86_64.qcow2\n");
    assert_eq!(rocky_linux::checksum(&old, &link, 8), "f00d");
    assert_eq!(rocky_linux::checksum(&old, &link, 9), "");
    let new = s("SHA256 (Rocky-8-GenericCloud-8.6.x86_64.qcow2) = abcd\nSHA256 (Rocky-8-GenericCloud-8.6.x86_64.qcow2)  =  wxyz\n");
    assert_eq!(rocky_linux::checksum(&new, &link, 9), "abcd");
    assert_eq!(rocky_linux::checksum(&new, &link, 8), "");
    assert_eq!(rocky_linux::checksum(&s(""), &link, 9), "");
}

fn distro(name: &str, url: &str) -> Distro {
    Distro {
        name: s(name),
        download_url: s(url),
        sha256sum: s("sum"),
        min_size_gb: 5,
        format: s("waifud://qcow2"),
    }
}

#[test]
fn gathering_keeps_order_and_first_failure() {
    let releases = scrape::ubuntu_releases();
    assert_eq!(
        releases,
        vec![(s("22.04"), s("jammy")), (s("20.04"), s("focal")), (s("18.04"), s("bionic"))]
    );
    let all = scrape::get_all(vec![Ok(distro("arch", "a")), Ok(distro("amazon-linux-2", "b"))]);
    let names: Vec<String> = all.unwrap().into_iter().map(|d| d.name).collect();
    assert_eq!(names, vec!["arch", "amazon-linux-2"]);
    assert!(scrape::get_all(vec![]).unwrap().is_empty());
    let failed = scrape::get_all(vec![
        Ok(distro("arch", "a")),
        Err(Error::Catchall(s("first"))),
        Err(Error::Catchall(s("second"))),
    ]);
    assert_eq!(message(failed.unwrap_err()), "first");
}

#[test]
fn refresh_updates_only_what_the_catalog_has() {
    let mut store = Store::new();
    distros::create(&mut store, distro("arch", "old"), 1).unwrap();
    distros::create(&mut store, distro("other", "kept"), 2).unwrap();
    scrape::refresh(&mut store, &vec![distro("arch", "new"), distro("ubuntu-22.04", "x")], 3)
        .unwrap();
    assert_eq!(store.distros().len(), 2);
    assert_eq!(distros::get(&store, &s("arch")).unwrap().download_url, "new");
    assert_eq!(distros::get(&store, &s("other")).unwrap().download_url, "kept");
    assert!(distros::get(&store, &s("ubuntu-22.04")).is_err());
    let log = AuditEvent::get_all(&store);
    let ops: Vec<(String, Option<String>)> =
        log.into_iter().map(|e| (e.operation, e.entity_name)).collect();
    assert_eq!(
        ops,
        vec![
            (s("create"), Some(s("arch"))),
            (s("create"), Some(s("other"))),
            (s("update"), Some(s("arch"))),
            (s("update"), Some(s("ubuntu-22.04"))),
        ]
    );
    scrape::refresh(&mut store, &vec![], 4).unwrap();
    assert_eq!(AuditEvent::get_all(&store).len(), 4);
}

#[test]
fn picks_among_anchors() {
    let all = vec![
        Some(s("../")),
        None,
        Some(s("Arch-Linux-x86_64-cloudimg-1.qcow2")),
        Some(s("amzn2-kvm-2.0.qcow2")),
        Some(s("jammy-server-cloudimg-amd64.img")),
        Some(s("Rocky-9-GenericCloud-9.0-1.x86_64.qcow2")),
        Some(s("Rocky-9-GenericCloud.latest.x86_64.qcow2")),
        Some(s("end/")),
    ];
    assert_eq!(arch::newest(&all).unwrap(), "end/");
    assert_eq!(arch::files(&all), vec!["Arch-Linux-x86_64-cloudimg-1.qcow2"]);
    assert_eq!(amazon_linux::images(&all), vec!["amzn2-kvm-2.0.qcow2"]);
    assert_eq!(ubuntu::images(&all), vec!["jammy-server-cloudimg-amd64.img"]);
    assert_eq!(rocky_linux::images(&all), vec!["Rocky-9-GenericCloud-9.0-1.x86_64.qcow2"]);
    assert_eq!(
        ubuntu::newest(&all).unwrap().as_deref(),
        Some("Rocky-9-GenericCloud-9.0-1.x86_64.qcow2")
    );
    assert_eq!(ubuntu::newest(&vec![None, Some(s("a")), Some(s("b"))]).unwrap(), None);
    assert!(ubuntu::newest(&vec![Some(s("a")), Some(s("b"))]).is_err());
    assert!(arch::newest(&vec![]).is_err());
    assert!(arch::newest(&vec![Some(s("a")), None]).is_err());
}
