//! What a guest fetches while it boots: its meta data, its user data and
//! its vendor data. The first fetch of the user data marks the instance
//! as running.

use crate::api::instances::{no_instance, store_full, transition, transition_of};
use crate::error::{Error, ErrorView};
use crate::ident::{id_string, id_text};
use crate::models::{opt_text, status_running, Payload, PayloadView};
use crate::namegen::texts;
use crate::store::{Store, StoreView};
use crate::text::join4;
use vstd::prelude::*;
use vstd::string::*;

verus! {

/// A file that cloud-init writes on first boot.
#[derive(Clone, Debug)]
pub struct File {
    pub owner: String,
    pub path: String,
    pub permissions: String,
    pub content: String,
}

/// What a `File` holds, with its texts as sequences of characters.
pub struct FileView {
    pub owner: Seq<char>,
    pub path: Seq<char>,
    pub permissions: Seq<char>,
    pub content: Seq<char>,
}

impl View for File {
    type V = FileView;

    open spec fn view(&self) -> FileView {
        FileView {
            owner: self.owner@,
            path: self.path@,
            permissions: self.permissions@,
            content: self.content@,
        }
    }
}

/// A cloud-init document: files to write and commands to run.
#[derive(Clone, Debug)]
pub struct CloudConfig {
    pub write_files: Vec<File>,
    pub runcmd: Vec<Vec<String>>,
}

/// What a `CloudConfig` holds, with its texts as sequences of characters.
pub struct CloudConfigView {
    pub write_files: Seq<FileView>,
    pub runcmd: Seq<Seq<Seq<char>>>,
}

/// The views of a list of files.
pub open spec fn file_views(list: Seq<File>) -> Seq<FileView> {
    list.map_values(|f: File| f@)
}

/// The views of a list of commands.
pub open spec fn command_views(list: Seq<Vec<String>>) -> Seq<Seq<Seq<char>>> {
    list.map_values(|c: Vec<String>| texts(c@))
}

impl View for CloudConfig {
    type V = CloudConfigView;

    open spec fn view(&self) -> CloudConfigView {
        CloudConfigView {
            write_files: file_views(self.write_files@),
            runcmd: command_views(self.runcmd@),
        }
    }
}

/// A key that lets a machine join the overlay network: its id, and the
/// secret where the network's management interface gave one.
#[derive(Clone, Debug)]
pub struct KeyInfo {
    pub id: String,
    pub key: Option<String>,
}

/// What a `KeyInfo` holds, with its texts as sequences of characters.
pub struct KeyInfoView {
    pub id: Seq<char>,
    pub key: Option<Seq<char>>,
}

impl View for KeyInfo {
    type V = KeyInfoView;

    open spec fn view(&self) -> KeyInfoView {
        KeyInfoView { id: self.id@, key: opt_text(self.key) }
    }
}

/// The view of a key that may be missing.
pub open spec fn opt_key(o: Option<KeyInfo>) -> Option<KeyInfoView> {
    match o {
        Some(k) => Some(k@),
        None => None,
    }
}

/// The vendor data of an instance.
#[derive(Clone, Debug)]
pub enum VendorData {
    /// The fixed document that every instance outside the overlay network
    /// gets.
    Static,
    /// A document made for this instance.
    Config(CloudConfig),
}

/// What a `VendorData` holds, with its texts as sequences of characters.
pub enum VendorDataView {
    Static,
    Config(CloudConfigView),
}

impl View for VendorData {
    type V = VendorDataView;

    open spec fn view(&self) -> VendorDataView {
        match self {
            VendorData::Static => VendorDataView::Static,
            VendorData::Config(c) => VendorDataView::Config(c@),
        }
    }
}

/// The meta data of an instance: its id and its host name.
pub open spec fn meta_data_of(id: u128, name: Seq<char>) -> Seq<char> {
    "instance-id: "@ + id_text(id) + "\nlocal-hostname: "@ + name
}

/// The meta data of the instance with this id.
pub fn meta_data(store: &Store, id: u128) -> (out: Result<String, Error>)
    requires
        store.wf(),
    ensures
        store@.has_instance(id) ==> out is Ok && out->Ok_0@ == meta_data_of(
            id,
            store@.instance(id).name,
        ),
        !store@.has_instance(id) ==> out is Err && out->Err_0@ == no_instance(id),
{
    match store.find_instance(id) {
        None => Err(Error::InstanceNotFound(id_string(id))),
        Some(k) => {
            let text = id_string(id);
            Ok(
                join4(
                    "instance-id: ",
                    text.as_str(),
                    "\nlocal-hostname: ",
                    store.instance_at(k).name.as_str(),
                ),
            )
        },
    }
}

/// A store after the user data was fetched, and the user data.
pub struct Fetched {
    pub store: StoreView,
    pub user_data: Seq<char>,
}

/// What fetching the user data does: the instance becomes `running`, which
/// the audit log records, and its seed is handed out.
pub open spec fn user_data_of(s: StoreView, id: u128, now: i64) -> Result<Fetched, ErrorView> {
    match transition_of(s, id, status_running(), status_running(), now) {
        Ok(t) => Ok(Fetched { store: t.store, user_data: s.seed(id).user_data }),
        Err(e) => Err(e),
    }
}

/// Hands out the user data of the instance with this id and marks the
/// instance as running.
pub fn user_data(store: &mut Store, id: u128, now: i64) -> (out: Result<String, Error>)
    requires
        old(store).wf(),
    ensures
        final(store).wf(),
        match user_data_of(old(store)@, id, now) {
            Ok(f) => out is Ok && out->Ok_0@ == f.user_data && final(store)@ == f.store,
            Err(e) => out is Err && out->Err_0@ == e && final(store)@ == old(store)@,
        },
{
    let row = store.find_instance(id);
    match transition(store, id, "running", "running", now) {
        Err(e) => Err(e),
        Ok(_) => {
            let k = row.unwrap();
            Ok(store.seed_at(k).user_data.clone())
        },
    }
}

/// Whether a distro is one of the Ubuntu releases that get the container
/// tools and the machine tag.
pub open spec fn is_tagged_ubuntu(distro: Seq<char>) -> bool {
    distro == "ubuntu-20.04"@ || distro == "ubuntu-22.04"@
}

/// The greeting that every joined machine shows at login.
pub open spec fn greeting() -> FileView {
    FileView {
        owner: "root:root"@,
        path: "/etc/update-motd.d/69-waifud"@,
        permissions: "0755"@,
        content: "#!/bin/sh\n#\n# This file is written by waifud.\necho \"\"\necho \"Welcome to waifud <3\"\n"@,
    }
}

/// The command that installs the overlay network's client.
pub open spec fn install_command() -> Seq<Seq<char>> {
    seq!["sh"@, "-c"@, "curl -fsSL https://tailscale.com/install.sh | sh"@]
}

/// The command that starts the overlay network's service.
pub open spec fn enable_command() -> Seq<Seq<char>> {
    seq!["systemctl"@, "enable"@, "--now"@, "tailscaled.service"@]
}

/// The command that joins the overlay network with a key.
pub open spec fn up_command(secret: Seq<char>, tagged: bool) -> Seq<Seq<char>> {
    if tagged {
        seq!["tailscale"@, "up"@, "--authkey"@, secret, "--ssh"@, "--advertise-tags=tag:vm"@]
    } else {
        seq!["tailscale"@, "up"@, "--authkey"@, secret, "--ssh"@]
    }
}

/// The command that installs the container tools.
pub open spec fn container_command() -> Seq<Seq<char>> {
    seq!["apt"@, "install"@, "-y"@, "systemd-container"@]
}

/// The document that makes a machine join the overlay network on first
/// boot.
pub open spec fn join_config(distro: Seq<char>, secret: Seq<char>) -> CloudConfigView {
    CloudConfigView {
        write_files: seq![greeting()],
        runcmd: if is_tagged_ubuntu(distro) {
            seq![install_command(), enable_command(), up_command(secret, true), container_command()]
        } else {
            seq![install_command(), enable_command(), up_command(secret, false)]
        },
    }
}

/// The failure of asking for vendor data without the key that it needs.
pub open spec fn no_key() -> ErrorView {
    ErrorView::Tailscale("no key was made"@)
}

/// The failure of a key that came without its secret.
pub open spec fn no_secret() -> ErrorView {
    ErrorView::Tailscale("the key has no secret"@)
}

/// A store after the vendor data was made, and the vendor data.
pub struct Vended {
    pub store: StoreView,
    pub data: VendorDataView,
}

/// What making the vendor data does. An instance that does not join the
/// overlay network gets the fixed document, and nothing changes. One that
/// joins gets a document with the secret of the key that was made for it,
/// and the audit log records the making of the key under the key's id.
pub open spec fn vendor_data_of(s: StoreView, id: u128, key: Option<KeyInfoView>, now: i64)
    -> Result<Vended, ErrorView> {
    if !s.has_instance(id) {
        Err(no_instance(id))
    } else if !s.instance(id).join_network {
        Ok(Vended { store: s, data: VendorDataView::Static })
    } else if key is None {
        Err(no_key())
    } else if key->0.key is None {
        Err(no_secret())
    } else if !s.has_room() {
        Err(store_full())
    } else {
        Ok(
            Vended {
                store: s.log(
                    now,
                    "tailnet authkey"@,
                    "create"@,
                    Some(PayloadView::Raw(key->0.id)),
                    None,
                    None,
                ),
                data: VendorDataView::Config(
                    join_config(s.instance(id).distro, key->0.key->0),
                ),
            },
        )
    }
}

/// Whether the vendor data of the instance with this id needs a key for
/// the overlay network.
pub fn needs_key(store: &Store, id: u128) -> (out: Result<bool, Error>)
    requires
        store.wf(),
    ensures
        store@.has_instance(id) ==> out is Ok && out->Ok_0 == store@.instance(id).join_network,
        !store@.has_instance(id) ==> out is Err && out->Err_0@ == no_instance(id),
{
    match store.find_instance(id) {
        None => Err(Error::InstanceNotFound(id_string(id))),
        Some(k) => Ok(store.instance_at(k).join_network),
    }
}

fn lit(s: &str) -> (out: String)
    ensures
        out@ == s@,
{
    String::from_str(s)
}

fn join_document(distro: &String, secret: &String) -> (out: CloudConfig)
    ensures
        out@ == join_config(distro@, secret@),
{
    let tagged = *distro == lit("ubuntu-20.04") || *distro == lit("ubuntu-22.04");
    let mut write_files: Vec<File> = Vec::new();
    let file = File {
        owner: lit("root:root"),
        path: lit("/etc/update-motd.d/69-waifud"),
        permissions: lit("0755"),
        content: lit(
            "#!/bin/sh\n#\n# This file is written by waifud.\necho \"\"\necho \"Welcome to waifud <3\"\n",
        ),
    };
    write_files.push(file);
    assert(file_views(write_files@) =~= seq![greeting()]);
    let mut install: Vec<String> = Vec::new();
    install.push(lit("sh"));
    install.push(lit("-c"));
    install.push(lit("curl -fsSL https://tailscale.com/install.sh | sh"));
    assert(texts(install@) =~= install_command());
    let mut enable: Vec<String> = Vec::new();
    enable.push(lit("systemctl"));
    enable.push(lit("enable"));
    enable.push(lit("--now"));
    enable.push(lit("tailscaled.service"));
    assert(texts(enable@) =~= enable_command());
    let mut up: Vec<String> = Vec::new();
    up.push(lit("tailscale"));
    up.push(lit("up"));
    up.push(lit("--authkey"));
    up.push(secret.clone());
    up.push(lit("--ssh"));
    if tagged {
        up.push(lit("--advertise-tags=tag:vm"));
    }
    assert(texts(up@) =~= up_command(secret@, tagged));
    let mut runcmd: Vec<Vec<String>> = Vec::new();
    runcmd.push(install);
    runcmd.push(enable);
    runcmd.push(up);
    if tagged {
        let mut container: Vec<String> = Vec::new();
        container.push(lit("apt"));
        container.push(lit("install"));
        container.push(lit("-y"));
        container.push(lit("systemd-container"));
        assert(texts(container@) =~= container_command());
        runcmd.push(container);
    }
    assert(command_views(runcmd@) =~= join_config(distro@, secret@).runcmd);
    CloudConfig { write_files, runcmd }
}

/// Makes the vendor data of the instance with this id. For an instance
/// that joins the overlay network, `key` is the key that was made for it.
pub fn vendor_data(store: &mut Store, id: u128, key: Option<KeyInfo>, now: i64) -> (out: Result<
    VendorData,
    Error,
>)
    requires
        old(store).wf(),
    ensures
        final(store).wf(),
        match vendor_data_of(old(store)@, id, opt_key(key), now) {
            Ok(v) => out is Ok && out->Ok_0@ == v.data && final(store)@ == v.store,
            Err(e) => out is Err && out->Err_0@ == e && final(store)@ == old(store)@,
        },
{
    let k = match store.find_instance(id) {
        None => {
            return Err(Error::InstanceNotFound(id_string(id)));
        },
        Some(k) => k,
    };
    if !store.instance_at(k).join_network {
        return Ok(VendorData::Static);
    }
    let key = match key {
        None => {
            return Err(Error::Tailscale(lit("no key was made")));
        },
        Some(key) => key,
    };
    let secret = match key.key {
        None => {
            return Err(Error::Tailscale(lit("the key has no secret")));
        },
        Some(secret) => secret,
    };
    if !store.has_room() {
        return Err(Error::SQLite(lit("database or disk is full")));
    }
    let document = join_document(&store.instance_at(k).distro, &secret);
    proof {
        old(store)@.lemma_log_wf(
            now,
            "tailnet authkey"@,
            "create"@,
            Some(PayloadView::Raw(key.id@)),
            None,
            None,
        );
    }
    store.log(now, lit("tailnet authkey"), lit("create"), Some(Payload::Raw(key.id)), None, None);
    Ok(VendorData::Config(document))
}

} // verus!
