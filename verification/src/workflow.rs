//! What a workflow asks of the world and what the world answers: remote
//! commands, hypervisor calls and pauses on one side, their outcomes on
//! the other. The caller of a workflow performs each action and hands the
//! outcome back.

use crate::error::{Error, ErrorView};
use crate::namegen::texts;
use crate::text::{int_string, int_text, join2, join3};
use vstd::prelude::*;
use vstd::string::*;

verus! {

/// An operation of the volume manager or of the image cache on a host, run
/// there as one command over the secure shell.
#[derive(Clone, Debug)]
pub enum Command {
    /// Asks whether the image with this checksum is cached on the host.
    StatImage { sha256sum: String },
    /// Fetches the image from its URL into the cache.
    FetchImage { sha256sum: String, url: String },
    /// Removes what a failed fetch left in the cache.
    RemoveImage { sha256sum: String },
    /// Creates a block volume of the given size.
    CreateVolume { volume: String, size_gb: i32 },
    /// Writes the cached image into the volume as raw data.
    HydrateVolume { sha256sum: String, volume: String },
    /// Snapshots the volume under a tag.
    SnapshotVolume { volume: String, tag: String },
    /// Rolls the volume back to the snapshot with this tag.
    RollbackVolume { volume: String, tag: String },
    /// Destroys the volume with all that depends on it.
    DestroyVolume { volume: String },
}

/// What a `Command` holds, with its texts as sequences of characters.
pub enum CommandView {
    StatImage { sha256sum: Seq<char> },
    FetchImage { sha256sum: Seq<char>, url: Seq<char> },
    RemoveImage { sha256sum: Seq<char> },
    CreateVolume { volume: Seq<char>, size_gb: i32 },
    HydrateVolume { sha256sum: Seq<char>, volume: Seq<char> },
    SnapshotVolume { volume: Seq<char>, tag: Seq<char> },
    RollbackVolume { volume: Seq<char>, tag: Seq<char> },
    DestroyVolume { volume: Seq<char> },
}

impl View for Command {
    type V = CommandView;

    open spec fn view(&self) -> CommandView {
        match self {
            Command::StatImage { sha256sum } => CommandView::StatImage { sha256sum: sha256sum@ },
            Command::FetchImage { sha256sum, url } => CommandView::FetchImage {
                sha256sum: sha256sum@,
                url: url@,
            },
            Command::RemoveImage { sha256sum } => CommandView::RemoveImage {
                sha256sum: sha256sum@,
            },
            Command::CreateVolume { volume, size_gb } => CommandView::CreateVolume {
                volume: volume@,
                size_gb: *size_gb,
            },
            Command::HydrateVolume { sha256sum, volume } => CommandView::HydrateVolume {
                sha256sum: sha256sum@,
                volume: volume@,
            },
            Command::SnapshotVolume { volume, tag } => CommandView::SnapshotVolume {
                volume: volume@,
                tag: tag@,
            },
            Command::RollbackVolume { volume, tag } => CommandView::RollbackVolume {
                volume: volume@,
                tag: tag@,
            },
            Command::DestroyVolume { volume } => CommandView::DestroyVolume { volume: volume@ },
        }
    }
}

/// The tag of the snapshot that is taken once a volume holds its image,
/// and to which a reinit rolls back.
pub open spec fn init_tag() -> Seq<char> {
    "init"@
}

/// The shell option that makes the first connection to a host accept its
/// key.
pub open spec fn accept_new() -> Seq<char> {
    "-oStrictHostKeyChecking=accept-new"@
}

/// Where a host caches the image with this checksum.
pub open spec fn image_path(sha256sum: Seq<char>) -> Seq<char> {
    "$HOME/.cache/within/mkvm/qcow2/"@ + sha256sum
}

/// The device node of a volume.
pub open spec fn device_path(volume: Seq<char>) -> Seq<char> {
    "/dev/zvol/"@ + volume
}

/// The name of a snapshot of a volume.
pub open spec fn snapshot_name(volume: Seq<char>, tag: Seq<char>) -> Seq<char> {
    volume + "@"@ + tag
}

/// The arguments that the secure shell is run with for a command on a
/// host.
pub open spec fn argv_of(host: Seq<char>, command: CommandView) -> Seq<Seq<char>> {
    match command {
        CommandView::StatImage { sha256sum } => seq![
            accept_new(),
            host,
            "stat"@,
            image_path(sha256sum),
        ],
        CommandView::FetchImage { sha256sum, url } => seq![
            host,
            "wget"@,
            "-O"@,
            image_path(sha256sum),
            url,
        ],
        CommandView::RemoveImage { sha256sum } => seq![
            accept_new(),
            host,
            "rm"@,
            image_path(sha256sum),
        ],
        CommandView::CreateVolume { volume, size_gb } => seq![
            accept_new(),
            host,
            "sudo"@,
            "zfs"@,
            "create"@,
            "-V"@,
            int_text(size_gb as int) + "G"@,
            volume,
        ],
        CommandView::HydrateVolume { sha256sum, volume } => seq![
            accept_new(),
            host,
            "sudo"@,
            "qemu-img"@,
            "convert"@,
            "-O"@,
            "raw"@,
            image_path(sha256sum),
            device_path(volume),
        ],
        CommandView::SnapshotVolume { volume, tag } => seq![
            accept_new(),
            host,
            "sudo"@,
            "zfs"@,
            "snapshot"@,
            snapshot_name(volume, tag),
        ],
        CommandView::RollbackVolume { volume, tag } => seq![
            host,
            "sudo"@,
            "zfs"@,
            "rollback"@,
            snapshot_name(volume, tag),
        ],
        CommandView::DestroyVolume { volume } => seq![
            host,
            "sudo"@,
            "zfs"@,
            "destroy"@,
            "-rf"@,
            volume,
        ],
    }
}

fn lit(s: &str) -> (out: String)
    ensures
        out@ == s@,
{
    String::from_str(s)
}

impl Command {
    /// The program that runs every command.
    pub fn program() -> (out: String)
        ensures
            out@ == "ssh"@,
    {
        lit("ssh")
    }

    /// The arguments that the secure shell is run with for this command on
    /// a host.
    pub fn argv(&self, host: &String) -> (out: Vec<String>)
        ensures
            texts(out@) == argv_of(host@, self@),
    {
        let mut out: Vec<String> = Vec::new();
        match self {
            Command::StatImage { sha256sum } => {
                out.push(lit("-oStrictHostKeyChecking=accept-new"));
                out.push(host.clone());
                out.push(lit("stat"));
                out.push(join2("$HOME/.cache/within/mkvm/qcow2/", sha256sum.as_str()));
            },
            Command::FetchImage { sha256sum, url } => {
                out.push(host.clone());
                out.push(lit("wget"));
                out.push(lit("-O"));
                out.push(join2("$HOME/.cache/within/mkvm/qcow2/", sha256sum.as_str()));
                out.push(url.clone());
            },
            Command::RemoveImage { sha256sum } => {
                out.push(lit("-oStrictHostKeyChecking=accept-new"));
                out.push(host.clone());
                out.push(lit("rm"));
                out.push(join2("$HOME/.cache/within/mkvm/qcow2/", sha256sum.as_str()));
            },
            Command::CreateVolume { volume, size_gb } => {
                let size = int_string(*size_gb);
                out.push(lit("-oStrictHostKeyChecking=accept-new"));
                out.push(host.clone());
                out.push(lit("sudo"));
                out.push(lit("zfs"));
                out.push(lit("create"));
                out.push(lit("-V"));
                out.push(join2(size.as_str(), "G"));
                out.push(volume.clone());
            },
            Command::HydrateVolume { sha256sum, volume } => {
                out.push(lit("-oStrictHostKeyChecking=accept-new"));
                out.push(host.clone());
                out.push(lit("sudo"));
                out.push(lit("qemu-img"));
                out.push(lit("convert"));
                out.push(lit("-O"));
                out.push(lit("raw"));
                out.push(join2("$HOME/.cache/within/mkvm/qcow2/", sha256sum.as_str()));
                out.push(join2("/dev/zvol/", volume.as_str()));
            },
            Command::SnapshotVolume { volume, tag } => {
                out.push(lit("-oStrictHostKeyChecking=accept-new"));
                out.push(host.clone());
                out.push(lit("sudo"));
                out.push(lit("zfs"));
                out.push(lit("snapshot"));
                out.push(join3(volume.as_str(), "@", tag.as_str()));
            },
            Command::RollbackVolume { volume, tag } => {
                out.push(host.clone());
                out.push(lit("sudo"));
                out.push(lit("zfs"));
                out.push(lit("rollback"));
                out.push(join3(volume.as_str(), "@", tag.as_str()));
            },
            Command::DestroyVolume { volume } => {
                out.push(host.clone());
                out.push(lit("sudo"));
                out.push(lit("zfs"));
                out.push(lit("destroy"));
                out.push(lit("-rf"));
                out.push(volume.clone());
            },
        }
        assert(texts(out@) =~= argv_of(host@, self@));
        out
    }
}

/// What the hypervisor needs to know to describe a new domain.
#[derive(Clone, Debug)]
pub struct DomainSpec {
    pub name: String,
    pub id: u128,
    pub mac_address: String,
    /// The volume that backs the disk.
    pub volume: String,
    /// Whether the disk hangs on a SATA bus rather than a paravirtual one.
    pub sata: bool,
    pub memory_kb: i64,
    pub cpus: i32,
    /// Where the guest fetches its cloud-init documents while booting.
    pub callback_url: String,
}

/// What a `DomainSpec` holds, with its texts as sequences of characters.
pub struct DomainSpecView {
    pub name: Seq<char>,
    pub id: u128,
    pub mac_address: Seq<char>,
    pub volume: Seq<char>,
    pub sata: bool,
    pub memory_kb: i64,
    pub cpus: i32,
    pub callback_url: Seq<char>,
}

impl View for DomainSpec {
    type V = DomainSpecView;

    open spec fn view(&self) -> DomainSpecView {
        DomainSpecView {
            name: self.name@,
            id: self.id,
            mac_address: self.mac_address@,
            volume: self.volume@,
            sata: self.sata,
            memory_kb: self.memory_kb,
            cpus: self.cpus,
            callback_url: self.callback_url@,
        }
    }
}

/// A call to the hypervisor of a host about one domain.
#[derive(Clone, Debug)]
pub enum DomainCall {
    /// Defines the domain from its description.
    Define(DomainSpec),
    /// Starts the domain.
    Create,
    /// Asks the guest to shut down.
    Shutdown,
    /// Asks the guest to reboot.
    Reboot,
    /// Stops the domain at once.
    Destroy,
    /// Forgets the domain's definition.
    Undefine,
    /// Reads the domain's live state.
    Inspect,
}

/// What a `DomainCall` holds, with its texts as sequences of characters.
pub enum DomainCallView {
    Define(DomainSpecView),
    Create,
    Shutdown,
    Reboot,
    Destroy,
    Undefine,
    Inspect,
}

impl View for DomainCall {
    type V = DomainCallView;

    open spec fn view(&self) -> DomainCallView {
        match self {
            DomainCall::Define(spec) => DomainCallView::Define(spec@),
            DomainCall::Create => DomainCallView::Create,
            DomainCall::Shutdown => DomainCallView::Shutdown,
            DomainCall::Reboot => DomainCallView::Reboot,
            DomainCall::Destroy => DomainCallView::Destroy,
            DomainCall::Undefine => DomainCallView::Undefine,
            DomainCall::Inspect => DomainCallView::Inspect,
        }
    }
}

/// The address of the hypervisor of a host.
pub open spec fn hypervisor_uri_of(host: Seq<char>) -> Seq<char> {
    "qemu+ssh://root@"@ + host + "/system"@
}

/// The address of the hypervisor of a host.
pub fn hypervisor_uri(host: &String) -> (out: String)
    ensures
        out@ == hypervisor_uri_of(host@),
{
    join3("qemu+ssh://root@", host.as_str(), "/system")
}

/// The next thing a workflow needs done, or how it ended.
#[derive(Clone, Debug)]
pub enum Action {
    /// Run the command on the host and report how it ended.
    Remote { host: String, command: Command },
    /// Make the call to the hypervisor of the host about the domain with
    /// this id and report how it ended.
    Hypervisor { host: String, id: u128, call: DomainCall },
    /// Wait this long, then report success.
    Pause { millis: u64 },
    /// The workflow is complete.
    Done,
    /// The workflow has failed for good.
    Failed(Error),
}

/// What an `Action` holds, with its texts as sequences of characters.
pub enum ActionView {
    Remote { host: Seq<char>, command: CommandView },
    Hypervisor { host: Seq<char>, id: u128, call: DomainCallView },
    Pause { millis: u64 },
    Done,
    Failed(ErrorView),
}

impl View for Action {
    type V = ActionView;

    open spec fn view(&self) -> ActionView {
        match self {
            Action::Remote { host, command } => ActionView::Remote {
                host: host@,
                command: command@,
            },
            Action::Hypervisor { host, id, call } => ActionView::Hypervisor {
                host: host@,
                id: *id,
                call: call@,
            },
            Action::Pause { millis } => ActionView::Pause { millis: *millis },
            Action::Done => ActionView::Done,
            Action::Failed(e) => ActionView::Failed(e@),
        }
    }
}

/// How an action ended.
#[derive(Clone, Debug)]
pub enum Event {
    /// The command exited with status 0, the call returned, the pause is
    /// over.
    Succeeded,
    /// The command exited with another status, or the hypervisor answered
    /// with an error: what the command wrote to its error stream, or the
    /// hypervisor's message.
    Failed(String),
    /// The action could not be carried out at all.
    Aborted(String),
}

/// What an `Event` holds, with its texts as sequences of characters.
pub enum EventView {
    Succeeded,
    Failed(Seq<char>),
    Aborted(Seq<char>),
}

impl View for Event {
    type V = EventView;

    open spec fn view(&self) -> EventView {
        match self {
            Event::Succeeded => EventView::Succeeded,
            Event::Failed(m) => EventView::Failed(m@),
            Event::Aborted(m) => EventView::Aborted(m@),
        }
    }
}

} // verus!
