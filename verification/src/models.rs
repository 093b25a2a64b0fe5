//! The records the control plane keeps: instances, distros, cloud-init
//! seeds and audit events, each with its mathematical view.

use vstd::prelude::*;

verus! {

/// The view of an optional text.
pub open spec fn opt_text(o: Option<String>) -> Option<Seq<char>> {
    match o {
        Some(s) => Some(s@),
        None => None,
    }
}

/// Copies an optional text.
pub fn copy_opt(o: &Option<String>) -> (out: Option<String>)
    ensures
        opt_text(out) == opt_text(*o),
{
    match o {
        Some(s) => Some(s.clone()),
        None => None,
    }
}

/// A virtual machine that was provisioned or is being provisioned.
#[derive(Clone, Debug)]
pub struct Instance {
    /// Assigned at creation and never changed.
    pub id: u128,
    /// Unique among all instances.
    pub name: String,
    /// The hypervisor host that owns the machine.
    pub host: String,
    /// A locally administered unicast address, assigned once.
    pub mac_address: String,
    pub memory_mb: i32,
    pub cpu_count: i32,
    pub disk_size_gb: i32,
    /// The backing block volume.
    pub volume_name: String,
    /// The name of the catalog entry the machine was made from.
    pub distro: String,
    /// The lifecycle state, as free text.
    pub status: String,
    /// Whether the guest enrolls into the overlay network while booting.
    pub join_network: bool,
}

/// What an `Instance` holds, with its texts as sequences of characters.
pub struct InstanceView {
    pub id: u128,
    pub name: Seq<char>,
    pub host: Seq<char>,
    pub mac_address: Seq<char>,
    pub memory_mb: i32,
    pub cpu_count: i32,
    pub disk_size_gb: i32,
    pub volume_name: Seq<char>,
    pub distro: Seq<char>,
    pub status: Seq<char>,
    pub join_network: bool,
}

impl View for Instance {
    type V = InstanceView;

    open spec fn view(&self) -> InstanceView {
        InstanceView {
            id: self.id,
            name: self.name@,
            host: self.host@,
            mac_address: self.mac_address@,
            memory_mb: self.memory_mb,
            cpu_count: self.cpu_count,
            disk_size_gb: self.disk_size_gb,
            volume_name: self.volume_name@,
            distro: self.distro@,
            status: self.status@,
            join_network: self.join_network,
        }
    }
}

impl InstanceView {
    /// The same instance in another lifecycle state.
    pub open spec fn with_status(self, status: Seq<char>) -> InstanceView {
        InstanceView { status, ..self }
    }
}

impl Instance {
    /// A copy of the record.
    pub fn duplicate(&self) -> (out: Instance)
        ensures
            out@ == self@,
    {
        Instance {
            id: self.id,
            name: self.name.clone(),
            host: self.host.clone(),
            mac_address: self.mac_address.clone(),
            memory_mb: self.memory_mb,
            cpu_count: self.cpu_count,
            disk_size_gb: self.disk_size_gb,
            volume_name: self.volume_name.clone(),
            distro: self.distro.clone(),
            status: self.status.clone(),
            join_network: self.join_network,
        }
    }
}

/// The raw cloud-init user data kept for one instance.
#[derive(Clone, Debug)]
pub struct CloudconfigSeed {
    pub id: u128,
    pub user_data: String,
}

/// What a `CloudconfigSeed` holds, with its texts as sequences of characters.
pub struct CloudconfigSeedView {
    pub id: u128,
    pub user_data: Seq<char>,
}

impl View for CloudconfigSeed {
    type V = CloudconfigSeedView;

    open spec fn view(&self) -> CloudconfigSeedView {
        CloudconfigSeedView { id: self.id, user_data: self.user_data@ }
    }
}

impl CloudconfigSeed {
    /// A copy of the record.
    pub fn duplicate(&self) -> (out: CloudconfigSeed)
        ensures
            out@ == self@,
    {
        CloudconfigSeed { id: self.id, user_data: self.user_data.clone() }
    }
}

/// A base image that instances are made from.
#[derive(Clone, Debug)]
pub struct Distro {
    /// The key of the catalog.
    pub name: String,
    pub download_url: String,
    pub sha256sum: String,
    /// The disk size an instance gets when its request names none.
    pub min_size_gb: i32,
    /// A tag for the image format.
    pub format: String,
}

/// What a `Distro` holds, with its texts as sequences of characters.
pub struct DistroView {
    pub name: Seq<char>,
    pub download_url: Seq<char>,
    pub sha256sum: Seq<char>,
    pub min_size_gb: i32,
    pub format: Seq<char>,
}

impl View for Distro {
    type V = DistroView;

    open spec fn view(&self) -> DistroView {
        DistroView {
            name: self.name@,
            download_url: self.download_url@,
            sha256sum: self.sha256sum@,
            min_size_gb: self.min_size_gb,
            format: self.format@,
        }
    }
}

impl Distro {
    /// A copy of the record.
    pub fn duplicate(&self) -> (out: Distro)
        ensures
            out@ == self@,
    {
        Distro {
            name: self.name.clone(),
            download_url: self.download_url.clone(),
            sha256sum: self.sha256sum.clone(),
            min_size_gb: self.min_size_gb,
            format: self.format.clone(),
        }
    }
}

/// What an audit event records of the entity it is about.
#[derive(Clone, Debug)]
pub enum Payload {
    /// The instance as it stood when the event was written.
    Instance(Instance),
    /// The distro as it stood when the event was written.
    Distro(Distro),
    /// Free text, for events about anything else.
    Raw(String),
}

/// What a `Payload` holds, with its texts as sequences of characters.
pub enum PayloadView {
    Instance(InstanceView),
    Distro(DistroView),
    Raw(Seq<char>),
}

impl View for Payload {
    type V = PayloadView;

    open spec fn view(&self) -> PayloadView {
        match self {
            Payload::Instance(i) => PayloadView::Instance(i@),
            Payload::Distro(d) => PayloadView::Distro(d@),
            Payload::Raw(t) => PayloadView::Raw(t@),
        }
    }
}

impl Payload {
    /// A copy of the payload.
    pub fn duplicate(&self) -> (out: Payload)
        ensures
            out@ == self@,
    {
        match self {
            Payload::Instance(i) => Payload::Instance(i.duplicate()),
            Payload::Distro(d) => Payload::Distro(d.duplicate()),
            Payload::Raw(t) => Payload::Raw(t.clone()),
        }
    }
}

/// One entry of the append-only audit log.
#[derive(Clone, Debug)]
pub struct AuditEvent {
    /// Counts up from 1 in the order of insertion.
    pub id: i32,
    pub timestamp: i64,
    /// What sort of entity changed, such as "instance" or "distro".
    pub kind: String,
    /// What was done to it, such as "create" or "reinit".
    pub operation: String,
    pub payload: Option<Payload>,
    pub entity_id: Option<u128>,
    pub entity_name: Option<String>,
}

/// What an `AuditEvent` holds, with its texts as sequences of characters.
pub struct AuditEventView {
    pub id: i32,
    pub timestamp: i64,
    pub kind: Seq<char>,
    pub operation: Seq<char>,
    pub payload: Option<PayloadView>,
    pub entity_id: Option<u128>,
    pub entity_name: Option<Seq<char>>,
}

/// The view of an optional payload.
pub open spec fn opt_payload(o: Option<Payload>) -> Option<PayloadView> {
    match o {
        Some(p) => Some(p@),
        None => None,
    }
}

impl View for AuditEvent {
    type V = AuditEventView;

    open spec fn view(&self) -> AuditEventView {
        AuditEventView {
            id: self.id,
            timestamp: self.timestamp,
            kind: self.kind@,
            operation: self.operation@,
            payload: opt_payload(self.payload),
            entity_id: self.entity_id,
            entity_name: opt_text(self.entity_name),
        }
    }
}

impl AuditEvent {
    /// A copy of the event.
    pub fn duplicate(&self) -> (out: AuditEvent)
        ensures
            out@ == self@,
    {
        let payload = match &self.payload {
            Some(p) => Some(p.duplicate()),
            None => None,
        };
        AuditEvent {
            id: self.id,
            timestamp: self.timestamp,
            kind: self.kind.clone(),
            operation: self.operation.clone(),
            payload,
            entity_id: self.entity_id,
            entity_name: copy_opt(&self.entity_name),
        }
    }
}

/// The texts that the audit log and the status column use.
pub open spec fn kind_instance() -> Seq<char> {
    "instance"@
}

pub open spec fn kind_distro() -> Seq<char> {
    "distro"@
}

pub open spec fn status_init() -> Seq<char> {
    "init"@
}

pub open spec fn status_downloading() -> Seq<char> {
    "downloading image"@
}

pub open spec fn status_hydrating() -> Seq<char> {
    "hydrating volume"@
}

pub open spec fn status_waiting() -> Seq<char> {
    "waiting for cloud-init"@
}

pub open spec fn status_running() -> Seq<char> {
    "running"@
}

} // verus!
