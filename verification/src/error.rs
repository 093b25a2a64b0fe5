//! The failures of the control plane, the message of each and the status
//! that a caller of the HTTP interface sees.

use crate::text::{join2, join3, join4};
use vstd::prelude::*;
use vstd::string::*;

verus! {

/// A failure. Variants that stand for a failure of a collaborator carry its
/// message as text.
#[derive(Clone, Debug)]
pub enum Error {
    Libvirt(String),
    Dhall(String),
    Json(String),
    YAML(String),
    SQLite(String),
    SQLitePool(String),
    TokioJoin(String),
    Hyper(String),
    AddrParse(String),
    IO(String),
    Reqwest(String),
    URL(String),
    Tailscale(String),
    Catchall(String),
    Anyhow(String),
    Hex(String),
    RingKeyPairRejected(String),
    Yubico(String),
    TailscaledLocalAPI(String),
    /// A query of the store found no row.
    NotFound,
    /// The host of a creation request resolves to no address.
    HostUnreachable(String),
    /// No instance has this id or name.
    InstanceNotFound(String),
    /// The catalog has no distro of this name.
    DistroNotFound(String),
    /// Fetching the image failed: the URL and what the command wrote.
    ImageDownloadFailed(String, String),
    /// Creating the volume failed: the host and what the command wrote.
    VolumeCreateFailed(String, String),
    /// Destroying the volume failed: the host and what the command wrote.
    VolumeDestroyFailed(String, String),
    /// Rolling the volume back failed: the host, the snapshot and what the
    /// command wrote.
    VolumeRollbackFailed(String, String, String),
    /// Writing the image into the volume failed.
    VolumeHydrateFailed(String, String),
    /// Taking the first snapshot failed.
    SnapshotFailed(String, String),
    /// The hypervisor refused the domain description: the host and its
    /// message.
    DomainDefineFailed(String, String),
    /// The hypervisor could not start the new domain.
    DomainStartFailed(String, String),
    BadMiddlewareStack,
    Unauthorized,
    CantMakeToken(String),
}

/// What an `Error` holds, with its texts as sequences of characters.
pub enum ErrorView {
    Libvirt(Seq<char>),
    Dhall(Seq<char>),
    Json(Seq<char>),
    YAML(Seq<char>),
    SQLite(Seq<char>),
    SQLitePool(Seq<char>),
    TokioJoin(Seq<char>),
    Hyper(Seq<char>),
    AddrParse(Seq<char>),
    IO(Seq<char>),
    Reqwest(Seq<char>),
    URL(Seq<char>),
    Tailscale(Seq<char>),
    Catchall(Seq<char>),
    Anyhow(Seq<char>),
    Hex(Seq<char>),
    RingKeyPairRejected(Seq<char>),
    Yubico(Seq<char>),
    TailscaledLocalAPI(Seq<char>),
    NotFound,
    HostUnreachable(Seq<char>),
    InstanceNotFound(Seq<char>),
    DistroNotFound(Seq<char>),
    ImageDownloadFailed(Seq<char>, Seq<char>),
    VolumeCreateFailed(Seq<char>, Seq<char>),
    VolumeDestroyFailed(Seq<char>, Seq<char>),
    VolumeRollbackFailed(Seq<char>, Seq<char>, Seq<char>),
    VolumeHydrateFailed(Seq<char>, Seq<char>),
    SnapshotFailed(Seq<char>, Seq<char>),
    DomainDefineFailed(Seq<char>, Seq<char>),
    DomainStartFailed(Seq<char>, Seq<char>),
    BadMiddlewareStack,
    Unauthorized,
    CantMakeToken(Seq<char>),
}

impl View for Error {
    type V = ErrorView;

    open spec fn view(&self) -> ErrorView {
        match self {
            Error::Libvirt(m) => ErrorView::Libvirt(m@),
            Error::Dhall(m) => ErrorView::Dhall(m@),
            Error::Json(m) => ErrorView::Json(m@),
            Error::YAML(m) => ErrorView::YAML(m@),
            Error::SQLite(m) => ErrorView::SQLite(m@),
            Error::SQLitePool(m) => ErrorView::SQLitePool(m@),
            Error::TokioJoin(m) => ErrorView::TokioJoin(m@),
            Error::Hyper(m) => ErrorView::Hyper(m@),
            Error::AddrParse(m) => ErrorView::AddrParse(m@),
            Error::IO(m) => ErrorView::IO(m@),
            Error::Reqwest(m) => ErrorView::Reqwest(m@),
            Error::URL(m) => ErrorView::URL(m@),
            Error::Tailscale(m) => ErrorView::Tailscale(m@),
            Error::Catchall(m) => ErrorView::Catchall(m@),
            Error::Anyhow(m) => ErrorView::Anyhow(m@),
            Error::Hex(m) => ErrorView::Hex(m@),
            Error::RingKeyPairRejected(m) => ErrorView::RingKeyPairRejected(m@),
            Error::Yubico(m) => ErrorView::Yubico(m@),
            Error::TailscaledLocalAPI(m) => ErrorView::TailscaledLocalAPI(m@),
            Error::NotFound => ErrorView::NotFound,
            Error::HostUnreachable(h) => ErrorView::HostUnreachable(h@),
            Error::InstanceNotFound(i) => ErrorView::InstanceNotFound(i@),
            Error::DistroNotFound(d) => ErrorView::DistroNotFound(d@),
            Error::ImageDownloadFailed(u, e) => ErrorView::ImageDownloadFailed(u@, e@),
            Error::VolumeCreateFailed(h, e) => ErrorView::VolumeCreateFailed(h@, e@),
            Error::VolumeDestroyFailed(h, e) => ErrorView::VolumeDestroyFailed(h@, e@),
            Error::VolumeRollbackFailed(h, s, e) => ErrorView::VolumeRollbackFailed(h@, s@, e@),
            Error::VolumeHydrateFailed(h, e) => ErrorView::VolumeHydrateFailed(h@, e@),
            Error::SnapshotFailed(h, e) => ErrorView::SnapshotFailed(h@, e@),
            Error::DomainDefineFailed(h, e) => ErrorView::DomainDefineFailed(h@, e@),
            Error::DomainStartFailed(h, e) => ErrorView::DomainStartFailed(h@, e@),
            Error::BadMiddlewareStack => ErrorView::BadMiddlewareStack,
            Error::Unauthorized => ErrorView::Unauthorized,
            Error::CantMakeToken(m) => ErrorView::CantMakeToken(m@),
        }
    }
}

/// The message of a failure.
pub open spec fn message_of(e: ErrorView) -> Seq<char> {
    match e {
        ErrorView::Libvirt(m) => "libvirt error: "@ + m,
        ErrorView::Dhall(m) => "dhall parsing error: "@ + m,
        ErrorView::Json(m) => "json parsing error: "@ + m,
        ErrorView::YAML(m) => "yaml error: "@ + m,
        ErrorView::SQLite(m) => "database error: "@ + m,
        ErrorView::SQLitePool(m) => "database pool error: "@ + m,
        ErrorView::TokioJoin(m) => "internal tokio error: "@ + m,
        ErrorView::Hyper(m) => "hyper error: "@ + m,
        ErrorView::AddrParse(m) => "address parse error: "@ + m,
        ErrorView::IO(m) => "io error: "@ + m,
        ErrorView::Reqwest(m) => "reqwest error: "@ + m,
        ErrorView::URL(m) => "url error: "@ + m,
        ErrorView::Tailscale(m) => "tailscale error: "@ + m,
        ErrorView::Catchall(m) => "other error: "@ + m,
        ErrorView::Anyhow(m) => m,
        ErrorView::Hex(m) => "hex decode error: "@ + m,
        ErrorView::RingKeyPairRejected(m) => "key pair rejected: "@ + m,
        ErrorView::Yubico(m) => "yubikey OTP error: "@ + m,
        ErrorView::TailscaledLocalAPI(m) => "tailscaled localapi error: "@ + m,
        ErrorView::NotFound => "404 not found"@,
        ErrorView::HostUnreachable(h) => "host "@ + h + " doesn't exist"@,
        ErrorView::InstanceNotFound(i) => "instance "@ + i + " doesn't exist"@,
        ErrorView::DistroNotFound(d) => "distro "@ + d + " doesn't exist"@,
        ErrorView::ImageDownloadFailed(u, e) => "can't download "@ + u + ":\n\n"@ + e,
        ErrorView::VolumeCreateFailed(h, e) => "can't create zfs zvol on "@ + h + ":\n\n"@ + e,
        ErrorView::VolumeDestroyFailed(h, e) => "can't delete zfs zvol on "@ + h + ":\n\n"@ + e,
        ErrorView::VolumeRollbackFailed(h, s, e) => "can't rollback zfs zvol to snapshot "@ + s
            + " on "@ + h + ":\n\n"@ + e,
        ErrorView::VolumeHydrateFailed(h, e) => "can't hydrate zfs zvol on "@ + h + ":\n\n"@ + e,
        ErrorView::SnapshotFailed(h, e) => "can't create zfs init snapshot on "@ + h
            + ":\n\n"@ + e,
        ErrorView::DomainDefineFailed(h, e) => "can't define domain on "@ + h + ":\n\n"@ + e,
        ErrorView::DomainStartFailed(h, e) => "can't start domain on "@ + h + ":\n\n"@ + e,
        ErrorView::BadMiddlewareStack => "internal middleware logic error"@,
        ErrorView::Unauthorized => "insufficient authorization to perform this action"@,
        ErrorView::CantMakeToken(m) => "can't make token: "@ + m,
    }
}

/// The HTTP status of a failure: 401 without authorization, 404 for what
/// does not exist, 400 for a configuration that does not parse, 500 for
/// the rest.
pub open spec fn status_of(e: ErrorView) -> u16 {
    match e {
        ErrorView::Unauthorized => 401,
        ErrorView::Dhall(_) => 400,
        ErrorView::NotFound => 404,
        ErrorView::HostUnreachable(_) => 404,
        ErrorView::InstanceNotFound(_) => 404,
        ErrorView::DistroNotFound(_) => 404,
        _ => 500,
    }
}

/// The body of the HTTP response for a failure: the collaborator's bare
/// message for the hypervisor, the configuration parser and the store, a
/// fixed text without authorization, the failure's message otherwise.
pub open spec fn body_of(e: ErrorView) -> Seq<char> {
    match e {
        ErrorView::Unauthorized => "you lack authorization"@,
        ErrorView::Libvirt(m) => m,
        ErrorView::Dhall(m) => m,
        ErrorView::SQLite(m) => m,
        _ => message_of(e),
    }
}

impl Error {
    /// Renders the failure as a message.
    pub fn message(&self) -> (out: String)
        ensures
            out@ == message_of(self@),
    {
        match self {
            Error::Libvirt(m) => join2("libvirt error: ", m.as_str()),
            Error::Dhall(m) => join2("dhall parsing error: ", m.as_str()),
            Error::Json(m) => join2("json parsing error: ", m.as_str()),
            Error::YAML(m) => join2("yaml error: ", m.as_str()),
            Error::SQLite(m) => join2("database error: ", m.as_str()),
            Error::SQLitePool(m) => join2("database pool error: ", m.as_str()),
            Error::TokioJoin(m) => join2("internal tokio error: ", m.as_str()),
            Error::Hyper(m) => join2("hyper error: ", m.as_str()),
            Error::AddrParse(m) => join2("address parse error: ", m.as_str()),
            Error::IO(m) => join2("io error: ", m.as_str()),
            Error::Reqwest(m) => join2("reqwest error: ", m.as_str()),
            Error::URL(m) => join2("url error: ", m.as_str()),
            Error::Tailscale(m) => join2("tailscale error: ", m.as_str()),
            Error::Catchall(m) => join2("other error: ", m.as_str()),
            Error::Anyhow(m) => m.clone(),
            Error::Hex(m) => join2("hex decode error: ", m.as_str()),
            Error::RingKeyPairRejected(m) => join2("key pair rejected: ", m.as_str()),
            Error::Yubico(m) => join2("yubikey OTP error: ", m.as_str()),
            Error::TailscaledLocalAPI(m) => join2("tailscaled localapi error: ", m.as_str()),
            Error::NotFound => String::from_str("404 not found"),
            Error::HostUnreachable(h) => join3("host ", h.as_str(), " doesn't exist"),
            Error::InstanceNotFound(i) => join3("instance ", i.as_str(), " doesn't exist"),
            Error::DistroNotFound(d) => join3("distro ", d.as_str(), " doesn't exist"),
            Error::ImageDownloadFailed(u, e) => join4(
                "can't download ",
                u.as_str(),
                ":\n\n",
                e.as_str(),
            ),
            Error::VolumeCreateFailed(h, e) => join4(
                "can't create zfs zvol on ",
                h.as_str(),
                ":\n\n",
                e.as_str(),
            ),
            Error::VolumeDestroyFailed(h, e) => join4(
                "can't delete zfs zvol on ",
                h.as_str(),
                ":\n\n",
                e.as_str(),
            ),
            Error::VolumeRollbackFailed(h, s, e) => {
                let head = join4("can't rollback zfs zvol to snapshot ", s.as_str(), " on ", h.as_str());
                join3(head.as_str(), ":\n\n", e.as_str())
            },
            Error::VolumeHydrateFailed(h, e) => join4(
                "can't hydrate zfs zvol on ",
                h.as_str(),
                ":\n\n",
                e.as_str(),
            ),
            Error::SnapshotFailed(h, e) => join4(
                "can't create zfs init snapshot on ",
                h.as_str(),
                ":\n\n",
                e.as_str(),
            ),
            Error::DomainDefineFailed(h, e) => join4(
                "can't define domain on ",
                h.as_str(),
                ":\n\n",
                e.as_str(),
            ),
            Error::DomainStartFailed(h, e) => join4(
                "can't start domain on ",
                h.as_str(),
                ":\n\n",
                e.as_str(),
            ),
            Error::BadMiddlewareStack => String::from_str("internal middleware logic error"),
            Error::Unauthorized => String::from_str(
                "insufficient authorization to perform this action",
            ),
            Error::CantMakeToken(m) => join2("can't make token: ", m.as_str()),
        }
    }

    /// The HTTP status that answers the failure.
    pub fn status_code(&self) -> (out: u16)
        ensures
            out == status_of(self@),
    {
        match self {
            Error::Unauthorized => 401,
            Error::Dhall(_) => 400,
            Error::NotFound => 404,
            Error::HostUnreachable(_) => 404,
            Error::InstanceNotFound(_) => 404,
            Error::DistroNotFound(_) => 404,
            _ => 500,
        }
    }

    /// The status and the body of the HTTP response that answers the
    /// failure.
    pub fn into_response(self) -> (out: (u16, String))
        ensures
            out.0 == status_of(self@),
            out.1@ == body_of(self@),
    {
        let code = self.status_code();
        let body = match &self {
            Error::Unauthorized => String::from_str("you lack authorization"),
            Error::Libvirt(m) => m.clone(),
            Error::Dhall(m) => m.clone(),
            Error::SQLite(m) => m.clone(),
            _ => self.message(),
        };
        (code, body)
    }

    /// A copy of the failure.
    pub fn duplicate(&self) -> (out: Error)
        ensures
            out@ == self@,
    {
        match self {
            Error::Libvirt(m) => Error::Libvirt(m.clone()),
            Error::Dhall(m) => Error::Dhall(m.clone()),
            Error::Json(m) => Error::Json(m.clone()),
            Error::YAML(m) => Error::YAML(m.clone()),
            Error::SQLite(m) => Error::SQLite(m.clone()),
            Error::SQLitePool(m) => Error::SQLitePool(m.clone()),
            Error::TokioJoin(m) => Error::TokioJoin(m.clone()),
            Error::Hyper(m) => Error::Hyper(m.clone()),
            Error::AddrParse(m) => Error::AddrParse(m.clone()),
            Error::IO(m) => Error::IO(m.clone()),
            Error::Reqwest(m) => Error::Reqwest(m.clone()),
            Error::URL(m) => Error::URL(m.clone()),
            Error::Tailscale(m) => Error::Tailscale(m.clone()),
            Error::Catchall(m) => Error::Catchall(m.clone()),
            Error::Anyhow(m) => Error::Anyhow(m.clone()),
            Error::Hex(m) => Error::Hex(m.clone()),
            Error::RingKeyPairRejected(m) => Error::RingKeyPairRejected(m.clone()),
            Error::Yubico(m) => Error::Yubico(m.clone()),
            Error::TailscaledLocalAPI(m) => Error::TailscaledLocalAPI(m.clone()),
            Error::NotFound => Error::NotFound,
            Error::HostUnreachable(h) => Error::HostUnreachable(h.clone()),
            Error::InstanceNotFound(i) => Error::InstanceNotFound(i.clone()),
            Error::DistroNotFound(d) => Error::DistroNotFound(d.clone()),
            Error::ImageDownloadFailed(u, e) => Error::ImageDownloadFailed(u.clone(), e.clone()),
            Error::VolumeCreateFailed(h, e) => Error::VolumeCreateFailed(h.clone(), e.clone()),
            Error::VolumeDestroyFailed(h, e) => Error::VolumeDestroyFailed(h.clone(), e.clone()),
            Error::VolumeRollbackFailed(h, s, e) => Error::VolumeRollbackFailed(
                h.clone(),
                s.clone(),
                e.clone(),
            ),
            Error::VolumeHydrateFailed(h, e) => Error::VolumeHydrateFailed(h.clone(), e.clone()),
            Error::SnapshotFailed(h, e) => Error::SnapshotFailed(
                h.clone(),
                e.clone(),
            ),
            Error::DomainDefineFailed(h, e) => Error::DomainDefineFailed(h.clone(), e.clone()),
            Error::DomainStartFailed(h, e) => Error::DomainStartFailed(h.clone(), e.clone()),
            Error::BadMiddlewareStack => Error::BadMiddlewareStack,
            Error::Unauthorized => Error::Unauthorized,
            Error::CantMakeToken(m) => Error::CantMakeToken(m.clone()),
        }
    }
}

} // verus!
