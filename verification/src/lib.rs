//! The core of waifud, a control plane for virtual machines on a small
//! fleet of hypervisor hosts.
//!
//! The library keeps the records of the control plane in a [`store::Store`]
//! and changes them only through operations whose effect is stated as a
//! contract over the store's mathematical view and proved:
//!
//! - [`api::instances`] creates instances, provisions them step by step and
//!   runs the lifecycle operations on them;
//! - [`api::distros`] manages the catalog of base images, and [`scrape`]
//!   refreshes it from the sites that publish them;
//! - [`api::audit`] reads the audit log, to which every change appends;
//! - [`api::cloudinit`] answers the guests while they boot;
//! - [`api::libvirt`] shows the live state of the fleet.
//!
//! The library does no input or output. A workflow says which action it
//! needs next ([`workflow::Action`]); its caller performs the action and
//! hands back how it ended ([`workflow::Event`]). [`laws`] states what holds
//! of every store, request and outcome.

pub mod admin;
pub mod api;
pub mod config;
pub mod error;
pub mod ident;
pub mod laws;
pub mod libvirt;
pub mod models;
pub mod namegen;
pub mod rotbart;
pub mod scrape;
pub mod store;
pub mod text;
pub mod workflow;

pub use config::Config;
pub use error::Error;
