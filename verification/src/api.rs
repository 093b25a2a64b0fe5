//! The operations behind the HTTP interface.

pub mod audit;
pub mod cloudinit;
pub mod distros;
pub mod instances;
pub mod libvirt;
