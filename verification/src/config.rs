//! The settings of the control plane.

use crate::namegen::texts;
use vstd::prelude::*;

verus! {

/// How to reach the overlay network's management interface.
#[derive(Clone, Debug)]
pub struct Tailscale {
    pub api_key: String,
    pub tailnet: String,
}

/// What a `Tailscale` holds, with its texts as sequences of characters.
pub struct TailscaleView {
    pub api_key: Seq<char>,
    pub tailnet: Seq<char>,
}

impl View for Tailscale {
    type V = TailscaleView;

    open spec fn view(&self) -> TailscaleView {
        TailscaleView { api_key: self.api_key@, tailnet: self.tailnet@ }
    }
}

/// The settings that the server is started with.
#[derive(Clone, Debug)]
pub struct Config {
    /// The address under which guests reach the server.
    pub base_url: String,
    /// The hypervisor hosts of the fleet.
    pub hosts: Vec<String>,
    pub bind_host: String,
    pub port: u16,
    /// The volume pool that holds an instance's disk when its request
    /// names none.
    pub rpool_base: String,
    pub qemu_path: String,
    /// The cloud-init user data that an instance gets when its request
    /// brings none.
    pub user_data: String,
    pub tailscale: Tailscale,
}

/// What a `Config` holds, with its texts as sequences of characters.
pub struct ConfigView {
    pub base_url: Seq<char>,
    pub hosts: Seq<Seq<char>>,
    pub bind_host: Seq<char>,
    pub port: u16,
    pub rpool_base: Seq<char>,
    pub qemu_path: Seq<char>,
    pub user_data: Seq<char>,
    pub tailscale: TailscaleView,
}

impl View for Config {
    type V = ConfigView;

    open spec fn view(&self) -> ConfigView {
        ConfigView {
            base_url: self.base_url@,
            hosts: texts(self.hosts@),
            bind_host: self.bind_host@,
            port: self.port,
            rpool_base: self.rpool_base@,
            qemu_path: self.qemu_path@,
            user_data: self.user_data@,
            tailscale: self.tailscale@,
        }
    }
}

} // verus!
