//! The records that the collectors produce and the dashboard shows.
use vstd::prelude::*;

verus! {

/// Transport protocol of a listening socket.
#[derive(Debug, Clone, Copy, PartialEq, Eq, Structural)]
pub enum Protocol {
    Tcp,
    Udp,
}

/// One listening socket, with what is known about its owner.
#[derive(Debug, Clone)]
pub struct PortBinding {
    pub port: u16,
    pub protocol: Protocol,
    pub address: String,
    pub pid: Option<u32>,
    pub process_name: Option<String>,
    pub container_name: Option<String>,
    pub container_image: Option<String>,
}

/// A process of interest to a developer.
///
/// CPU usage is held in tenths of a percent (`125` is 12.5 %).
#[derive(Debug, Clone)]
pub struct DevProcess {
    pub pid: u32,
    pub name: String,
    pub cmdline: String,
    pub memory_bytes: u64,
    pub cpu_usage_tenths: u32,
    pub is_dev: bool,
}

/// Whole-machine figures. CPU usage is in tenths of a percent, temperatures in
/// whole degrees Celsius.
#[derive(Debug, Clone)]
pub struct SystemStats {
    pub total_memory: u64,
    pub used_memory: u64,
    pub global_cpu_usage_tenths: u32,
    pub cpu_temp_c: Option<i32>,
    pub gpu_temp_c: Option<i32>,
}

/// One Docker container. CPU usage is in tenths of a percent.
#[derive(Debug, Clone)]
pub struct DockerContainer {
    pub id: String,
    pub name: String,
    pub image: String,
    pub status: String,
    pub host_ports: Vec<u16>,
    pub cpu_percent_tenths: Option<u32>,
    pub memory_bytes: Option<u64>,
}

/// One Docker volume.
#[derive(Debug, Clone)]
pub struct DockerVolume {
    pub name: String,
    pub driver: String,
    pub size_bytes: Option<u64>,
    pub in_use: bool,
    /// Names of the containers that mount this volume, each once.
    pub container_names: Vec<String>,
}

} // verus!
