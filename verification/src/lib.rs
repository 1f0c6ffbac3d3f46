//! Verified core of a kernel-accelerated (vhost) virtio network device.

pub mod activation;
pub mod backend;
pub mod config;
pub mod device;
pub mod error;
pub mod features;
pub mod invariants;
pub mod queue;
pub mod setup;
pub mod tap;
