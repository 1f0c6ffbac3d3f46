[package]
name = "vhost_net"
version = "0.1.0"
edition = "2021"
publish = false

[dependencies]
displaydoc = "0.2"
event-manager = "*"
libc = "0.2"
log = "0.4"
thiserror = "1"
vhost = { version = "*", features = ["vhost-kern", "vhost-net"] }
vm-memory = { version = "*", features = ["backend-mmap"] }
vmm-sys-util = "*"
