[package]
name = "cloud_hypervisor"
version = "0.1.0"
edition = "2021"
publish = false

[dependencies]
anyhow = "1"
epoll = "4"
itertools = "=0.14.0"
libc = "=0.2.191"
log = "0.4"
rustls = { version = "=0.23.46", default-features = false, features = ["std"] }
serde = { version = "1", features = ["derive"] }
serde_json = "1"
thiserror = "2"
virtio-bindings = "=0.2.7"
virtio-queue = "0.16"
vm-memory = { version = "0.16", features = ["backend-mmap", "backend-atomic", "backend-bitmap"] }
vmm-sys-util = "0.14"
