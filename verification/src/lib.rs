//! Building blocks of a virtual machine monitor.

pub mod bits;
pub mod block;
pub mod block_complete;
pub mod block_mirror;
pub mod block_queue;
pub mod block_request;
pub mod block_worker;
pub mod cpu_profile;
pub mod cpu_profiles;
pub mod cpuid;
pub mod cpuid_feature_flags;
pub mod ctrl_queue;
pub mod fcntl;
pub mod gsi;
pub mod guest_memory;
pub mod keep_alive_stream;
pub mod memory_range;
pub mod mirror;
pub mod mirror_copy;
pub mod mirror_io;
pub mod open_fw;
pub mod progress;
pub mod protocol;
pub mod text;
pub mod tls;
pub mod virtio;
pub mod virtqueue;
pub mod wire;
pub mod zero_pages;
