//! Drivers built on the virtio transport.

pub mod virtio_gpu;
pub mod virtio_input;
