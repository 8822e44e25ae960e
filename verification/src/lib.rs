//! Verified core of a small x86-64 kernel: input state, PCI enumeration,
//! virtio transport and drivers, the cooperative executor, the timer, the
//! interrupt controllers, frame allocation and the application loader.
//!
//! The library decides and computes; it touches no hardware. Whoever uses
//! it reads registers and memory, hands the library what was read, and
//! writes what the library says to write.

pub mod app;
pub mod bytes;
pub mod drivers;
pub mod framebuffer;
pub mod globals;
pub mod interrupts;
pub mod ioapic;
pub mod local_apic;
pub mod memory;
pub mod pci;
pub mod st;
pub mod task;
pub mod virtio;
