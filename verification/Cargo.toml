[package]
name = "kernel_core"
version = "0.1.0"
edition = "2021"
publish = false

[dependencies]
crossbeam = "=0.8.5"
arrayvec = "=0.7.8"
x86_64 = { version = "=0.14.13", default-features = false, features = ["instructions"] }
acpi = "=4.1.1"
bootloader_api = "=0.11.17"
bootloader-boot-config = "=0.11.17"
conquer-once = "=0.4.0"
futures = "=0.3.34"
lazy_static = "=1.5.1"
spin = "=0.9.9"
linked_list_allocator = "=0.10.6"
raw-cpuid = "=10.7.0"
uart_16550 = "=0.2.19"
spinning_top = "=0.2.5"
log = "=0.4.34"
