[package]
name = "b3_iot"
version = "0.1.0"
edition = "2021"
publish = false

[dependencies]
cortex-m = "*"
cyw43 = { version = "=0.7.0", features = ["bluetooth"] }
cyw43-pio = "=0.10.0"
embassy-boot-rp = "=0.10.0"
embassy-executor = "=0.10.0"
embassy-net = { version = "=0.9.1", features = ["tcp", "dns", "dhcpv4", "proto-ipv4", "proto-ipv6", "medium-ethernet"] }
embassy-rp = { version = "=0.10.0", features = ["rp235xa", "time-driver", "critical-section-impl"] }
embassy-sync = "*"
embassy-time = "*"
embedded-io-async = "*"
embedded-storage = "*"
heapless = "*"
log = "*"
reqwless = "*"
sha2 = { version = "*", default-features = false }
static_cell = "*"
