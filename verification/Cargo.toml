[package]
name = "xiao-firmware"
version = "0.1.0"
edition = "2021"
publish = false

[dependencies]
defmt = "=1.2.0"
embassy-executor = "=0.7.0"
embassy-futures = "=0.1.2"
embassy-net = { version = "=0.6.0", features = ["proto-ipv4", "medium-ethernet", "dhcpv4", "tcp", "udp"] }
embassy-sync = "=0.6.2"
embassy-time = "=0.4.0"
esp-alloc = "=0.7.0"
esp-hal = { version = "=1.0.0-beta.0", features = ["esp32c6", "unstable"] }
esp-hal-embassy = { version = "=0.7.0", features = ["esp32c6"] }
esp-wifi = { version = "=0.13.0", features = ["esp32c6", "wifi"] }
panic-rtt-target = { version = "=0.2.0", features = ["defmt"] }
picoserve = { version = "=0.15.1", features = ["embassy"] }
rtt-target = "=0.6.2"
static_cell = "=2.1.1"
