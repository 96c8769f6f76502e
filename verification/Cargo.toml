[package]
name = "xlnc_apex_robot"
version = "0.1.0"
edition = "2021"
publish = false

[dependencies]
cyw43 = "=0.7.0"
defmt = "=1.2.0"
defmt-rtt = "=1.3.1"
embassy-embedded-hal = "=0.6.0"
embassy-executor = "=0.9.1"
embassy-net = { version = "=0.9.1", features = ["tcp", "dhcpv4", "proto-ipv4", "medium-ethernet"] }
embassy-sync = "=0.8.0"
embassy-time = "=0.5.1"
embedded-io-async = "=0.7.0"
libm = "=0.2.16"
map-range = "=0.1.2"
nalgebra = { version = "=0.35.0", default-features = false, features = ["libm"] }
sparkfun-otos = "=0.1.3"
static_cell = "=2.1.1"
tb6612fng = "=1.0.0"
tinytones = "=0.1.0"
vl53l0x = "=1.0.1"
