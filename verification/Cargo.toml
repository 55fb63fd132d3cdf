[package]
name = "xplane_udp_bridge"
version = "0.1.0"
edition = "2021"
publish = false

[dependencies]
chrono = "*"
nu-ansi-term = "*"
tracing = "*"
tracing-subscriber = "*"
xplm = "*"
