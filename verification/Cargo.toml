[package]
name = "dhcp_forwarder"
version = "0.1.0"
edition = "2021"
publish = false

[dependencies]
anyhow = "1"
clap = { version = "4", features = ["derive"] }
env_logger = "*"
log = "0.4"
pcap = "*"
serde = { version = "1", features = ["derive"] }
serde_json = "1"
socket2 = "*"
