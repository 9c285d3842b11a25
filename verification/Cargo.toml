[package]
name = "agent_capture"
version = "0.1.0"
edition = "2021"
publish = false

[dependencies]
aya-ebpf = "=0.1.1"
aya = "=0.14.0"
bitflags = "=2.13.2"
serde = { version = "=1.0.229", features = ["derive"] }
