[package]
name = "process_control"
version = "0.1.0"
edition = "2021"
publish = false

[dependencies]
anyhow = "1"
camino = "1"
jobserver = "0.1"
mutants = "0.0.3"
nix = { version = "0.29", default-features = false, features = ["process", "signal"] }
serde = { version = "1", features = ["derive"] }
tracing = "0.1"
