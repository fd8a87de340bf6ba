[package]
name = "aether_core"
version = "0.1.0"
edition = "2021"
publish = false

[dependencies]
base64 = "=0.23.1"
image = { version = "=0.25.10", default-features = false, features = ["png", "jpeg"] }
nix = { version = "=0.31.3", features = ["user", "feature", "hostname", "resource"] }
regex = "=1.13.1"
which = "=8.0.6"
rubato = "=5.0.1"
serde = { version = "=1.0.229", features = ["derive"] }
serde_json = "=1.0.151"
serde_yaml = "=0.9.34"
