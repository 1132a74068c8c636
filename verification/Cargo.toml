[package]
name = "runc_shim"
version = "0.1.0"
edition = "2021"
publish = false

[dependencies]
serde_json = "=1.0.154"
serde = { version = "=1.0.229", features = ["derive"] }
tokio = { version = "=1.54.1", features = ["process", "time", "rt", "io-util"] }
nix = { version = "=0.26.4", features = ["fs", "user", "mount"] }
tempfile = "=3.27.0"
chrono = "=0.4.45"
log = "=0.4.34"
protobuf = "=3.7.2"
containerd-shim = "=0.11.0"
containerd-shim-protos = "=0.11.0"
ttrpc = "=0.9.0"
sys-mount = { version = "=3.1.1", default-features = false }
dyn-clone = "1"
