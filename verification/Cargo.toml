[package]
name = "yaml_sigil"
version = "0.1.0"
edition = "2021"
publish = false

[dependencies]
base64 = "=0.22.1"
noyalib = "=0.0.58"
ed25519-dalek = "=2.2.0"
curve25519-dalek = "=4.1.3"
p256 = "=0.13.2"
sha2 = "=0.10.9"
signature = "=2.2.0"
yaml-sigil-traits = "=0.4.1"
serde = { version = "=1.0.229", features = ["derive"] }
thiserror = "=2.0.21"

[dev-dependencies]
rand_core = { version = "=0.6.4", features = ["getrandom"] }
