[package]
name = "synchronicity"
version = "0.1.0"
edition = "2021"
publish = false

[dependencies]
hkd32 = { version = "=0.3.1", features = ["mnemonic"] }
parity-multiaddr = "=0.6.0"
abscissa_core = "=0.4.0"
lazy_static = "=1.4.0"
serde = { version = "=1.0.229", features = ["derive"] }
tokio = "=0.1.22"
futures = "=0.1.31"
log = "=0.4.34"
grpcio = "=0.4.7"
