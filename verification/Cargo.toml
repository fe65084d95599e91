[package]
name = "toy_ca"
version = "0.1.0"
edition = "2021"
publish = false

[dependencies]
base64 = "=0.13.1"
openssl = "=0.10.81"
clap = { version = "*", features = ["derive"] }
log = "*"
log4rs = "*"
serde = { version = "*", features = ["derive"] }
serde_derive = "*"
tokio = { version = "*", features = ["full"] }
warp = { version = "=0.4.3", features = ["server"] }
