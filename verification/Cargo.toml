[package]
name = "cexec"
version = "0.1.0"
edition = "2021"
publish = false

[dependencies]
pgp = "=0.21.0"
sha2 = "=0.11.0"
base64 = "=0.23.1"
wasmi = "=2.0.0"
wat = "=1.261.0"
dirs = "=7.0.0"
hostname = "=0.4.2"
serde = { version = "=1.0.229", features = ["derive"] }
toml = "=1.1.6"

[dev-dependencies]
rand = "=0.8.8"
