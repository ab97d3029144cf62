[package]
name = "brydz_core"
version = "0.1.0"
edition = "2021"
publish = false

[dependencies]
rand = "0.8"
arrayvec = "0.7"
smallvec = "1"
serde = { version = "1", features = ["derive"] }
thiserror = "1"
parking_lot = "0.12"
log = "0.4"
