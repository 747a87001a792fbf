[package]
name = "alien_daw"
version = "0.1.0"
edition = "2021"
publish = false

[dependencies]
anyhow = "1"
cpal = "0.15"
either = "1"
parking_lot = "0.12"
rustc_apfloat = "0.2"
thiserror = "1"
tokio = { version = "1", default-features = false, features = ["rt", "rt-multi-thread", "sync"] }
tracing = "0.1"
tracing-subscriber = "0.3"
