[package]
name = "ocg_duel"
version = "0.1.0"
edition = "2021"
publish = false

[dependencies]
bitflags = "1.3.2"
thiserror = "1.0.69"
