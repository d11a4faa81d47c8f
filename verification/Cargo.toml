[package]
name = "notedeck"
version = "0.1.0"
edition = "2021"
publish = false

[dependencies]
bincode = "1.3.3"
egui = { version = "0.29.1", default-features = false }
ehttp = "0.5.0"
poll-promise = "0.3.0"
tracing = "0.1.40"
