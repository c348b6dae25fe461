[package]
name = "ime_compose"
version = "0.1.0"
edition = "2021"
publish = false

[dependencies]
egui = { version = "0.26", default-features = false }
