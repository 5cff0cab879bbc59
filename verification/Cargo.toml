[package]
name = "circuitikz_grid"
version = "0.1.0"
edition = "2021"
publish = false

[dependencies]
iced = { version = "0.12", default-features = false, features = ["tokio"] }
open = "5"
tokio = { version = "1", features = ["fs", "process", "rt"] }
