[package]
name = "njord"
version = "0.1.0"
edition = "2021"
publish = false

[dependencies]
chrono = { version = "=0.4.45", features = ["serde"] }
rust_decimal = "=1.43.0"
serde = { version = "=1.0.229", features = ["derive"] }
csv = "=1.4.0"
inquire = "=0.7.5"
reqwest = { version = "=0.11.27", default-features = false, features = ["blocking", "json"] }
confy = "=0.6.1"
open = "=5.4.4"
color-eyre = "=0.6.5"
once_cell = "=1.21.4"
