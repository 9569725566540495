[package]
name = "grf"
version = "0.1.0"
edition = "2021"
publish = false

[dependencies]
anyhow = "1"
chrono = { version = "0.4", default-features = false, features = ["std", "clock"] }
clap = { version = "4", features = ["derive"] }
etcetera = "*"
serde_json = { version = "1", features = ["preserve_order"] }
tabled = { version = "*", default-features = false, features = ["std"] }
tempfile = "3"
thiserror = "*"
