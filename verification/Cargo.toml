[package]
name = "run-that"
version = "0.1.0"
edition = "2021"
publish = false

[dependencies]
clap = { version = "=4.6.7", features = ["derive"] }
colored = "=2.2.0"
git2 = { version = "=0.21.0", features = ["https"] }
once_cell = "=1.21.4"
path-absolutize = "=3.1.1"
regex-syntax = { version = "=0.8.11", features = ["unicode-perl"] }
serde = { version = "=1.0.229", features = ["derive"] }
serde_yaml = "=0.9.34"
thiserror = "=1.0.69"

[dev-dependencies]
lazy-regex = "=3.6.2"
