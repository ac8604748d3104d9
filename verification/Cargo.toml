[package]
name = "github_updater"
version = "0.1.0"
edition = "2021"
publish = false

[dependencies]
sha2 = "0.10"
reqwest = { version = "=0.12.28", default-features = false, features = ["json"] }
tokio = { version = "=1.53.2", features = ["fs", "io-util", "rt", "macros"] }
serde = { version = "=1.0.229", features = ["derive"] }
