[package]
name = "system_manager"
version = "0.1.0"
edition = "2021"
publish = false

[dependencies]
app_dirs2 = "2"
camino = { version = "1", features = ["serde1"] }
clap = { version = "4", features = ["derive"] }
clap_complete = "4"
serde = { version = "1", features = ["derive"] }
serde_json = "1"
thiserror = "2"
