[package]
name = "open_download_manager"
version = "0.1.0"
edition = "2021"
publish = false

[dependencies]
sha2 = "*"
hex = "*"
serde = { version = "*", features = ["derive"] }
serde_json = "*"
toml = "*"
ctrlc = "*"
reqwest = { version = "*", default-features = false, features = ["blocking"] }
