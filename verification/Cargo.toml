[package]
name = "media_library"
version = "0.1.0"
edition = "2021"
publish = false

[dependencies]
redb = "*"
fs_extra = "*"
uuid = { version = "*", features = ["v4"] }
serde = { version = "*", features = ["derive"] }
serde_json = "*"
toml = "*"
