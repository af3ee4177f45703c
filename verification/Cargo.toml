[package]
name = "timestamp_server"
version = "0.1.0"
edition = "2021"
publish = false

[dependencies]
frost-dalek = "0.2"
curve25519-dalek = "3"
sha2 = "0.9"
hex = "0.4"
rand = "0.7"
chrono = "0.4"
serde = { version = "1", features = ["derive"] }
serde_json = "1"
log = "0.4"
toml = "0.5"
futures = "0.3"
actix-web = { version = "4", default-features = false, features = ["macros"] }
actix-rt = "2"
reqwest = { version = "0.11", default-features = false, features = ["json"] }
tokio = { version = "1", features = ["macros", "rt-multi-thread"] }
clap = "3"
