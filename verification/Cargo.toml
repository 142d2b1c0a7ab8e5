[package]
name = "unseen_mail"
version = "0.1.0"
edition = "2021"
publish = false

[dependencies]
anyhow = "1"
async-imap = { version = "*", default-features = false, features = ["runtime-tokio"] }
async-native-tls = { version = "*", default-features = false, features = ["runtime-tokio"] }
clap = { version = "4", features = ["derive"] }
futures = "0.3"
mailparse = "*"
ntfy = "*"
serde = { version = "1", features = ["derive"] }
tokio = { version = "1", features = ["full"] }
toml = "*"
