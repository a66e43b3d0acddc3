[package]
name = "kanidm-auth-plugin"
version = "0.1.0"
edition = "2021"
publish = false

[dependencies]
anyhow = "1"
clap = { version = "4", features = ["derive"] }
http = "1"
rpassword = "7"
serde = { version = "1", features = ["derive"] }
thiserror = "2"
toml = "0.8"
ureq = { version = "3", features = ["json", "platform-verifier"] }
