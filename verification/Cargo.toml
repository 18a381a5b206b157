[package]
name = "relay-gitcode-cli"
version = "0.1.0"
edition = "2021"
publish = false

[dependencies]
anyhow = "=1.0.104"
base64 = "=0.22.1"
clap = { version = "=4.6.7", features = ["derive", "env"] }
clap_complete = "=4.6.11"
dirs = "=6.0.0"
keyring = "=4.2.0"
keyring-core = "=1.0.1"
reqwest = { version = "=0.12.28", features = ["json"] }
serde = { version = "=1.0.229", features = ["derive"] }
serde_json = "=1.0.154"
strsim = "=0.11.1"
tokio = { version = "=1.54.1", features = ["full"] }
url = "=2.5.8"
