[package]
name = "hotshot"
version = "0.1.0"
edition = "2021"
publish = false

[dependencies]
anyhow = "*"
arboard = "*"
ashpd = { version = "=0.13.13", features = ["screenshot"] }
base64 = "=0.23.1"
chrono = "*"
clap = { version = "*", features = ["derive"] }
dirs = "*"
image = "*"
rand = "*"
serde = { version = "*", features = ["derive"] }
serde_json = "*"
thiserror = "*"
tokio = { version = "*", features = ["rt", "time"] }
toml = "*"
trash = "*"
x11rb = { version = "=0.14.0", features = ["render", "randr"] }
