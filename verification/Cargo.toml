[package]
name = "imagebot"
version = "0.1.0"
edition = "2021"
publish = false

[dependencies]
substring = "=1.4.5"
figlet-rs = "=1.0.0"
serde = { version = "=1.0.229", features = ["derive"] }
ureq = { version = "=2.12.1", features = ["json"] }
nekosbest = "=0.21.6"
