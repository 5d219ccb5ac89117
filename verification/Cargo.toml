[package]
name = "xhci_hcd_rebind"
version = "0.1.0"
edition = "2021"
publish = false

[dependencies]
regex = "*"
anyhow = "*"
clap = { version = "*", features = ["derive"] }
config = "*"
mimalloc = "*"
systemd = "*"
tracing = "*"
tracing-subscriber = { version = "*", features = ["env-filter"] }
wait-timeout = "*"
