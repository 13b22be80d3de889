[package]
name = "dashboard"
version = "0.1.0"
edition = "2021"
publish = false

[dependencies]
regex = "1"
tui = "0.19"
windows = { version = "0.58", features = ["Foundation", "Storage", "System"] }
