[package]
name = "tenx_hooks"
version = "0.1.0"
edition = "2021"
publish = false

[dependencies]
atty = "0.2"
clap = { version = "4", features = ["derive"] }
serde = { version = "1", features = ["derive"] }
serde_json = "1"
syntect = { version = "5", default-features = false, features = ["default-fancy"] }
termcolor = "1"
thiserror = "1"
