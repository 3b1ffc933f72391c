[package]
name = "oxi_launcher"
version = "0.1.0"
edition = "2021"
publish = false

[dependencies]
physis = "*"
base64 = "*"
serde_json = "*"
sysinfo = "*"
anyhow = "*"
clap = { version = "*", features = ["derive"] }
dirs = "*"
glob = "*"
reqwest = { version = "*", default-features = false, features = ["json"] }
rpassword = "*"
serde = { version = "*", features = ["derive"] }
serde_yaml = "*"
tokio = { version = "*", features = ["rt-multi-thread", "macros"] }
