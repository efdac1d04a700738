[package]
name = "sm_pkg"
version = "0.1.0"
edition = "2021"
publish = false

[dependencies]
archive = "*"
askama = "*"
auth-git2 = "*"
chrono = "*"
clap = { version = "*", features = ["derive"] }
clap_complete = "*"
flate2 = "*"
git2 = "*"
inquire = "*"
reqwest = "*"
resolve-path = "*"
serde = { version = "*", features = ["derive"] }
serde_json = "*"
serde_yaml = "*"
tar = "*"
tokio = { version = "*", features = ["rt-multi-thread", "macros"] }
which = "*"
