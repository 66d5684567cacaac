[package]
name = "git_mirror"
version = "0.1.0"
edition = "2021"
publish = false

[dependencies]
slug = "*"
serde_yaml = "*"
serde_json = "*"
serde = { version = "*", features = ["derive"] }
serde_derive = "*"
clap = { version = "*", features = ["derive", "env"] }
env_logger = "*"
fs2 = "*"
junit-report = "*"
log = "*"
openssl-probe = "*"
prometheus = "*"
rayon = "*"
reqwest = { version = "*", default-features = false, features = ["blocking"] }
thiserror = "*"
time = "*"
wait-timeout = "*"
