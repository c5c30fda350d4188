[package]
name = "cargo-crusader"
version = "0.1.1"
edition = "2021"
publish = false

[dependencies]
semver = "1"
unicode-width = "0.1"
serde = { version = "1", features = ["derive"] }
serde_json = "1"
toml = "0.8"
toml_edit = "0.22"
clap = { version = "4", features = ["derive"] }
chrono = "0.4"
fs2 = "0.4"
crates_io_api = { version = "0.11", default-features = false, features = ["rustls"] }
ureq = "2"
threadpool = "1"
tempfile = "3"
term = "0.7"
terminal_size = "0.3"
env_logger = "0.11"
log = "0.4"
