[package]
name = "libplasmoid_updater"
version = "0.1.0"
edition = "2021"
publish = false

[dependencies]
bytesize = "=2.7.0"
chrono = "=0.4.45"
clap = { version = "=4.6.7", features = ["derive"] }
comfy-table = "=8.0.1"
dirs = "=7.0.0"
freedesktop_entry_parser = "=2.0.1"
fs_extra = "=1.3.0"
indicatif = "=0.18.6"
inquire = "=0.9.4"
is-terminal = "=0.4.17"
log = "=0.4.34"
md5 = "=0.8.1"
nix = { version = "=0.31.3", features = ["user"] }
owo-colors = "=4.4.0"
parking_lot = "=0.12.5"
quick-xml = "=0.37.5"
rayon = "=1.12.0"
reqwest = { version = "=0.12.28", default-features = false, features = ["blocking", "rustls-tls"] }
serde = { version = "=1.0.229", features = ["derive"] }
serde_json = "=1.0.154"
terminal_size = "=0.4.4"
thiserror = "=2.0.21"
toml = "=1.1.0"
versions = "=8.0.1"
