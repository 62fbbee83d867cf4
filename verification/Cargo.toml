[package]
name = "korah"
version = "0.1.0"
edition = "2021"
publish = false

[dependencies]
chrono = { version = "0.4", features = ["serde"] }
clap = { version = "4", features = ["derive"] }
ctrlc = "3"
either = "1"
env_logger = "0.11"
log = "0.4"
netstat2 = "*"
regex = "1"
schemars = { version = "0.8", features = ["chrono"] }
serde = { version = "1", features = ["derive"] }
serde_json = { version = "1", features = ["raw_value"] }
shellexpand = { version = "3", features = ["path"] }
strfmt = "0.2"
sys-locale = "0.3"
sysinfo = "0.33"
thiserror = "1"
toml = "0.8"
ureq = { version = "2", features = ["json"] }
url = { version = "2", features = ["serde"] }
whoami = "1"
