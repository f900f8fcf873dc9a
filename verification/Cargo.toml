[package]
name = "onecadmin"
version = "0.1.0"
edition = "2021"
publish = false

[dependencies]
async-trait = "=0.1.92"
chrono = "=0.4.45"
clap = { version = "=4.6.7", features = ["derive", "env"] }
comfy-table = "=7.2.2"
crossterm = "=0.29.0"
csv = "=1.4.0"
encoding_rs = "=0.8.44"
file-rotate = "=0.8.0"
fs4 = "=1.1.0"
futures = "=0.3.34"
indexmap = { version = "=2.14.2", features = ["serde"] }
noyalib = "=0.0.58"
regex = "=1.13.1"
serde = { version = "=1.0.229", features = ["derive"] }
serde_json = { version = "=1.0.154", features = ["preserve_order"] }
tempfile = "=3.27.0"
thiserror = "=2.0.21"
tokio = { version = "=1.54.1", features = ["full"] }
tokio-util = { version = "=0.7.20", features = ["rt"] }
tracing-appender = "=0.2.5"
tracing-subscriber = { version = "=0.3.23", features = ["env-filter"] }
uuid = { version = "=1.29.0", features = ["v4", "serde"] }
zeroize = { version = "=1.9.1", features = ["derive"] }
