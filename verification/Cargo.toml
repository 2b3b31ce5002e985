[package]
name = "muninn_core"
version = "0.1.0"
edition = "2021"
publish = false

[dependencies]
anyhow = "=1.0.104"
cfb = "=0.14.0"
chrono = { version = "=0.4.45", features = ["serde"] }
clap = { version = "=4.6.7", features = ["derive"] }
filetime = "=0.2.29"
globset = "=0.4.21"
hostname = "=0.4.2"
infer = "=0.22.0"
lopdf = "*"
mime_guess = "=2.0.5"
rayon = "=1.12.0"
regex = "=1.13.1"
serde = { version = "=1.0.229", features = ["derive"] }
serde_json = "=1.0.154"
thiserror = "=2.0.21"
tracing = "=0.1.44"
tracing-subscriber = { version = "=0.3.23", features = ["env-filter"] }
walkdir = "=2.5.0"
zip = { version = "*", default-features = false }
