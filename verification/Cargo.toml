[package]
name = "dploy"
version = "0.1.0"
edition = "2021"
publish = false

[dependencies]
anyhow = "1"
bollard = "0.17"
clap = { version = "4", features = ["derive"] }
console = "0.15"
ctrlc = "3"
dotenvy = "0.15"
flate2 = "1"
futures = "0.3"
futures-util = "0.3"
ignore = "0.4"
itertools = "0.13"
notify = "6.1"
notify-debouncer-full = "0.3"
openssh = "0.10"
serde = { version = "1", features = ["derive"] }
tar = "0.4"
tempfile = "3"
termion = "4"
tokio = { version = "1", features = ["full"] }
toml = "0.8"
