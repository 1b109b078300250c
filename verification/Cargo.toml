[package]
name = "prometheus-mpd-exporter"
version = "0.1.0"
edition = "2021"
publish = false

[dependencies]
actix-web = "=3.3.3"
anyhow = "=1.0.104"
async-mpd = "=0.4.0"
env_logger = "=0.8.4"
getset = "=0.1.7"
itertools = "=0.10.5"
log = "=0.4.34"
num-traits = "=0.2.19"
parse-display = "=0.4.1"
prometheus_exporter_base = { version = "=1.4.0", default-features = false }
structopt = "=0.3.26"
thiserror = "=1.0.69"
