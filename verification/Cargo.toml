[package]
name = "sniffglue"
version = "0.1.0"
edition = "2021"
publish = false

[dependencies]
ansi_term = "0.12"
atty = "0.2"
chrono = "0.4"
env_logger = "*"
log = "0.4"
num_cpus = "1"
pktparse = "0.6"
reduce = "0.1"
serde = { version = "1", features = ["derive"] }
serde_json = "1"
structopt = "0.3"
