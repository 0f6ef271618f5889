[package]
name = "quickemu"
version = "0.1.0"
edition = "2021"
publish = false

[dependencies]
size = "0.4"
pathdiff = "0.2"
anyhow = "1"
clap = { version = "4", features = ["derive"] }
serde = { version = "1", features = ["derive"] }
serde_json = "1"
toml = "0.8"
sysinfo = "0.30"
num_cpus = "1"
raw-cpuid = "11"
dirs = "5"
which = "6"
log = "0.4"
env_logger = "0.11"
