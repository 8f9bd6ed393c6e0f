[package]
name = "laccaria"
version = "0.1.0"
edition = "2021"
publish = false

[dependencies]
anyhow = "1"
async-std = { version = "1", features = ["unstable"] }
clap = { version = "4", features = ["derive"] }
comfy-table = "7"
daemonize = "0.5"
log = "0.4"
pretty_env_logger = "0.5"
shlex = "1"
sled = "0.34"
sysinfo = "0.29"
tokio = { version = "1", features = ["macros", "rt-multi-thread"] }
zbus = "3"
