[package]
name = "mail_migrate"
version = "0.1.0"
edition = "2021"
publish = false

[dependencies]
clap = { version = "*", features = ["derive"] }
csv = "*"
env_logger = "*"
log = "*"
num_cpus = "*"
tokio = { version = "*", features = ["rt-multi-thread", "macros", "sync"] }
