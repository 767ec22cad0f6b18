[package]
name = "ucar_core"
version = "0.1.0"
edition = "2021"
publish = false

[dependencies]
serde = { version = "1", features = ["derive"] }
serde_json = "1"
up-rust = "*"
tokio = { version = "1", features = ["macros", "rt-multi-thread", "time"] }
ctrlc = "3"
log = "0.4"
pretty_env_logger = "*"
env_logger = "*"
