[package]
name = "horn_service"
version = "0.1.0"
edition = "2021"
publish = false

[dependencies]
async-trait = "0.1"
clap = { version = "4", features = ["derive", "env"] }
env_logger = "*"
http = "1"
log = "0.4"
protobuf = "3"
tokio = { version = "1", features = ["macros", "rt-multi-thread", "sync", "time"] }
up-rust = "*"
up-transport-mqtt5 = "*"
