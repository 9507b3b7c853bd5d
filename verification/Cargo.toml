[package]
name = "alica_messages_client"
version = "0.1.0"
edition = "2021"
publish = false

[dependencies]
clap = { version = "2", features = ["yaml"] }
data-encoding = "2"
dirs = "*"
protobuf = "2"
rand = "0.8"
sawtooth-sdk = "*"
sha2 = "0.9"
uuid = { version = "1", features = ["v4"] }
