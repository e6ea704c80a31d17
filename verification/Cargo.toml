[package]
name = "prime_trainer"
version = "0.1.0"
edition = "2021"
publish = false

[dependencies]
byteorder = "1"
serde = { version = "1", features = ["derive"] }
serde_json = "1"
uuid = { version = "1", features = ["v4"] }
clap = "*"
enigo = "*"
read-process-memory = "*"
sysinfo = "*"
