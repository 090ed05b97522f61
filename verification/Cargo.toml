[package]
name = "zkcoprocessor"
version = "0.1.0"
edition = "2021"
publish = false

[dependencies]
hex = "0.4"
sha2 = "0.10"
serde = { version = "1", features = ["derive"] }
bincode = "1.3"
anyhow = "1"
clap = { version = "4", features = ["derive"] }
tokio = { version = "1", features = ["macros", "rt-multi-thread", "time"] }
tracing = "0.1"
tracing-subscriber = "0.3"
chrono = "0.4"
ethers = { version = "2", default-features = false }
tigerbeetle-unofficial = "*"
sp1-lib = "4"
