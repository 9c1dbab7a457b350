[package]
name = "dfq"
version = "0.1.0"
edition = "2021"
publish = false

[dependencies]
datafusion = "=55.2.0"
tokio = { version = "=1.53.2", features = ["macros", "rt-multi-thread"] }
clap = { version = "=4.6.7", features = ["derive"] }

[dev-dependencies]
bytes = "=1.12.1"
