[package]
name = "batch2parquet"
version = "0.1.0"
edition = "2021"
publish = false

[dependencies]
arrow = "=56.2.1"
futures = "=0.3.34"
futures-util = "=0.3.34"
parquet = { version = "=56.2.1", features = ["arrow", "async"] }
tokio = { version = "=1.53.2", features = ["fs", "io-util", "macros", "rt-multi-thread"] }
clap = { version = "=4.6.7", features = ["derive"] }
rs-zips2meta2rbat2stream = "*"

[dev-dependencies]
bytes = "=1.12.1"
