[package]
name = "janalytics"
version = "0.1.0"
edition = "2021"
publish = false

[dependencies]
anyhow = "1"
colored = "2"
ethers = { version = "2.0", default-features = false, features = ["rustls"] }
tokio = { version = "1", features = ["macros", "rt-multi-thread", "time"] }
