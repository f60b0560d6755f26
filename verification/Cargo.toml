[package]
name = "ppot_verifier"
version = "0.1.0"
edition = "2021"
publish = false

[dependencies]
anyhow = "=1.0.104"
blake2 = "=0.9.2"
futures = "=0.3.34"
indicatif = "=0.17.11"
memmap = "0.7"
reqwest = "=0.11.27"
tokio = { version = "=1.54.1", features = ["fs", "io-util", "net", "rt-multi-thread", "time"] }
