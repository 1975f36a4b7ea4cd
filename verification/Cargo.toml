[package]
name = "network_reachability"
version = "0.1.0"
edition = "2021"
publish = false

[dependencies]
anyhow = "*"
chrono = "*"
futures = "*"
ipnet = "*"
network-interface = "*"
reqwest = { version = "*", default-features = false }
tokio = { version = "*", features = ["net", "time", "rt"] }
trust-dns-resolver = "*"
