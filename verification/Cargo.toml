[package]
name = "unified"
version = "0.1.0"
edition = "2021"
publish = false

[dependencies]
macaddr = "*"
ipnet = "*"
cookie = "*"
chrono = "*"
reqwest = { version = "*", default-features = false, features = ["rustls-tls"] }
