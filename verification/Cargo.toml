[package]
name = "wwff_directory"
version = "0.1.0"
edition = "2021"
publish = false

[dependencies]
chrono = { version = "0.4", default-features = false, features = ["std"] }
csv = "1"
reqwest = { version = "0.12", default-features = false, features = ["rustls-tls"] }
thiserror = "1"
tinystr = "0.7"
tracing = "0.1"
