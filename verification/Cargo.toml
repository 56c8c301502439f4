[package]
name = "aqara"
version = "0.1.0"
edition = "2021"
publish = false

[dependencies]
http = "1"
httpdate = "1"
md5 = "0.7"
rand = "0.9"
serde_json = "1"
url = "2"
serde = { version = "1", features = ["derive"] }
thiserror = "2"
ureq = "3"
reqwest = { version = "0.12", default-features = false, features = ["rustls-tls"] }
tokio = { version = "1", features = ["time"] }
rustls = "0.23"
