[package]
name = "rsvp"
version = "0.1.0"
edition = "2021"
publish = false

[dependencies]
bytes = "=1.12.1"
config = { version = "=0.15.27", default-features = false, features = ["toml"] }
diesel = { version = "=2.3.14", features = ["sqlite"] }
futures = "=0.3.34"
gotham = "=0.8.1"
gotham_derive = "=0.8.1"
http = "=1.5.0"
hyper = "=1.12.0"
lazy_static = "=1.5.1"
mime = "=0.3.17"
reqwest = { version = "=0.13.5", features = ["query"] }
serde = { version = "=1.0.229", features = ["derive"] }
serde_derive = "=1.0.229"
serde_urlencoded = "=0.7.1"
url = "=2.5.8"
uuid = { version = "=1.29.0", features = ["v4"] }
