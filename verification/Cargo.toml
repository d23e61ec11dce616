[package]
name = "ntex_web"
version = "0.1.0"
edition = "2021"
publish = false

[dependencies]
bytes = "0.5"
futures = "0.3"
log = "0.4"
pin-project = "0.4"
time = { version = "0.2", default-features = false, features = ["std"] }

[dev-dependencies]
regex = "1"
