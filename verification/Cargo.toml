[package]
name = "celeste_rs"
version = "0.1.0"
edition = "2021"
publish = false

[dependencies]
chrono = { version = "=0.4.45", features = ["serde"] }
serde = { version = "=1.0.229", features = ["derive"] }
quick-xml = { version = "=0.42.0", features = ["serialize"] }
serde-aux = "=4.7.0"
saphyr = "*"
