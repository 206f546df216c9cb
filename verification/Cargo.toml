[package]
name = "neos"
version = "0.1.0"
edition = "2021"
publish = false

[dependencies]
chrono = { version = "0.4", default-features = false, features = ["clock", "std"] }
minreq = { version = "2", features = ["json-using-serde"] }
racal = "*"
serde = { version = "1", features = ["derive"] }
serde_json = "1"
serde_with = "*"
strum = { version = "*", features = ["derive"] }
time = { version = "0.3", features = ["formatting", "parsing", "serde"] }
