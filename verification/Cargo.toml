[package]
name = "ncspot"
version = "0.1.0"
edition = "2021"
publish = false

[dependencies]
chrono = "0.4"
cursive = "*"
rayon = "1"
reqwest = { version = "*", features = ["blocking", "json"] }
rspotify = "*"
serde = { version = "1", features = ["derive"] }
