[package]
name = "feedflow"
version = "0.1.0"
edition = "2021"
publish = false

[dependencies]
rss = "2"
atom_syndication = "0.12"
chrono = "0.4"
url = "2"
serde = { version = "1", features = ["derive"] }
serde_json = "1"
surf = { version = "2", default-features = false, features = ["h1-client-rustls"] }
smol = "2"
