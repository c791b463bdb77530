[package]
name = "project_book"
version = "0.1.0"
edition = "2021"
publish = false

[dependencies]
askama = { version = "0.12", default-features = false }
derive_more = { version = "0.99", default-features = false, features = ["display", "error", "from"] }
log = "0.4"
rayon = "1"
reqwest = { version = "0.12", default-features = false, features = ["blocking", "json", "default-tls"] }
serde = { version = "1", features = ["derive"] }
serde_json = "1"
uuid = { version = "1", features = ["v4"] }
