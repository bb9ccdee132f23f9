[package]
name = "address_labels"
version = "0.1.0"
edition = "2021"
publish = false

[dependencies]
anyhow = "1"
config = { version = "0.13", default-features = false, features = ["yaml"] }
futures-util = "0.3"
rayon = "1"
reqwest = { version = "0.11", default-features = false, features = ["json", "rustls-tls"] }
secrecy = { version = "0.8", features = ["serde"] }
serde = { version = "1", features = ["derive"] }
serde-aux = "4"
serde_json = "1"
sqlx = { version = "0.6", default-features = false, features = ["runtime-tokio-rustls", "postgres", "migrate"] }
tokio = { version = "1", features = ["macros", "rt-multi-thread", "sync"] }
