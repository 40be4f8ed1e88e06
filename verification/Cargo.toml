[package]
name = "actixutils"
version = "0.6.5"
edition = "2021"
publish = false

[dependencies]
actix-web = { version = "4", default-features = false, features = ["macros", "cookies"] }
anyhow = "1"
async-trait = "0.1"
bincode = { version = "2", features = ["serde"] }
bytes = "1"
chrono = { version = "0.4", default-features = false, features = ["clock", "std"] }
futures = "0.3"
futures-util = "0.3"
ipnet = "2"
jsonwebtoken = "9"
moka = { version = "0.12", features = ["future"] }
rand = "*"
redis = { version = "0.27", features = ["tokio-comp", "connection-manager"] }
reqwest = { version = "0.12", default-features = false }
serde = { version = "1", features = ["derive"] }
tokio = { version = "1", features = ["rt", "time", "sync", "macros"] }
tracing = "0.1"
uuid = { version = "1", features = ["v4", "serde"] }
