[package]
name = "echo_auth"
version = "0.1.0"
edition = "2021"
publish = false

[dependencies]
actix-cors = "0.7"
actix-web = "4"
anyhow = "1"
chrono = { version = "0.4", features = ["serde"] }
futures = "0.3"
futures-util = "0.3"
jsonwebtoken = "9"
reqwest = { version = "0.12", default-features = false, features = ["json", "rustls-tls"] }
serde = { version = "1", features = ["derive"] }
serde_json = { version = "1", features = ["preserve_order"] }
shuttle-actix-web = "0.46"
shuttle-persist = "0.46"
shuttle-runtime = "0.46"
tokio = { version = "1", features = ["sync", "macros", "rt-multi-thread"] }
tracing = "0.1"
utoipa = { version = "4", features = ["actix_extras", "chrono", "uuid"] }
utoipa-scalar = { version = "0.1", features = ["actix-web"] }
uuid = { version = "1", features = ["v4", "serde"] }
