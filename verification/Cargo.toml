[package]
name = "vectra"
version = "0.1.0"
edition = "2021"
publish = false

[dependencies]
anyhow = "1"
axum = { version = "0.8", default-features = false, features = ["json", "tokio", "http1"] }
chrono = { version = "0.4", default-features = false, features = ["now"] }
ethers = { version = "2", default-features = false }
http = "1"
iri-string = "0.7"
jsonwebtoken = "9"
rand = "0.9"
serde = { version = "1", features = ["derive"] }
serde_json = { version = "1", features = ["preserve_order"] }
sha2 = "0.10"
siwe = "0.6"
sqlx = { version = "0.8", default-features = false, features = ["postgres", "runtime-tokio"] }
thiserror = "1"
time = "0.3"
tokio = { version = "1", features = ["rt-multi-thread", "macros", "net"] }
tracing = "0.1"
uuid = { version = "1", features = ["v4"] }
