[package]
name = "kamu"
version = "0.1.0"
edition = "2021"
publish = false

[dependencies]
async-graphql = { version = "6", default-features = false }
async-trait = "0.1"
chrono = "=0.4.38"
datafusion = { version = "31", default-features = false }
futures = "0.3"
libc = "0.2"
object_store = { version = "0.7", features = ["aws"] }
regex = "1"
serde = { version = "1", features = ["derive"] }
serde_json = "1"
serde_yaml = "0.9"
signal-hook = "0.3"
sqlx = { version = "0.8", default-features = false, features = ["runtime-tokio", "sqlite", "chrono", "json"] }
thiserror = "1"
tokio = { version = "1", features = ["fs", "io-std", "io-util", "macros", "process", "rt-multi-thread", "sync", "time"] }
tokio-stream = "0.1"

url = "2"
