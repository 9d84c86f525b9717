[package]
name = "anda_brain"
version = "0.1.0"
edition = "2021"
publish = false

[dependencies]
anda_cognitive_nexus = "=0.14.5"
anda_kip = "=0.14.5"
async-trait = "=0.1.92"
axum = "=0.8.9"
candid = "=0.10.39"
clap = { version = "=4.6.7", features = ["derive", "env"] }
dotenv = "=0.15.0"
futures = "=0.3.34"
http = "=1.5.0"
log = "=0.4.35"
object_store = { version = "=0.14.2", default-features = false }
parking_lot = "=0.12.5"
serde = { version = "=1.0.229", features = ["derive"] }
serde_json = "=1.0.154"
tokio = { version = "=1.54.1", features = ["rt-multi-thread", "macros", "time", "sync", "signal", "net"] }
tokio-util = "=0.7.20"
tower = { version = "=0.5.3", features = ["limit", "load-shed", "util"] }
tower-http = { version = "0.6", features = ["cors", "compression-gzip"] }
url = "=2.5.8"
