[package]
name = "tidybee_agent"
version = "0.1.0"
edition = "2021"
publish = false

[dependencies]
xxhash-rust = { version = "0.8", features = ["xxh3"] }
regex = "1"
chrono = "0.4"
config = { version = "0.13", default-features = false, features = ["yaml", "json"] }
serde = { version = "1", features = ["derive"] }
serde_json = "1"
rusqlite = { version = "0.29", features = ["bundled"] }
r2d2 = "0.8"
r2d2_sqlite = "0.22"
notify = "6"
notify-debouncer-full = "0.3"
tokio = { version = "1", features = ["full"] }
axum = "0.7"
tower-http = { version = "0.5", features = ["trace"] }
tracing = "0.1"
tracing-subscriber = "0.3"
reqwest = { version = "0.11", default-features = false, features = ["json"] }
gethostname = "0.4"
sysinfo = "0.29"
clap = "2"
simplelog = "0.12"
itertools = "0.12"
lazy_static = "1"
anyhow = "1"
thiserror = "1"
log = "0.4"
crossbeam-channel = "0.5"
