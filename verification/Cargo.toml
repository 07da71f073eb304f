[package]
name = "little_bobby_tabots"
version = "0.1.0"
edition = "2021"
publish = false

[dependencies]
axum = { version = "0.8", default-features = false, features = ["http1", "json", "tokio"] }
dotenvy = "0.15"
rand = { version = "=0.9.5", default-features = false, features = ["std", "std_rng", "thread_rng"] }
reqwest = { version = "0.12", default-features = false, features = ["native-tls"] }
serde = { version = "1", features = ["derive"] }
serenity = { version = "=0.12.5", default-features = false, features = ["builder", "cache", "client", "gateway", "http", "model", "native_tls_backend", "voice"] }
tokio = { version = "1", default-features = false, features = ["fs", "macros", "net", "process", "rt-multi-thread", "sync", "time"] }
tower-http = { version = "0.6", default-features = false, features = ["fs", "trace"] }
tracing = { version = "0.1", default-features = false, features = ["attributes", "std"] }
tracing-subscriber = { version = "0.3", default-features = false, features = ["env-filter", "fmt"] }
