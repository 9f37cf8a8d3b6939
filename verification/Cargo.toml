[package]
name = "msd_sync"
version = "0.1.0"
edition = "2021"
publish = false

[dependencies]
anyhow = "=1.0.104"
dotenvy = "=0.15.7"
fs_extra = "=1.3.0"
minacalc-rs = { version = "=0.2.2", features = ["osu"] }
reqwest = { version = "=0.13.5", default-features = false, features = ["json"] }
rosu-map = "=0.2.1"
serde = { version = "=1.0.229", features = ["derive"] }
serde_json = "=1.0.154"
sha1_smol = { version = "=1.0.1", features = ["std"] }
tokio = { version = "=1.54.1", features = ["macros", "rt-multi-thread", "fs", "time"] }
tracing = "=0.1.44"
tracing-subscriber = { version = "=0.3.23", features = ["env-filter", "fmt"] }
