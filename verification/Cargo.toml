[package]
name = "balto_bot"
version = "0.1.0"
edition = "2021"
publish = false

[dependencies]
base64 = "=0.21.7"
uuid = { version = "=1.29.0", features = ["v4"] }
lapin = "=2.5.5"
teloxide = { version = "=0.12.2", default-features = false, features = ["macros", "rustls", "ctrlc_handler"] }
# Not used directly: pins teloxide-core's dependency to the release that builds
# with the toolchain here (takecell 0.1.2 needs a newer rustc).
takecell = "=0.1.1"
tokio = { version = "=1.54.1", features = ["full"] }
serde = { version = "=1.0.229", features = ["derive"] }
serde_json = "=1.0.154"
fluent = "=0.16.1"
unic-langid = "=0.9.6"
futures-lite = "=1.13.0"
tracing = "=0.1.44"
tracing-subscriber = "=0.3.23"
thiserror = "=1.0.69"
sea-orm = { version = "=0.12.15", default-features = false, features = ["sqlx-sqlite", "runtime-tokio-rustls", "macros"] }
