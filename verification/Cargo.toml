[package]
name = "enso_temper"
version = "0.1.0"
edition = "2021"
publish = false

[dependencies]
dashmap = "5"
dotenvy = "0.15"
log = "0.4"
pretty_env_logger = "0.5"
tokio = { version = "1", features = ["macros", "rt-multi-thread"] }
warp = "0.3"
