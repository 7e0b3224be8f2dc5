[package]
name = "loganalyzer"
version = "0.1.0"
edition = "2021"
publish = false

[dependencies]
serde_json = "=1.0.151"
warp = { version = "=0.4.3", features = ["server"] }
tokio = { version = "=1.53.2", features = ["macros", "rt-multi-thread"] }
log = "=0.4.34"
pretty_env_logger = "=0.5.0"
