[package]
name = "livereload_server"
version = "0.1.0"
edition = "2021"
publish = false

[dependencies]
tokio = { version = "1", features = ["rt-multi-thread", "macros", "sync", "fs"] }
warp = "0.3"
notify = "*"
futures-util = "0.3"
clap = { version = "4", features = ["derive"] }
log = "0.4"
pretty_env_logger = "0.5"
dotenv = "0.15"
anyhow = "1"
