[package]
name = "chat_guard"
version = "0.1.0"
edition = "2021"
publish = false

[dependencies]
rand = "=0.8.8"
log = "0.4"
pretty_env_logger = "0.5"
tokio = { version = "1", features = ["macros", "rt-multi-thread", "time", "sync"] }
teloxide = { version = "=0.17.0", features = ["macros", "rustls", "ctrlc_handler"], default-features = false }
takecell = "=0.1.1"
