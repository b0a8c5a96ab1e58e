[package]
name = "autocrop_bot"
version = "0.1.0"
edition = "2021"
publish = false

[dependencies]
anyhow = "=1.0.104"
autocrop = "=0.1.1"
dotenvy = "=0.15.7"
# Reads images in, and names the error type of autocrop's encoder. autocrop turns its formats on.
image = { version = "=0.25.10", default-features = false }
# Nothing here uses it; teloxide does, and its 0.1.2 needs rustc 1.96.
takecell = "=0.1.1"
teloxide = { version = "=0.17.0", default-features = false, features = ["macros", "ctrlc_handler", "rustls"] }
tokio = { version = "=1.54.1", features = ["macros", "rt-multi-thread", "fs", "process"] }
tracing = "=0.1.44"
tracing-subscriber = { version = "=0.3.23", features = ["env-filter"] }
