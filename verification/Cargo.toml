[package]
name = "laurel_lsp"
version = "0.1.0"
edition = "2021"
publish = false

[dependencies]
async-lsp = "=0.2.4"
futures = "=0.3.34"
fuzzy-matcher = "=0.3.7"
ropey = "=1.6.1"
thiserror = "=2.0.21"
tokio = { version = "=1.54.1", features = ["macros", "process", "rt", "rt-multi-thread", "sync"] }
tokio-util = { version = "=0.7.20", features = ["compat"] }
tower = "=0.5.3"
tracing = "=0.1.44"
tracing-subscriber = { version = "=0.3.23", features = ["env-filter"] }
unicode-segmentation = "=1.13.3"
