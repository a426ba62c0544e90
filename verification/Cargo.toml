[package]
name = "lsp_server_state"
version = "0.1.0"
edition = "2021"
publish = false

[dependencies]
crossbeam-channel = "0.5"
dashmap = "5.5.3"
lsp-types = "0.94"
parking_lot = "0.12"
tokio = { version = "1", features = ["sync"] }
tower-lsp = "0.20"
tracing = "0.1"
