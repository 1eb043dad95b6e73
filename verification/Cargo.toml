[package]
name = "debug_text_view"
version = "0.1.0"
edition = "2021"
publish = false

[dependencies]
crossbeam-queue = "=0.3.14"
eldenring = "=0.11.0"
eldenring-util = "=0.11.0"
hudhook = { version = "*", default-features = false, features = ["dx12"] }
pelite = "=0.10.0"
retour = { version = "=0.3.1", features = ["static-detour"] }
tracing = "=0.1.44"
tracing-panic = "=0.1.3"
tracing-subscriber = { version = "=0.3.23", features = ["env-filter"] }
