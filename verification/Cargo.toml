[package]
name = "exc"
version = "0.1.0"
edition = "2021"
publish = false

[dependencies]
async-recursion = "1"
clap = "4"
colored = "2"
parking_lot = "0.12"
rustc-hash = "1"
thiserror = "1"
tokio = { version = "1", features = ["macros", "rt", "rt-multi-thread", "sync"] }
unicode-xid = "0.2"

[dev-dependencies]
rand = "0.8"
