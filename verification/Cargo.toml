[package]
name = "account_core"
version = "0.1.0"
edition = "2021"
publish = false

[dependencies]
sha2 = "0.8"
uuid = { version = "1", features = ["v4"] }
tokio-postgres = { version = "0.7", features = ["with-uuid-1"] }
bb8-postgres = "0.9"
tokio = { version = "1", features = ["macros", "rt-multi-thread", "sync"] }
juniper = { version = "*", features = ["uuid"] }
juniper_rocket = "*"
rocket = { version = "0.5", features = ["secrets"] }
async-trait = "0.1"
log = "0.4"
