[package]
name = "eventcore"
version = "0.1.0"
edition = "2021"
publish = false

[dependencies]
serde = { version = "*", features = ["derive"] }
chrono = { version = "*", features = ["serde"] }
smol_str = "*"
cqrs-es = "*"
async-trait = "*"
thiserror = "*"
disintegrate = "*"
