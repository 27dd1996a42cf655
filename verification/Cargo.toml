[package]
name = "stxn_solver"
version = "0.1.0"
edition = "2021"
publish = false

[dependencies]
axum = "0.7"
bigdecimal = { version = "0.4", features = ["serde"] }
chrono = "0.4"
clap = { version = "4", features = ["derive"] }
cron = "*"
ethers = { version = "2", default-features = false, features = ["ws"] }
ethers-core = "2"
fatal = "*"
hex = "0.4"
parse_duration = "2"
serde = { version = "1", features = ["derive"] }
tokio = { version = "1", features = ["full"] }
uuid = { version = "1", features = ["v4", "serde"] }
warp = "0.3"
