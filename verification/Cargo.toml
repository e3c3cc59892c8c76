[package]
name = "remote_conn"
version = "0.1.0"
edition = "2021"
publish = false

[dependencies]
cidr-utils = "0.5"
lazy_static = "1.4"
log = "0.4"
serde = { version = "1", features = ["derive"] }
serde_json = "1"
sha2 = "0.10"
shutdown_hooks = "0.1"
system_shutdown = "4"
tokio = { version = "1", features = ["rt", "rt-multi-thread", "macros", "net", "sync", "time", "io-util"] }
totp-rs = { version = "5", default-features = false, features = ["otpauth", "gen_secret"] }
uuid = { version = "1", features = ["v4"] }
whoami = "1"
