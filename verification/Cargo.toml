[package]
name = "immortal-core"
version = "0.1.0"
edition = "2021"
publish = false

[dependencies]
libc = "0.2"
nix = { version = "*", features = ["user"] }
serde = { version = "1", features = ["derive"] }
serde-saphyr = "*"
tokio = { version = "1", features = ["io-util", "macros", "net", "rt", "signal", "sync", "time"] }
