[package]
name = "bluetooth"
version = "0.1.0"
edition = "2021"
publish = false

[dependencies]
btleplug = { version = "=0.11.8", features = ["serde"] }
dbus = { version = "=0.9.12", features = ["vendored"] }
uuid = { version = "=1.29.0", features = ["serde"] }
enumflags2 = { version = "=0.7.12", features = ["serde"] }
serde = { version = "=1.0.229", features = ["derive"] }
tokio = { version = "=1.54.1", features = ["rt-multi-thread", "sync", "time", "macros"] }
once_cell = "=1.21.4"
lazy_static = "=1.5.1"
anyhow = "=1.0.104"
tracing = "=0.1.44"
jni = "=0.19.0"
jni-utils = "=0.1.1"
