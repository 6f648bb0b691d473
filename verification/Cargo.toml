[package]
name = "servicer"
version = "0.1.0"
edition = "2021"
publish = false

[dependencies]
bytesize = "1"
clap = { version = "4", features = ["derive"] }
cli-table = "0.4"
futures = "0.3"
libc = "0.2"
tempfile = "3"
tokio = { version = "1", features = ["fs", "io-util", "macros", "process", "rt-multi-thread", "time"] }
which = "4"
zbus = "3"
