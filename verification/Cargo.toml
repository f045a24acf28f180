[package]
name = "bench_link"
version = "0.1.0"
edition = "2021"
publish = false

[dependencies]
crc = "3"
serialport = { version = "4", default-features = false }
chrono = "0.4"
serde = { version = "1", features = ["derive"] }
csv = "1"
thiserror = "2"
rand = "0.9"
diesel = { version = "2", features = ["sqlite"] }
