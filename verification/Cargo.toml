[package]
name = "udp2amqp"
version = "0.1.0"
edition = "2021"
publish = false

[dependencies]
chrono = { version = "=0.4.45", default-features = false, features = ["clock"] }
envconfig = "=0.11.1"
fern = "=0.7.1"
lapin = { version = "=4.12.0", default-features = false, features = ["tokio"] }
log = "=0.4.34"
stable-eyre = "=0.2.2"
tide = { version = "=0.16.0", default-features = false, features = ["h1-server"] }
tokio = { version = "=1.53.2", features = ["rt-multi-thread", "net", "time", "macros"] }
