[package]
name = "world_server"
version = "0.1.0"
edition = "2021"
publish = false

[dependencies]
podio = "=0.2.0"
bit_field = "=0.10.3"
hex = "=0.4.3"
chrono = "=0.4.45"
wow_world_messages = { version = "=0.3.0", features = ["wrath", "sync"] }
wow_world_base = { version = "=0.3.0", features = ["wrath", "extended"] }
wow_srp = { version = "=0.7.0", features = ["wrath-header"] }
flume = "=0.12.0"
anyhow = "=1.0.104"
tracing = "=0.1.44"
smol = "=2.0.2"
num_enum = "=0.7.6"
