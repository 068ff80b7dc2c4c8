[package]
name = "egg_bench"
version = "0.1.0"
edition = "2021"
publish = false

[dependencies]
egg = "0.9.5"
num-rational = "0.4.2"
regex = "1"
csv = "1"
serde = { version = "1", features = ["derive"] }
structopt = "0.3"
env_logger = "0.10"
log = "0.4"
