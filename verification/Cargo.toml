[package]
name = "rusty_boy"
version = "0.1.0"
edition = "2021"
publish = false

[dependencies]
heapless = "=0.8.0"
anyhow = "=1.0.104"
clap = { version = "=4.6.7", features = ["derive"] }
png = "=0.17.16"
log = "=0.4.35"
env_logger = "=0.11.11"
sdl2 = "=0.37.0"
base64 = "*"
goblin = "*"
rustc-demangle = "*"
