[package]
name = "zerosim_tools"
version = "0.1.0"
edition = "2021"
publish = false

[dependencies]
itertools = "*"
chrono = "*"
serde = { version = "1", features = ["derive"] }
serde_json = "1"
clap = "2"
crossbeam = "*"
log = "*"
env_logger = "*"
prettytable-rs = "*"
libc = "*"
indicatif = "*"
spurs = "*"
spurs-util = "*"
bitflags = "*"
failure = "*"
