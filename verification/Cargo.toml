[package]
name = "server_maintainer"
version = "0.1.0"
edition = "2021"
publish = false

[dependencies]
chrono = "0.4"
clap = { version = "*", features = ["cargo"] }
crossbeam = "*"
discord = "*"
fern = "*"
log = "0.4"
serde_json = "1"
text_io = "0.1"
