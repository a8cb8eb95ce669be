[package]
name = "swatchdog"
version = "0.1.0"
edition = "2021"
publish = false

[dependencies]
url = "2"
get_if_addrs = "*"
clap = { version = "4", features = ["derive"] }
parse_duration = "*"
reqwest = { version = "*", default-features = false, features = ["blocking"] }
