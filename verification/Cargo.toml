[package]
name = "lanshare"
version = "0.1.0"
edition = "2021"
publish = false

[dependencies]
actix-web = "*"
actix-files = "*"
clap = { version = "*", features = ["derive"] }
get_if_addrs = "*"
tabled = "*"
