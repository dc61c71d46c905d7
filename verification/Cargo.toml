[package]
name = "wlgif"
version = "0.1.0"
edition = "2021"
publish = false

[dependencies]
which = "*"
anyhow = "1"
clap = { version = "4", features = ["derive"] }
colored = "*"
const_format = "0.2"
ctrlc = "3"
libc = "0.2"
tempfile = "3"
thiserror = "*"
