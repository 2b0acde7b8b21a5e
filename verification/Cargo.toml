[package]
name = "ctviewer"
version = "0.1.0"
edition = "2021"
publish = false

[dependencies]
byteorder = "1"
flate2 = "1"
clap = { version = "4", features = ["derive"] }
