[package]
name = "transparent_runner"
version = "0.1.0"
edition = "2021"

[dependencies]
uuid = { version = "1", features = ["v4"] }
widestring = "1"
ctrlc = "3"
