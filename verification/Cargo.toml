[package]
name = "aw2013"
version = "0.1.0"
edition = "2021"

[dependencies]
embedded-hal = "1.0"
