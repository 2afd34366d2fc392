[package]
name = "weact_studio_epd"
version = "0.1.0"
edition = "2021"
publish = false

[dependencies]
display-interface = "0.5"
embedded-hal = "1.0"
embedded-hal-async = "1.0"
maybe-async-cfg = "0.2"
