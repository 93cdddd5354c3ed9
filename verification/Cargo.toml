[package]
name = "xml_fmt"
version = "0.1.0"
edition = "2021"
publish = false

[dependencies]
xml-rs = "0.8"
clap = { version = "4", features = ["derive"] }
