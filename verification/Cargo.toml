[package]
name = "yamaha_avr"
version = "0.1.0"
edition = "2021"
publish = false

[dependencies]
xml-rs = "*"
regex = "*"
clap = "2"
hyper = "0.11"
futures = "0.1"
tokio-core = "0.1"
