[package]
name = "clap_markdown"
version = "0.1.0"
edition = "2021"
publish = false

[dependencies]
clap = "4"
