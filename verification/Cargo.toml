[package]
name = "html_richtext"
version = "0.1.0"
edition = "2021"
publish = false

[dependencies]
html_parser = "*"
