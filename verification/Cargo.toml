[package]
name = "ucg"
version = "0.1.0"
edition = "2021"
publish = false

[dependencies]
regex = "1"
unicode-segmentation = "1"
abortable_parser = "*"
simple-error = "*"
