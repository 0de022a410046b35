[package]
name = "ftui"
version = "0.1.0"
edition = "2021"
publish = false

[dependencies]
crossterm = "*"
unicode-segmentation = "*"
unicode-width = "*"
