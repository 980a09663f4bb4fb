[package]
name = "taintoooor"
version = "0.1.0"
edition = "2021"
publish = false

[dependencies]
rand = "0.8"
image = "0.24"
unicode-segmentation = "1"
solang-parser = "0.1.18"
colored = "2"
