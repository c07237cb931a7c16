[package]
name = "svg_cascade"
version = "0.1.0"
edition = "2021"
publish = false

[dependencies]
cssparser = "0.27"
markup5ever = "0.10"
