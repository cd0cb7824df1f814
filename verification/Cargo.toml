[package]
name = "quality_ladder"
version = "0.1.0"
edition = "2021"
publish = false

[dependencies]
image = "0.18"
getopts = "0.2"
