[package]
name = "rusterizer"
version = "0.1.0"
edition = "2021"
publish = false

[dependencies]
png = "*"
minifb = "*"
