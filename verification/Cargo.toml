[package]
name = "euler"
version = "0.4.1"
edition = "2021"
publish = false

[dependencies]
approx = "0.1"
cgmath = "0.16"
mint = "0.5"
