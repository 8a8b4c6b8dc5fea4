[package]
name = "stackful"
version = "0.1.0"
edition = "2021"

[dependencies]
psm = "0.1"
