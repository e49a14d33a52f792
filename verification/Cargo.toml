[package]
name = "async-io"
version = "1.1.7"
edition = "2021"
publish = false

[dependencies]
fastrand = "1"
futures-lite = "1"
nb-connect = "1"
