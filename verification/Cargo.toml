[package]
name = "supernovas"
version = "0.1.0"
edition = "2021"
publish = false

[dependencies]
quick-xml = "=0.37.5"
hifitime = "=4.3.1"
reqwest = { version = "=0.13.5", default-features = false, features = ["blocking"] }
