[package]
name = "sc2_gamedata"
version = "0.1.0"
edition = "2021"
publish = false

[dependencies]
ndarray = { version = "0.15", default-features = false, features = ["std"] }
num-traits = "0.2"
sc2-proto = "*"
