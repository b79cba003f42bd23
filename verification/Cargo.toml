[package]
name = "shecret"
version = "0.1.0"
edition = "2021"
publish = false

[dependencies]
colored = "2"
copypasta = "0.8"
dialoguer = "0.10"
home = "0.5"
rusqlite = "0.28"
tabled = "0.10"
