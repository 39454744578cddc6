[package]
name = "dwprod"
version = "0.1.0"
edition = "2021"
publish = false

[dependencies]
gimli = "*"
object = { version = "*", features = ["write"] }
clap = "*"
