[package]
name = "variantly"
version = "0.1.0"
edition = "2021"
publish = false

[dependencies]
Inflector = "*"
uuid = { version = "*", features = ["v4"] }
syn = { version = "*", features = ["full"] }
proc-macro2 = "*"
quote = "*"
