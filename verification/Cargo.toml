[package]
name = "rusqdrive"
version = "0.1.0"
edition = "2021"
publish = false

[dependencies]
proc-macro2 = "1"
quote = "1"
syn = { version = "1", features = ["full", "extra-traits"] }
r2d2 = "*"
r2d2_sqlite = { version = "*", features = ["bundled"] }
