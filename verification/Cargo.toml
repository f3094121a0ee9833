[package]
name = "architectury"
version = "0.1.0"
edition = "2021"
publish = false

[dependencies]
rayon = "*"
once_cell = "*"
oorandom = "*"
color-eyre = "*"
dotenvy = "*"
pretty_assertions = "*"
tracing = "*"
tracing-error = "*"
tracing-subscriber = { version = "*", features = ["env-filter"] }
