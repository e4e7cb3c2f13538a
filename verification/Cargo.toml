[package]
name = "wgsl_sema"
version = "0.1.0"
edition = "2021"
publish = false

[dependencies]
anyhow = "1"
flate2 = "1"
itertools = "*"
rowan = "*"
smol_str = "*"
time = "0.3"
xshell = "0.2"
zip = { version = "*", default-features = false, features = ["deflate", "time"] }
