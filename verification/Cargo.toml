[package]
name = "underbots"
version = "0.1.0"
edition = "2021"
publish = false

[dependencies]
munkres = "*"
multiqueue2 = "*"
float-cmp = "*"
net2 = "*"
rand = "0.8"
strum = { version = "0.24", features = ["derive"] }
prost = "0.11"
