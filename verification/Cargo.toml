[package]
name = "lumenza"
version = "0.1.0"
edition = "2021"
publish = false

[dependencies]
image = { version = "*", default-features = false, features = ["png", "jpeg"] }
imagesize = "*"
infer = "*"
mime_guess = "*"
path-absolutize = "*"
rusqlite = { version = "*", features = ["bundled"] }
uuid = { version = "*", features = ["v4"] }
walkdir = "*"
xxhash-rust = { version = "*", features = ["xxh3"] }

[dev-dependencies]
tempfile = "*"
