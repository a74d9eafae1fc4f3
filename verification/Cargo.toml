[package]
name = "tertestrial"
version = "0.1.0"
edition = "2021"
publish = false

[dependencies]
regex = "*"
serde = { version = "*", features = ["derive"] }
serde_json = "*"
nix = { version = "*", features = ["fs"] }
ctrlc = "*"
prettytable-rs = "*"

[dev-dependencies]
tempfile = "*"
