[package]
name = "peeps_core"
version = "0.1.0"
edition = "2021"
publish = false

[dependencies]
crossbeam = "*"
rayon = "*"
minreq = { version = "*", features = ["https", "json-using-serde"] }
neos = "*"
image = "*"
webp = "*"
serde = { version = "*", features = ["derive"] }
serde_json = "*"
