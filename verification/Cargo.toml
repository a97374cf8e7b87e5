[package]
name = "oscar_doc"
version = "0.1.0"
edition = "2021"
publish = false

[dependencies]
oxilangtag = "*"
serde = { version = "1", features = ["derive"] }
serde_json = "1"
schemars = "*"
warc = "*"
