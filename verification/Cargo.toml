[package]
name = "project-balloon-api"
version = "0.1.0"
edition = "2021"
publish = false

[dependencies]
base64 = "0.22"
getrandom = "0.3"
hex = "0.4"
serde = { version = "1", features = ["derive"] }
serde_json = "1"
sha2 = "0.10"
time = { version = "0.3", features = ["formatting", "parsing", "macros"] }
uuid = { version = "1", features = ["v4"] }
