[package]
name = "sglib"
version = "0.1.0"
edition = "2021"
publish = false

[dependencies]
base64 = "=0.13.1"
crossbeam = "=0.8.5"
image = { version = "=0.24.9", default-features = false, features = ["png"] }
jni = "=0.19.0"
rand = "=0.8.8"
reqwest = { version = "=0.11.27", features = ["blocking", "json", "multipart"] }
serde_json = "=1.0.154"
