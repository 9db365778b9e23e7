[package]
name = "web_extract"
version = "0.1.0"
edition = "2021"
publish = false

[dependencies]
mime = "=0.3.17"
encoding = "=0.2.33"
serde = "=1.0.229"
serde_json = "=1.0.154"
serde_urlencoded = "=0.7.1"
