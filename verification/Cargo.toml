[package]
name = "mod_manager"
version = "0.1.0"
edition = "2021"
publish = false

[dependencies]
reqwest = { version = "=0.11.27", default-features = false, features = ["blocking", "rustls-tls"] }
serde = { version = "=1.0.229", features = ["derive"] }
serde_json = "=1.0.154"
serde_yaml = "=0.9.34"
url = "=2.5.8"
zip = { version = "=0.6.6", default-features = false, features = ["bzip2", "deflate", "zstd"] }
