[package]
name = "oci_push"
version = "0.1.0"
edition = "2021"
publish = false

[dependencies]
anyhow = "*"
clap = { version = "*", features = ["derive"] }
oci-distribution = { version = "*", default-features = false, features = ["rustls-tls"] }
sha2 = "*"
tar = "*"
tempfile = "*"
tokio = { version = "*", features = ["macros", "rt-multi-thread"] }
